use vstd::prelude::*;

use crate::hotkey::HotKey;

verus! {

/// The decimal digit `d` (`d < 10`) as a character.
pub open spec fn digit_char(d: nat) -> char {
    if d == 0 { '0' }
    else if d == 1 { '1' }
    else if d == 2 { '2' }
    else if d == 3 { '3' }
    else if d == 4 { '4' }
    else if d == 5 { '5' }
    else if d == 6 { '6' }
    else if d == 7 { '7' }
    else if d == 8 { '8' }
    else { '9' }
}

/// The decimal notation of `n`, without leading zeros.
pub open spec fn decimal(n: nat) -> Seq<char>
    decreases n,
{
    if n < 10 {
        seq![digit_char(n)]
    } else {
        decimal(n / 10).push(digit_char(n % 10))
    }
}

/// The readable name of a virtual-key code, for the keys that have one.
pub open spec fn key_name(code: u32) -> Option<Seq<char>> {
    match code {
        0xA4 => Option::Some("Alt"@),
        0xA5 => Option::Some("Alt Gr"@),
        0xC0 => Option::Some("`"@),
        0xDC => Option::Some("\\"@),
        0x08 => Option::Some("Backspace"@),
        0x14 => Option::Some("Caps Lock"@),
        0xBC => Option::Some(","@),
        0xA2 => Option::Some("Left Ctrl"@),
        0xA3 => Option::Some("Right Ctrl"@),
        0x2E => Option::Some("Delete"@),
        0xBE => Option::Some("."@),
        0x28 => Option::Some("Down Arrow"@),
        0x23 => Option::Some("End"@),
        0x1B => Option::Some("Escape"@),
        0x70 => Option::Some("F1"@),
        0x71 => Option::Some("F2"@),
        0x72 => Option::Some("F3"@),
        0x73 => Option::Some("F4"@),
        0x74 => Option::Some("F5"@),
        0x75 => Option::Some("F6"@),
        0x76 => Option::Some("F7"@),
        0x77 => Option::Some("F8"@),
        0x78 => Option::Some("F9"@),
        0x79 => Option::Some("F10"@),
        0x7A => Option::Some("F11"@),
        0x7B => Option::Some("F12"@),
        0x24 => Option::Some("Home"@),
        0x2D => Option::Some("Insert"@),
        0x41 => Option::Some("A"@),
        0x42 => Option::Some("B"@),
        0x43 => Option::Some("C"@),
        0x44 => Option::Some("D"@),
        0x45 => Option::Some("E"@),
        0x46 => Option::Some("F"@),
        0x47 => Option::Some("G"@),
        0x48 => Option::Some("H"@),
        0x49 => Option::Some("I"@),
        0x4A => Option::Some("J"@),
        0x4B => Option::Some("K"@),
        0x4C => Option::Some("L"@),
        0x4D => Option::Some("M"@),
        0x4E => Option::Some("N"@),
        0x4F => Option::Some("O"@),
        0x50 => Option::Some("P"@),
        0x51 => Option::Some("Q"@),
        0x52 => Option::Some("R"@),
        0x53 => Option::Some("S"@),
        0x54 => Option::Some("T"@),
        0x55 => Option::Some("U"@),
        0x56 => Option::Some("V"@),
        0x57 => Option::Some("W"@),
        0x58 => Option::Some("X"@),
        0x59 => Option::Some("Y"@),
        0x5A => Option::Some("Z"@),
        0x25 => Option::Some("Left Arrow"@),
        0xDB => Option::Some("["@),
        0x5B => Option::Some("Left Win"@),
        0x5C => Option::Some("Right Win"@),
        0xBD => Option::Some("-"@),
        0x30 => Option::Some("0"@),
        0x31 => Option::Some("1"@),
        0x32 => Option::Some("2"@),
        0x33 => Option::Some("3"@),
        0x34 => Option::Some("4"@),
        0x35 => Option::Some("5"@),
        0x36 => Option::Some("6"@),
        0x37 => Option::Some("7"@),
        0x38 => Option::Some("8"@),
        0x39 => Option::Some("9"@),
        0x90 => Option::Some("Num Lock"@),
        0x22 => Option::Some("Page Down"@),
        0x21 => Option::Some("Page Up"@),
        0x13 => Option::Some("Pause"@),
        0x2C => Option::Some("Print Screen"@),
        0xDE => Option::Some("'"@),
        0x0D => Option::Some("Enter"@),
        0x27 => Option::Some("Right Arrow"@),
        0xDD => Option::Some("]"@),
        0x91 => Option::Some("Scroll Lock"@),
        0xBA => Option::Some(";"@),
        0xA0 => Option::Some("Left Shift"@),
        0xA1 => Option::Some("Right Shift"@),
        0xBF => Option::Some("/"@),
        0x20 => Option::Some("Space"@),
        0x09 => Option::Some("Tab"@),
        0x26 => Option::Some("Up Arrow"@),
        0x60 => Option::Some("Numpad 0"@),
        0x61 => Option::Some("Numpad 1"@),
        0x62 => Option::Some("Numpad 2"@),
        0x63 => Option::Some("Numpad 3"@),
        0x64 => Option::Some("Numpad 4"@),
        0x65 => Option::Some("Numpad 5"@),
        0x66 => Option::Some("Numpad 6"@),
        0x67 => Option::Some("Numpad 7"@),
        0x68 => Option::Some("Numpad 8"@),
        0x69 => Option::Some("Numpad 9"@),
        0x6E => Option::Some("Numpad ."@),
        0x6F => Option::Some("Numpad /"@),
        0x6D => Option::Some("Numpad -"@),
        0x6A => Option::Some("Numpad *"@),
        0x6B => Option::Some("Numpad +"@),
        _ => Option::None,
    }
}

/// The label given to a key without a readable name.
pub open spec fn unnamed_label(code: u32) -> Seq<char> {
    "HotKey("@ + decimal(code as nat) + ")"@
}

/// Whether `s` starts with `Hot`, as the labels of unnamed keys do.
pub open spec fn starts_with_hot(s: Seq<char>) -> bool {
    s.len() >= 3 && s[0] == 'H' && s[1] == 'o' && s[2] == 't'
}

/// The code of the named key whose name is `s`, read off the characters that
/// tell the names apart.
spec fn named_code(s: Seq<char>) -> u32 {
    if s.len() == 1 {
        if s[0] == '`' {
            0xC0
        } else if s[0] == '\\' {
            0xDC
        } else if s[0] == ',' {
            0xBC
        } else if s[0] == '.' {
            0xBE
        } else if s[0] == 'A' {
            0x41
        } else if s[0] == 'B' {
            0x42
        } else if s[0] == 'C' {
            0x43
        } else if s[0] == 'D' {
            0x44
        } else if s[0] == 'E' {
            0x45
        } else if s[0] == 'F' {
            0x46
        } else if s[0] == 'G' {
            0x47
        } else if s[0] == 'H' {
            0x48
        } else if s[0] == 'I' {
            0x49
        } else if s[0] == 'J' {
            0x4A
        } else if s[0] == 'K' {
            0x4B
        } else if s[0] == 'L' {
            0x4C
        } else if s[0] == 'M' {
            0x4D
        } else if s[0] == 'N' {
            0x4E
        } else if s[0] == 'O' {
            0x4F
        } else if s[0] == 'P' {
            0x50
        } else if s[0] == 'Q' {
            0x51
        } else if s[0] == 'R' {
            0x52
        } else if s[0] == 'S' {
            0x53
        } else if s[0] == 'T' {
            0x54
        } else if s[0] == 'U' {
            0x55
        } else if s[0] == 'V' {
            0x56
        } else if s[0] == 'W' {
            0x57
        } else if s[0] == 'X' {
            0x58
        } else if s[0] == 'Y' {
            0x59
        } else if s[0] == 'Z' {
            0x5A
        } else if s[0] == '[' {
            0xDB
        } else if s[0] == '-' {
            0xBD
        } else if s[0] == '0' {
            0x30
        } else if s[0] == '1' {
            0x31
        } else if s[0] == '2' {
            0x32
        } else if s[0] == '3' {
            0x33
        } else if s[0] == '4' {
            0x34
        } else if s[0] == '5' {
            0x35
        } else if s[0] == '6' {
            0x36
        } else if s[0] == '7' {
            0x37
        } else if s[0] == '8' {
            0x38
        } else if s[0] == '9' {
            0x39
        } else if s[0] == '\'' {
            0xDE
        } else if s[0] == ']' {
            0xDD
        } else if s[0] == ';' {
            0xBA
        } else {
            0xBF
        }
    } else if s.len() == 2 {
        if s[1] == '1' {
            0x70
        } else if s[1] == '2' {
            0x71
        } else if s[1] == '3' {
            0x72
        } else if s[1] == '4' {
            0x73
        } else if s[1] == '5' {
            0x74
        } else if s[1] == '6' {
            0x75
        } else if s[1] == '7' {
            0x76
        } else if s[1] == '8' {
            0x77
        } else {
            0x78
        }
    } else if s.len() == 3 {
        if s[2] == 't' {
            0xA4
        } else if s[2] == 'd' {
            0x23
        } else if s[2] == '0' {
            0x79
        } else if s[2] == '1' {
            0x7A
        } else if s[2] == '2' {
            0x7B
        } else {
            0x09
        }
    } else if s.len() == 4 {
        0x24
    } else if s.len() == 5 {
        if s[0] == 'P' {
            0x13
        } else if s[0] == 'E' {
            0x0D
        } else {
            0x20
        }
    } else if s.len() == 6 {
        if s[0] == 'A' {
            0xA5
        } else if s[0] == 'D' {
            0x2E
        } else if s[0] == 'E' {
            0x1B
        } else {
            0x2D
        }
    } else if s.len() == 7 {
        0x21
    } else if s.len() == 8 {
        if s[7] == 'n' {
            0x5B
        } else if s[7] == 'k' {
            0x90
        } else if s[7] == 'w' {
            0x26
        } else if s[7] == '0' {
            0x60
        } else if s[7] == '1' {
            0x61
        } else if s[7] == '2' {
            0x62
        } else if s[7] == '3' {
            0x63
        } else if s[7] == '4' {
            0x64
        } else if s[7] == '5' {
            0x65
        } else if s[7] == '6' {
            0x66
        } else if s[7] == '7' {
            0x67
        } else if s[7] == '8' {
            0x68
        } else if s[7] == '9' {
            0x69
        } else if s[7] == '.' {
            0x6E
        } else if s[7] == '/' {
            0x6F
        } else if s[7] == '-' {
            0x6D
        } else if s[7] == '*' {
            0x6A
        } else {
            0x6B
        }
    } else if s.len() == 9 {
        if s[0] == 'B' {
            0x08
        } else if s[0] == 'C' {
            0x14
        } else if s[0] == 'L' {
            0xA2
        } else if s[0] == 'R' {
            0x5C
        } else {
            0x22
        }
    } else if s.len() == 10 {
        if s[0] == 'R' {
            0xA3
        } else if s[0] == 'D' {
            0x28
        } else {
            if s[5] == 'A' {
                0x25
            } else {
                0xA0
            }
        }
    } else if s.len() == 11 {
        if s[6] == 'A' {
            0x27
        } else if s[6] == ' ' {
            0x91
        } else {
            0xA1
        }
    } else if s.len() == 12 {
        0x2C
    } else {
        0
    }
}

/// The name of a named key is non-empty, does not start with `Hot`, and
/// determines the key.
proof fn lemma_key_name_facts(code: u32)
    requires
        key_name(code) is Some,
    ensures
        key_name(code)->0.len() > 0,
        !starts_with_hot(key_name(code)->0),
        named_code(key_name(code)->0) == code,
{
        reveal_strlit("'");
        reveal_strlit(",");
        reveal_strlit("-");
        reveal_strlit(".");
        reveal_strlit("/");
        reveal_strlit("0");
        reveal_strlit("1");
        reveal_strlit("2");
        reveal_strlit("3");
        reveal_strlit("4");
        reveal_strlit("5");
        reveal_strlit("6");
        reveal_strlit("7");
        reveal_strlit("8");
        reveal_strlit("9");
        reveal_strlit(";");
        reveal_strlit("A");
        reveal_strlit("Alt");
        reveal_strlit("Alt Gr");
        reveal_strlit("B");
        reveal_strlit("Backspace");
        reveal_strlit("C");
        reveal_strlit("Caps Lock");
        reveal_strlit("D");
        reveal_strlit("Delete");
        reveal_strlit("Down Arrow");
        reveal_strlit("E");
        reveal_strlit("End");
        reveal_strlit("Enter");
        reveal_strlit("Escape");
        reveal_strlit("F");
        reveal_strlit("F1");
        reveal_strlit("F10");
        reveal_strlit("F11");
        reveal_strlit("F12");
        reveal_strlit("F2");
        reveal_strlit("F3");
        reveal_strlit("F4");
        reveal_strlit("F5");
        reveal_strlit("F6");
        reveal_strlit("F7");
        reveal_strlit("F8");
        reveal_strlit("F9");
        reveal_strlit("G");
        reveal_strlit("H");
        reveal_strlit("Home");
        reveal_strlit("I");
        reveal_strlit("Insert");
        reveal_strlit("J");
        reveal_strlit("K");
        reveal_strlit("L");
        reveal_strlit("Left Arrow");
        reveal_strlit("Left Ctrl");
        reveal_strlit("Left Shift");
        reveal_strlit("Left Win");
        reveal_strlit("M");
        reveal_strlit("N");
        reveal_strlit("Num Lock");
        reveal_strlit("Numpad *");
        reveal_strlit("Numpad +");
        reveal_strlit("Numpad -");
        reveal_strlit("Numpad .");
        reveal_strlit("Numpad /");
        reveal_strlit("Numpad 0");
        reveal_strlit("Numpad 1");
        reveal_strlit("Numpad 2");
        reveal_strlit("Numpad 3");
        reveal_strlit("Numpad 4");
        reveal_strlit("Numpad 5");
        reveal_strlit("Numpad 6");
        reveal_strlit("Numpad 7");
        reveal_strlit("Numpad 8");
        reveal_strlit("Numpad 9");
        reveal_strlit("O");
        reveal_strlit("P");
        reveal_strlit("Page Down");
        reveal_strlit("Page Up");
        reveal_strlit("Pause");
        reveal_strlit("Print Screen");
        reveal_strlit("Q");
        reveal_strlit("R");
        reveal_strlit("Right Arrow");
        reveal_strlit("Right Ctrl");
        reveal_strlit("Right Shift");
        reveal_strlit("Right Win");
        reveal_strlit("S");
        reveal_strlit("Scroll Lock");
        reveal_strlit("Space");
        reveal_strlit("T");
        reveal_strlit("Tab");
        reveal_strlit("U");
        reveal_strlit("Up Arrow");
        reveal_strlit("V");
        reveal_strlit("W");
        reveal_strlit("X");
        reveal_strlit("Y");
        reveal_strlit("Z");
        reveal_strlit("[");
        reveal_strlit("\\");
        reveal_strlit("]");
        reveal_strlit("`");
}

proof fn lemma_digit_char_injective(a: nat, b: nat)
    requires
        a < 10,
        b < 10,
        digit_char(a) == digit_char(b),
    ensures
        a == b,
{
}

proof fn lemma_decimal_len(n: nat)
    ensures
        decimal(n).len() >= 1,
        decimal(n).len() == 1 <==> n < 10,
    decreases n,
{
    if n >= 10 {
        lemma_decimal_len(n / 10);
    }
}

/// Different numbers have different decimal notations.
pub proof fn lemma_decimal_injective(a: nat, b: nat)
    requires
        decimal(a) == decimal(b),
    ensures
        a == b,
    decreases a,
{
    lemma_decimal_len(a);
    lemma_decimal_len(b);
    if a < 10 {
        assert(b < 10);
        assert(decimal(a)[0] == digit_char(a));
        assert(decimal(b)[0] == digit_char(b));
        lemma_digit_char_injective(a, b);
    } else {
        let da = decimal(a);
        let db = decimal(b);
        assert(da.last() == db.last());
        lemma_digit_char_injective(a % 10, b % 10);
        assert(da.drop_last() == db.drop_last());
        assert(da.drop_last() == decimal(a / 10));
        assert(db.drop_last() == decimal(b / 10));
        lemma_decimal_injective(a / 10, b / 10);
    }
}

/// The labels of unnamed keys start with `Hot` and tell the keys apart.
pub proof fn lemma_unnamed_label_facts(a: u32, b: u32)
    ensures
        starts_with_hot(unnamed_label(a)),
        unnamed_label(a) == unnamed_label(b) ==> a == b,
{
    reveal_strlit("HotKey(");
    reveal_strlit(")");
    lemma_decimal_len(a as nat);
    lemma_decimal_len(b as nat);
    let la = unnamed_label(a);
    let lb = unnamed_label(b);
    assert(la.subrange(7, la.len() - 1) == decimal(a as nat));
    assert(lb.subrange(7, lb.len() - 1) == decimal(b as nat));
    if la == lb {
        lemma_decimal_injective(a as nat, b as nat);
    }
}

/// Every key has a non-empty label, and different keys have different labels.
pub(crate) proof fn lemma_key_labels_distinct(k1: HotKey, k2: HotKey)
    ensures
        key_label(k1).len() > 0,
        k1 != k2 ==> key_label(k1) != key_label(k2),
{
    lemma_unnamed_label_facts(k1.0, k2.0);
    lemma_unnamed_label_facts(k2.0, k1.0);
    reveal_strlit("HotKey(");
    if key_name(k1.0) is Some {
        lemma_key_name_facts(k1.0);
    }
    if key_name(k2.0) is Some {
        lemma_key_name_facts(k2.0);
    }
}

/// The label shown for a key: its readable name, or `HotKey(<code>)` for a key
/// without one.
pub open spec fn key_label(key: HotKey) -> Seq<char> {
    match key_name(key.0) {
        Option::Some(name) => name,
        Option::None => unnamed_label(key.0),
    }
}

fn known_key_name(code: u32) -> (name: Option<&'static str>)
    ensures
        match name {
            Option::Some(s) => key_name(code) == Option::Some(s@),
            Option::None => key_name(code) is None,
        },
{
    match code {
        0xA4 => Option::Some("Alt"),
        0xA5 => Option::Some("Alt Gr"),
        0xC0 => Option::Some("`"),
        0xDC => Option::Some("\\"),
        0x08 => Option::Some("Backspace"),
        0x14 => Option::Some("Caps Lock"),
        0xBC => Option::Some(","),
        0xA2 => Option::Some("Left Ctrl"),
        0xA3 => Option::Some("Right Ctrl"),
        0x2E => Option::Some("Delete"),
        0xBE => Option::Some("."),
        0x28 => Option::Some("Down Arrow"),
        0x23 => Option::Some("End"),
        0x1B => Option::Some("Escape"),
        0x70 => Option::Some("F1"),
        0x71 => Option::Some("F2"),
        0x72 => Option::Some("F3"),
        0x73 => Option::Some("F4"),
        0x74 => Option::Some("F5"),
        0x75 => Option::Some("F6"),
        0x76 => Option::Some("F7"),
        0x77 => Option::Some("F8"),
        0x78 => Option::Some("F9"),
        0x79 => Option::Some("F10"),
        0x7A => Option::Some("F11"),
        0x7B => Option::Some("F12"),
        0x24 => Option::Some("Home"),
        0x2D => Option::Some("Insert"),
        0x41 => Option::Some("A"),
        0x42 => Option::Some("B"),
        0x43 => Option::Some("C"),
        0x44 => Option::Some("D"),
        0x45 => Option::Some("E"),
        0x46 => Option::Some("F"),
        0x47 => Option::Some("G"),
        0x48 => Option::Some("H"),
        0x49 => Option::Some("I"),
        0x4A => Option::Some("J"),
        0x4B => Option::Some("K"),
        0x4C => Option::Some("L"),
        0x4D => Option::Some("M"),
        0x4E => Option::Some("N"),
        0x4F => Option::Some("O"),
        0x50 => Option::Some("P"),
        0x51 => Option::Some("Q"),
        0x52 => Option::Some("R"),
        0x53 => Option::Some("S"),
        0x54 => Option::Some("T"),
        0x55 => Option::Some("U"),
        0x56 => Option::Some("V"),
        0x57 => Option::Some("W"),
        0x58 => Option::Some("X"),
        0x59 => Option::Some("Y"),
        0x5A => Option::Some("Z"),
        0x25 => Option::Some("Left Arrow"),
        0xDB => Option::Some("["),
        0x5B => Option::Some("Left Win"),
        0x5C => Option::Some("Right Win"),
        0xBD => Option::Some("-"),
        0x30 => Option::Some("0"),
        0x31 => Option::Some("1"),
        0x32 => Option::Some("2"),
        0x33 => Option::Some("3"),
        0x34 => Option::Some("4"),
        0x35 => Option::Some("5"),
        0x36 => Option::Some("6"),
        0x37 => Option::Some("7"),
        0x38 => Option::Some("8"),
        0x39 => Option::Some("9"),
        0x90 => Option::Some("Num Lock"),
        0x22 => Option::Some("Page Down"),
        0x21 => Option::Some("Page Up"),
        0x13 => Option::Some("Pause"),
        0x2C => Option::Some("Print Screen"),
        0xDE => Option::Some("'"),
        0x0D => Option::Some("Enter"),
        0x27 => Option::Some("Right Arrow"),
        0xDD => Option::Some("]"),
        0x91 => Option::Some("Scroll Lock"),
        0xBA => Option::Some(";"),
        0xA0 => Option::Some("Left Shift"),
        0xA1 => Option::Some("Right Shift"),
        0xBF => Option::Some("/"),
        0x20 => Option::Some("Space"),
        0x09 => Option::Some("Tab"),
        0x26 => Option::Some("Up Arrow"),
        0x60 => Option::Some("Numpad 0"),
        0x61 => Option::Some("Numpad 1"),
        0x62 => Option::Some("Numpad 2"),
        0x63 => Option::Some("Numpad 3"),
        0x64 => Option::Some("Numpad 4"),
        0x65 => Option::Some("Numpad 5"),
        0x66 => Option::Some("Numpad 6"),
        0x67 => Option::Some("Numpad 7"),
        0x68 => Option::Some("Numpad 8"),
        0x69 => Option::Some("Numpad 9"),
        0x6E => Option::Some("Numpad ."),
        0x6F => Option::Some("Numpad /"),
        0x6D => Option::Some("Numpad -"),
        0x6A => Option::Some("Numpad *"),
        0x6B => Option::Some("Numpad +"),
        _ => Option::None,
    }
}

fn digit_str(d: u32) -> (s: &'static str)
    requires
        d < 10,
    ensures
        s@ == seq![digit_char(d as nat)],
{
    proof {
        reveal_strlit("0");
        reveal_strlit("1");
        reveal_strlit("2");
        reveal_strlit("3");
        reveal_strlit("4");
        reveal_strlit("5");
        reveal_strlit("6");
        reveal_strlit("7");
        reveal_strlit("8");
        reveal_strlit("9");
    }
    match d {
        0 => "0",
        1 => "1",
        2 => "2",
        3 => "3",
        4 => "4",
        5 => "5",
        6 => "6",
        7 => "7",
        8 => "8",
        _ => "9",
    }
}

/// Appends the decimal notation of `n` to `out`.
pub fn append_decimal(out: &mut String, n: u32)
    ensures
        final(out)@ == old(out)@ + decimal(n as nat),
    decreases n,
{
    if n >= 10 {
        append_decimal(out, n / 10);
    }
    let d = digit_str(n % 10);
    out.append(d);
    assert(final(out)@ == old(out)@ + decimal(n as nat)) by {
        if n >= 10 {
            assert(decimal(n as nat) == decimal((n / 10) as nat).push(digit_char((n % 10) as nat)));
        }
    }
}

/// Returns the label of a key as the user interface shows it.
pub fn key_to_label(key: HotKey) -> (label: String)
    ensures
        label@ == key_label(key),
{
    match known_key_name(key.0) {
        Option::Some(name) => String::from_str(name),
        Option::None => {
            let mut label = String::from_str("HotKey(");
            append_decimal(&mut label, key.0);
            label.append(")");
            label
        },
    }
}

} // verus!
