//! What the text-producing operations give: key labels, decimal notation,
//! UTF-16 strings and the reading of the typed inventory key.

use vstd::prelude::*;

use crate::classic::{ascii_lower, eq_ignore_ascii_case, inventory_key_named, is_white_space, trim, trim_end, trim_start};
use crate::hotkey::HotKey;
use crate::label::{decimal, digit_char, key_label, key_name};
use crate::wide::{utf16, utf16_of_char};

verus! {

/// The value of a decimal digit character.
pub open spec fn digit_value(c: char) -> int {
    (c as u32) as int - 48
}

/// The number that a string of decimal digits denotes.
pub open spec fn decimal_value(s: Seq<char>) -> int
    decreases s.len(),
{
    if s.len() == 0 {
        0
    } else {
        decimal_value(s.drop_last()) * 10 + digit_value(s.last())
    }
}

/// The decimal notation of `n` consists of digits only, starts with a zero
/// only for zero itself, and denotes `n`.
pub proof fn lemma_decimal_denotes(n: nat)
    ensures
        decimal(n).len() > 0,
        forall|i: int| 0 <= i < decimal(n).len() ==> '0' <= #[trigger] decimal(n)[i] <= '9',
        decimal(n)[0] == '0' ==> n == 0,
        decimal_value(decimal(n)) == n,
    decreases n,
{
    if n >= 10 {
        lemma_decimal_denotes(n / 10);
        let prefix = decimal(n / 10);
        assert(decimal(n).drop_last() == prefix);
        assert forall|i: int| 0 <= i < decimal(n).len() implies '0' <= #[trigger] decimal(n)[i] <= '9' by {
            if i < prefix.len() {
                assert(decimal(n)[i] == prefix[i]);
            }
        }
        assert(decimal(n)[0] == prefix[0]);
        assert(n / 10 > 0);
        lemma_digit_value(n % 10);
        assert(decimal(n).last() == digit_char(n % 10));
        assert(decimal_value(decimal(n)) == decimal_value(prefix) * 10 + digit_value(digit_char(n % 10)));
    } else {
        lemma_digit_value(n);
        assert(decimal(n).drop_last() =~= Seq::<char>::empty());
        assert(decimal_value(Seq::<char>::empty()) == 0);
    }
}

proof fn lemma_digit_value(d: nat)
    requires
        d < 10,
    ensures
        digit_value(digit_char(d)) == d,
        '0' <= digit_char(d) <= '9',
{
}

/// Whether `code` is the virtual-key code of a key with a readable name.
pub open spec fn is_named_code(code: u32) -> bool {
    ||| 0x30 <= code <= 0x39
    ||| 0x41 <= code <= 0x5A
    ||| 0x60 <= code <= 0x6B
    ||| 0x6D <= code <= 0x7B
    ||| 0x08 <= code <= 0x09
    ||| code == 0x0D
    ||| 0x13 <= code <= 0x14
    ||| code == 0x1B
    ||| 0x20 <= code <= 0x28
    ||| 0x2C <= code <= 0x2E
    ||| 0x5B <= code <= 0x5C
    ||| 0x90 <= code <= 0x91
    ||| 0xA0 <= code <= 0xA5
    ||| code == 0xBA
    ||| 0xBC <= code <= 0xC0
    ||| 0xDB <= code <= 0xDE
}

/// The keys with a readable name are exactly the digits, letters, function
/// keys `F1` to `F12`, the numeric keypad, and the editing, navigation,
/// modifier, lock and punctuation keys that the hotkeys can take; every other
/// key is shown by its code.
pub proof fn lemma_named_keys(code: u32)
    ensures
        key_name(code) is Some <==> is_named_code(code),
        !is_named_code(code) ==> key_label(HotKey(code)) == "HotKey("@ + decimal(code as nat) + ")"@,
{
}

/// Letter and digit keys are labelled with their own character.
pub proof fn lemma_letters_and_digits_label_themselves(code: u32)
    requires
        0x30 <= code <= 0x39 || 0x41 <= code <= 0x5A,
    ensures
        key_label(HotKey(code)) == seq![code as char],
{
        reveal_strlit("'");
        reveal_strlit(",");
        reveal_strlit("-");
        reveal_strlit(".");
        reveal_strlit("/");
        reveal_strlit("0");
        reveal_strlit("1");
        reveal_strlit("2");
        reveal_strlit("3");
        reveal_strlit("4");
        reveal_strlit("5");
        reveal_strlit("6");
        reveal_strlit("7");
        reveal_strlit("8");
        reveal_strlit("9");
        reveal_strlit(";");
        reveal_strlit("A");
        reveal_strlit("Alt");
        reveal_strlit("Alt Gr");
        reveal_strlit("B");
        reveal_strlit("Backspace");
        reveal_strlit("C");
        reveal_strlit("Caps Lock");
        reveal_strlit("D");
        reveal_strlit("Delete");
        reveal_strlit("Down Arrow");
        reveal_strlit("E");
        reveal_strlit("End");
        reveal_strlit("Enter");
        reveal_strlit("Escape");
        reveal_strlit("F");
        reveal_strlit("F1");
        reveal_strlit("F10");
        reveal_strlit("F11");
        reveal_strlit("F12");
        reveal_strlit("F2");
        reveal_strlit("F3");
        reveal_strlit("F4");
        reveal_strlit("F5");
        reveal_strlit("F6");
        reveal_strlit("F7");
        reveal_strlit("F8");
        reveal_strlit("F9");
        reveal_strlit("G");
        reveal_strlit("H");
        reveal_strlit("Home");
        reveal_strlit("I");
        reveal_strlit("Insert");
        reveal_strlit("J");
        reveal_strlit("K");
        reveal_strlit("L");
        reveal_strlit("Left Arrow");
        reveal_strlit("Left Ctrl");
        reveal_strlit("Left Shift");
        reveal_strlit("Left Win");
        reveal_strlit("M");
        reveal_strlit("N");
        reveal_strlit("Num Lock");
        reveal_strlit("Numpad *");
        reveal_strlit("Numpad +");
        reveal_strlit("Numpad -");
        reveal_strlit("Numpad .");
        reveal_strlit("Numpad /");
        reveal_strlit("Numpad 0");
        reveal_strlit("Numpad 1");
        reveal_strlit("Numpad 2");
        reveal_strlit("Numpad 3");
        reveal_strlit("Numpad 4");
        reveal_strlit("Numpad 5");
        reveal_strlit("Numpad 6");
        reveal_strlit("Numpad 7");
        reveal_strlit("Numpad 8");
        reveal_strlit("Numpad 9");
        reveal_strlit("O");
        reveal_strlit("P");
        reveal_strlit("Page Down");
        reveal_strlit("Page Up");
        reveal_strlit("Pause");
        reveal_strlit("Print Screen");
        reveal_strlit("Q");
        reveal_strlit("R");
        reveal_strlit("Right Arrow");
        reveal_strlit("Right Ctrl");
        reveal_strlit("Right Shift");
        reveal_strlit("Right Win");
        reveal_strlit("S");
        reveal_strlit("Scroll Lock");
        reveal_strlit("Space");
        reveal_strlit("T");
        reveal_strlit("Tab");
        reveal_strlit("U");
        reveal_strlit("Up Arrow");
        reveal_strlit("V");
        reveal_strlit("W");
        reveal_strlit("X");
        reveal_strlit("Y");
        reveal_strlit("Z");
        reveal_strlit("[");
        reveal_strlit("\\");
        reveal_strlit("]");
        reveal_strlit("`");
}

/// Function key `Fi` (`1 <= i <= 12`) is labelled `F` followed by `i`.
pub proof fn lemma_function_keys_labelled(i: u32)
    requires
        1 <= i <= 12,
    ensures
        key_label(HotKey((0x6F + i) as u32)) == seq!['F'] + decimal(i as nat),
{
        reveal_strlit("'");
        reveal_strlit(",");
        reveal_strlit("-");
        reveal_strlit(".");
        reveal_strlit("/");
        reveal_strlit("0");
        reveal_strlit("1");
        reveal_strlit("2");
        reveal_strlit("3");
        reveal_strlit("4");
        reveal_strlit("5");
        reveal_strlit("6");
        reveal_strlit("7");
        reveal_strlit("8");
        reveal_strlit("9");
        reveal_strlit(";");
        reveal_strlit("A");
        reveal_strlit("Alt");
        reveal_strlit("Alt Gr");
        reveal_strlit("B");
        reveal_strlit("Backspace");
        reveal_strlit("C");
        reveal_strlit("Caps Lock");
        reveal_strlit("D");
        reveal_strlit("Delete");
        reveal_strlit("Down Arrow");
        reveal_strlit("E");
        reveal_strlit("End");
        reveal_strlit("Enter");
        reveal_strlit("Escape");
        reveal_strlit("F");
        reveal_strlit("F1");
        reveal_strlit("F10");
        reveal_strlit("F11");
        reveal_strlit("F12");
        reveal_strlit("F2");
        reveal_strlit("F3");
        reveal_strlit("F4");
        reveal_strlit("F5");
        reveal_strlit("F6");
        reveal_strlit("F7");
        reveal_strlit("F8");
        reveal_strlit("F9");
        reveal_strlit("G");
        reveal_strlit("H");
        reveal_strlit("Home");
        reveal_strlit("I");
        reveal_strlit("Insert");
        reveal_strlit("J");
        reveal_strlit("K");
        reveal_strlit("L");
        reveal_strlit("Left Arrow");
        reveal_strlit("Left Ctrl");
        reveal_strlit("Left Shift");
        reveal_strlit("Left Win");
        reveal_strlit("M");
        reveal_strlit("N");
        reveal_strlit("Num Lock");
        reveal_strlit("Numpad *");
        reveal_strlit("Numpad +");
        reveal_strlit("Numpad -");
        reveal_strlit("Numpad .");
        reveal_strlit("Numpad /");
        reveal_strlit("Numpad 0");
        reveal_strlit("Numpad 1");
        reveal_strlit("Numpad 2");
        reveal_strlit("Numpad 3");
        reveal_strlit("Numpad 4");
        reveal_strlit("Numpad 5");
        reveal_strlit("Numpad 6");
        reveal_strlit("Numpad 7");
        reveal_strlit("Numpad 8");
        reveal_strlit("Numpad 9");
        reveal_strlit("O");
        reveal_strlit("P");
        reveal_strlit("Page Down");
        reveal_strlit("Page Up");
        reveal_strlit("Pause");
        reveal_strlit("Print Screen");
        reveal_strlit("Q");
        reveal_strlit("R");
        reveal_strlit("Right Arrow");
        reveal_strlit("Right Ctrl");
        reveal_strlit("Right Shift");
        reveal_strlit("Right Win");
        reveal_strlit("S");
        reveal_strlit("Scroll Lock");
        reveal_strlit("Space");
        reveal_strlit("T");
        reveal_strlit("Tab");
        reveal_strlit("U");
        reveal_strlit("Up Arrow");
        reveal_strlit("V");
        reveal_strlit("W");
        reveal_strlit("X");
        reveal_strlit("Y");
        reveal_strlit("Z");
        reveal_strlit("[");
        reveal_strlit("\\");
        reveal_strlit("]");
        reveal_strlit("`");
    reveal_with_fuel(decimal, 2);
}

/// Keypad digit `i` is labelled `Numpad ` followed by `i`.
pub proof fn lemma_keypad_digits_labelled(i: u32)
    requires
        i <= 9,
    ensures
        key_label(HotKey((0x60 + i) as u32)) == "Numpad "@ + decimal(i as nat),
{
        reveal_strlit("'");
        reveal_strlit(",");
        reveal_strlit("-");
        reveal_strlit(".");
        reveal_strlit("/");
        reveal_strlit("0");
        reveal_strlit("1");
        reveal_strlit("2");
        reveal_strlit("3");
        reveal_strlit("4");
        reveal_strlit("5");
        reveal_strlit("6");
        reveal_strlit("7");
        reveal_strlit("8");
        reveal_strlit("9");
        reveal_strlit(";");
        reveal_strlit("A");
        reveal_strlit("Alt");
        reveal_strlit("Alt Gr");
        reveal_strlit("B");
        reveal_strlit("Backspace");
        reveal_strlit("C");
        reveal_strlit("Caps Lock");
        reveal_strlit("D");
        reveal_strlit("Delete");
        reveal_strlit("Down Arrow");
        reveal_strlit("E");
        reveal_strlit("End");
        reveal_strlit("Enter");
        reveal_strlit("Escape");
        reveal_strlit("F");
        reveal_strlit("F1");
        reveal_strlit("F10");
        reveal_strlit("F11");
        reveal_strlit("F12");
        reveal_strlit("F2");
        reveal_strlit("F3");
        reveal_strlit("F4");
        reveal_strlit("F5");
        reveal_strlit("F6");
        reveal_strlit("F7");
        reveal_strlit("F8");
        reveal_strlit("F9");
        reveal_strlit("G");
        reveal_strlit("H");
        reveal_strlit("Home");
        reveal_strlit("I");
        reveal_strlit("Insert");
        reveal_strlit("J");
        reveal_strlit("K");
        reveal_strlit("L");
        reveal_strlit("Left Arrow");
        reveal_strlit("Left Ctrl");
        reveal_strlit("Left Shift");
        reveal_strlit("Left Win");
        reveal_strlit("M");
        reveal_strlit("N");
        reveal_strlit("Num Lock");
        reveal_strlit("Numpad *");
        reveal_strlit("Numpad +");
        reveal_strlit("Numpad -");
        reveal_strlit("Numpad .");
        reveal_strlit("Numpad /");
        reveal_strlit("Numpad 0");
        reveal_strlit("Numpad 1");
        reveal_strlit("Numpad 2");
        reveal_strlit("Numpad 3");
        reveal_strlit("Numpad 4");
        reveal_strlit("Numpad 5");
        reveal_strlit("Numpad 6");
        reveal_strlit("Numpad 7");
        reveal_strlit("Numpad 8");
        reveal_strlit("Numpad 9");
        reveal_strlit("O");
        reveal_strlit("P");
        reveal_strlit("Page Down");
        reveal_strlit("Page Up");
        reveal_strlit("Pause");
        reveal_strlit("Print Screen");
        reveal_strlit("Q");
        reveal_strlit("R");
        reveal_strlit("Right Arrow");
        reveal_strlit("Right Ctrl");
        reveal_strlit("Right Shift");
        reveal_strlit("Right Win");
        reveal_strlit("S");
        reveal_strlit("Scroll Lock");
        reveal_strlit("Space");
        reveal_strlit("T");
        reveal_strlit("Tab");
        reveal_strlit("U");
        reveal_strlit("Up Arrow");
        reveal_strlit("V");
        reveal_strlit("W");
        reveal_strlit("X");
        reveal_strlit("Y");
        reveal_strlit("Z");
        reveal_strlit("[");
        reveal_strlit("\\");
        reveal_strlit("]");
        reveal_strlit("`");
    reveal_strlit("Numpad ");
}

/// Text made of characters below `U+10000` is encoded one code unit per
/// character, each unit being the character's own code.
pub proof fn lemma_utf16_of_basic_text(s: Seq<char>)
    requires
        forall|i: int| 0 <= i < s.len() ==> (#[trigger] s[i] as u32) < 0x10000,
    ensures
        utf16(s).len() == s.len(),
        forall|i: int| 0 <= i < s.len() ==> #[trigger] utf16(s)[i] as u32 == s[i] as u32,
    decreases s.len(),
{
    if s.len() > 0 {
        let init = s.drop_last();
        assert forall|i: int| 0 <= i < init.len() implies (#[trigger] init[i] as u32) < 0x10000 by {
            assert(init[i] == s[i]);
        }
        lemma_utf16_of_basic_text(init);
        assert forall|i: int| 0 <= i < s.len() implies #[trigger] utf16(s)[i] as u32 == s[i] as u32 by {
            if i < init.len() {
                assert(utf16(s)[i] == utf16(init)[i]);
                assert(init[i] == s[i]);
            }
        }
    }
}

/// A character from `U+10000` on is encoded as a high surrogate followed by a
/// low surrogate, from which the character's code is recovered.
pub proof fn lemma_utf16_surrogate_pair(c: char)
    requires
        (c as u32) >= 0x10000,
    ensures
        utf16_of_char(c).len() == 2,
        0xD800 <= utf16_of_char(c)[0] <= 0xDBFF,
        0xDC00 <= utf16_of_char(c)[1] <= 0xDFFF,
        0x10000 + (utf16_of_char(c)[0] - 0xD800) * 0x400 + (utf16_of_char(c)[1] - 0xDC00) == c as u32,
{
    vstd::utf8::char_is_scalar(c);
    let v = c as u32;
    let w: int = v - 0x10000;
    assert(w / 0x400 <= 0x3FF && w % 0x400 <= 0x3FF && (w / 0x400) * 0x400 + w % 0x400 == w)
        by (nonlinear_arith)
        requires
            0 <= w <= 0xFFFFF,
    ;
}

/// The encoding of two texts one after the other is the encodings of each,
/// one after the other.
pub proof fn lemma_utf16_concat(a: Seq<char>, b: Seq<char>)
    ensures
        utf16(a + b) == utf16(a) + utf16(b),
    decreases b.len(),
{
    if b.len() == 0 {
        assert(a + b == a);
    } else {
        lemma_utf16_concat(a, b.drop_last());
        assert((a + b).drop_last() == a + b.drop_last());
        assert((a + b).last() == b.last());
    }
}

proof fn lemma_trim_start_push(t: Seq<char>, w: char)
    requires
        is_white_space(w),
    ensures
        trim_start(t.push(w)) == if trim_start(t).len() == 0 {
            Seq::<char>::empty()
        } else {
            trim_start(t).push(w)
        },
    decreases t.len(),
{
    if t.len() == 0 {
        assert(t.push(w)[0] == w);
        assert(t.push(w).drop_first() =~= Seq::<char>::empty());
        assert(trim_start(Seq::<char>::empty()) == Seq::<char>::empty());
    } else if is_white_space(t[0]) {
        assert(t.push(w)[0] == t[0]);
        assert(t.push(w).drop_first() == t.drop_first().push(w));
        lemma_trim_start_push(t.drop_first(), w);
    } else {
        assert(t.push(w)[0] == t[0]);
    }
}

/// White space before or after the typed text does not change its trimmed
/// form.
pub proof fn lemma_trim_ignores_surrounding_white_space(t: Seq<char>, w: char)
    requires
        is_white_space(w),
    ensures
        trim(seq![w] + t) == trim(t),
        trim(t.push(w)) == trim(t),
{
    assert((seq![w] + t).drop_first() == t);
    lemma_trim_start_push(t, w);
    if trim_start(t).len() > 0 {
        assert(trim_start(t).push(w).drop_last() == trim_start(t));
    }
}

/// The typed text names the `E` key exactly when, trimmed, it is `e` or `E`,
/// and the `F4` key exactly when, trimmed, it is `f4` or `F4`; any other text
/// names no key.
pub proof fn lemma_inventory_key_text(t: Seq<char>)
    ensures
        inventory_key_named(t) == Option::Some(HotKey(0x45)) <==> (trim(t) == seq!['e'] || trim(t)
            == seq!['E']),
        inventory_key_named(t) == Option::Some(HotKey(0x73)) <==> (trim(t) == seq!['f', '4'] || trim(
            t,
        ) == seq!['F', '4']),
        inventory_key_named(t) is None <==> !(trim(t) == seq!['e'] || trim(t) == seq!['E'] || trim(t)
            == seq!['f', '4'] || trim(t) == seq!['F', '4']),
{
    let x = trim(t);
    if x.len() == 1 {
        lemma_ascii_lower_is(x[0], 'e', 'E');
        if x[0] == 'e' {
            assert(x == seq!['e']);
        }
        if x[0] == 'E' {
            assert(x == seq!['E']);
        }
        assert(eq_ignore_ascii_case(x, seq!['e']) <==> ascii_lower(x[0]) == ascii_lower('e'));
    }
    if x.len() == 2 {
        lemma_ascii_lower_is(x[0], 'f', 'F');
        lemma_ascii_lower_not_letter(x[1], '4');
        if x[0] == 'f' && x[1] == '4' {
            assert(x == seq!['f', '4']);
        }
        if x[0] == 'F' && x[1] == '4' {
            assert(x == seq!['F', '4']);
        }
        assert(eq_ignore_ascii_case(x, seq!['f', '4']) <==> (ascii_lower(x[0]) == ascii_lower('f')
            && ascii_lower(x[1]) == ascii_lower('4')));
    }
}

proof fn lemma_ascii_lower_is(c: char, lower: char, upper: char)
    requires
        97 <= lower as u32 <= 122,
        upper as u32 == lower as u32 - 32,
    ensures
        ascii_lower(lower) == lower,
        ascii_lower(c) == lower <==> (c == lower || c == upper),
{
    vstd::utf8::char_is_scalar(c);
    let v = c as u32;
    if 65 <= v <= 90 {
        vstd::utf8::char_u32_cast(lower, lower as u32);
        vstd::utf8::char_u32_cast(upper, upper as u32);
        vstd::utf8::char_u32_cast(c, v);
    }
}

proof fn lemma_ascii_lower_not_letter(c: char, d: char)
    requires
        !(65 <= d as u32 <= 90),
        !(97 <= d as u32 <= 122),
    ensures
        ascii_lower(d) == d,
        ascii_lower(c) == d <==> c == d,
{
    let v = c as u32;
    if 65 <= v <= 90 {
        vstd::utf8::char_u32_cast(d, d as u32);
    }
}

} // verus!
