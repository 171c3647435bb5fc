//! The standalone variant of the autoclicker: `F4` always toggles, and the
//! inventory key is typed into a text field.

use vstd::prelude::*;

use crate::hotkey::HotKey;

verus! {

broadcast use vstd::string::group_string_axioms;

/// Whether `c` has the Unicode `White_Space` property.
pub open spec fn is_white_space(c: char) -> bool {
    let v = c as u32;
    ||| 0x09 <= v <= 0x0D
    ||| v == 0x20
    ||| v == 0x85
    ||| v == 0xA0
    ||| v == 0x1680
    ||| 0x2000 <= v <= 0x200A
    ||| v == 0x2028
    ||| v == 0x2029
    ||| v == 0x202F
    ||| v == 0x205F
    ||| v == 0x3000
}

/// `s` without its leading white space.
pub open spec fn trim_start(s: Seq<char>) -> Seq<char>
    decreases s.len(),
{
    if s.len() > 0 && is_white_space(s[0]) {
        trim_start(s.drop_first())
    } else {
        s
    }
}

/// `s` without its trailing white space.
pub open spec fn trim_end(s: Seq<char>) -> Seq<char>
    decreases s.len(),
{
    if s.len() > 0 && is_white_space(s.last()) {
        trim_end(s.drop_last())
    } else {
        s
    }
}

/// `s` without leading and trailing white space.
pub open spec fn trim(s: Seq<char>) -> Seq<char> {
    trim_end(trim_start(s))
}

/// `c` with an ASCII upper-case letter turned into lower case.
pub open spec fn ascii_lower(c: char) -> char {
    let v = c as u32;
    if 65 <= v <= 90 {
        (v + 32) as char
    } else {
        c
    }
}

/// Whether `a` and `b` are equal when ASCII letters are compared regardless of case.
pub open spec fn eq_ignore_ascii_case(a: Seq<char>, b: Seq<char>) -> bool {
    &&& a.len() == b.len()
    &&& forall|i: int| 0 <= i < a.len() ==> ascii_lower(#[trigger] a[i]) == ascii_lower(b[i])
}

/// The inventory key that the text typed into the inventory field names: `E` or
/// `F4`, in either case and with white space around it.
pub open spec fn inventory_key_named(text: Seq<char>) -> Option<HotKey> {
    if eq_ignore_ascii_case(trim(text), seq!['e']) {
        Option::Some(HotKey(0x45))
    } else if eq_ignore_ascii_case(trim(text), seq!['f', '4']) {
        Option::Some(HotKey(0x73))
    } else {
        Option::None
    }
}

fn char_is_white_space(c: char) -> (b: bool)
    ensures
        b == is_white_space(c),
{
    let v: u32 = c as u32;
    (0x09 <= v && v <= 0x0D) || v == 0x20 || v == 0x85 || v == 0xA0 || v == 0x1680 || (0x2000 <= v
        && v <= 0x200A) || v == 0x2028 || v == 0x2029 || v == 0x202F || v == 0x205F || v == 0x3000
}

fn char_ascii_lower(c: char) -> (l: char)
    ensures
        l == ascii_lower(c),
{
    let v: u32 = c as u32;
    if 65 <= v && v <= 90 {
        char_from_ascii(v + 32)
    } else {
        c
    }
}

fn char_from_ascii(v: u32) -> (c: char)
    requires
        v < 128,
    ensures
        c == v as char,
{
    (v as u8) as char
}

fn collect_chars(text: &str) -> (chars: Vec<char>)
    ensures
        chars@ == text@,
{
    let mut out: Vec<char> = Vec::new();
    let ghost s = text@;
    for c in it: text.chars()
        invariant
            it.seq() == s,
            out@ == s.take(it.index() as int),
    {
        let ghost i = it.index() as int;
        assert(c == s[i]);
        out.push(c);
        assert(out@ == s.take(i + 1));
    }
    assert(s.take(s.len() as int) == s);
    out
}

proof fn lemma_trim_start_skip(s: Seq<char>, i: int)
    requires
        0 <= i < s.len(),
        is_white_space(s[i]),
    ensures
        trim_start(s.subrange(i, s.len() as int)) == trim_start(s.subrange(i + 1, s.len() as int)),
{
    assert(s.subrange(i, s.len() as int).drop_first() == s.subrange(i + 1, s.len() as int));
}

proof fn lemma_trim_end_skip(s: Seq<char>, lo: int, hi: int)
    requires
        0 <= lo < hi <= s.len(),
        is_white_space(s[hi - 1]),
    ensures
        trim_end(s.subrange(lo, hi)) == trim_end(s.subrange(lo, hi - 1)),
{
    assert(s.subrange(lo, hi).drop_last() == s.subrange(lo, hi - 1));
}

/// The bounds of `chars` without leading and trailing white space.
fn trimmed_bounds(chars: &Vec<char>) -> (bounds: (usize, usize))
    ensures
        bounds.0 <= bounds.1 <= chars@.len(),
        chars@.subrange(bounds.0 as int, bounds.1 as int) == trim(chars@),
{
    let n = chars.len();
    let ghost s = chars@;
    let mut start: usize = 0;
    assert(s.subrange(0, n as int) == s);
    while start < n && char_is_white_space(chars[start])
        invariant
            n == s.len(),
            s == chars@,
            start <= n,
            trim_start(s) == trim_start(s.subrange(start as int, n as int)),
        decreases n - start,
    {
        proof {
            lemma_trim_start_skip(s, start as int);
        }
        start = start + 1;
    }
    assert(trim_start(s) == s.subrange(start as int, n as int));
    let mut end: usize = n;
    while end > start && char_is_white_space(chars[end - 1])
        invariant
            n == s.len(),
            s == chars@,
            start <= end <= n,
            trim(s) == trim_end(s.subrange(start as int, end as int)),
        decreases end,
    {
        proof {
            lemma_trim_end_skip(s, start as int, end as int);
        }
        end = end - 1;
    }
    (start, end)
}

fn matches_ignoring_case(chars: &Vec<char>, lo: usize, hi: usize, word: &Vec<char>) -> (b: bool)
    requires
        lo <= hi <= chars@.len(),
    ensures
        b == eq_ignore_ascii_case(chars@.subrange(lo as int, hi as int), word@),
{
    if hi - lo != word.len() {
        return false;
    }
    let ghost sub = chars@.subrange(lo as int, hi as int);
    let mut i: usize = 0;
    while i < word.len()
        invariant
            lo <= hi <= chars@.len(),
            hi - lo == word@.len(),
            sub == chars@.subrange(lo as int, hi as int),
            i <= word@.len(),
            forall|j: int| 0 <= j < i ==> ascii_lower(#[trigger] sub[j]) == ascii_lower(word@[j]),
        decreases word@.len() - i,
    {
        if char_ascii_lower(chars[lo + i]) != char_ascii_lower(word[i]) {
            assert(sub[i as int] == chars@[lo + i]);
            return false;
        }
        assert(sub[i as int] == chars@[lo + i]);
        i = i + 1;
    }
    true
}

/// Reads the inventory key typed into the text field: `E` or `F4`, regardless
/// of case and of surrounding white space; anything else names no key.
pub fn parse_inventory_key(text: &str) -> (key: Option<HotKey>)
    ensures
        key == inventory_key_named(text@),
{
    let chars = collect_chars(text);
    let (lo, hi) = trimmed_bounds(&chars);
    let e: Vec<char> = vec!['e'];
    if matches_ignoring_case(&chars, lo, hi, &e) {
        return Option::Some(HotKey::KEY_E());
    }
    let f4: Vec<char> = vec!['f', '4'];
    if matches_ignoring_case(&chars, lo, hi, &f4) {
        return Option::Some(HotKey::F4());
    }
    Option::None
}

/// The flags that the standalone program's keyboard listener, click loop and
/// window share.
#[derive(Clone, Copy, Debug, PartialEq, Eq, Structural)]
pub struct ClickFlags {
    pub running: bool,
    pub inv_paused: bool,
}

/// The flags after the autoclick was switched on or off.
pub open spec fn toggled(f: ClickFlags) -> ClickFlags {
    ClickFlags { running: !f.running, inv_paused: false }
}

/// The status that the start / stop button leaves in the window.
pub open spec fn toggle_status_text(running: bool) -> Seq<char> {
    if running {
        "Clics actifs"@
    } else {
        "Arrêté"@
    }
}

/// The status line that the window shows for the flags.
pub open spec fn classic_status_text(running: bool, inv_paused: bool) -> Seq<char> {
    if running {
        "Active click"@
    } else if inv_paused {
        "Paused (inventory)"@
    } else {
        "Stopped"@
    }
}

/// The flags after `key` was released: `F4` switches the autoclick on or off,
/// the inventory key pauses a running autoclick and resumes a paused one.
pub open spec fn classic_release_step(f: ClickFlags, key: HotKey, inventory_key: HotKey) -> ClickFlags {
    if key == HotKey(0x73) {
        toggled(f)
    } else if key == inventory_key && f.running {
        ClickFlags { running: false, inv_paused: true }
    } else if key == inventory_key && f.inv_paused {
        ClickFlags { running: true, inv_paused: false }
    } else {
        f
    }
}

/// Switches the autoclick on or off, ending any inventory pause, and returns
/// the status to show.
pub fn toggle_clicking(flags: &mut ClickFlags) -> (status: String)
    ensures
        *final(flags) == toggled(*old(flags)),
        status@ == toggle_status_text(final(flags).running),
{
    let new_running = !flags.running;
    flags.running = new_running;
    flags.inv_paused = false;
    if new_running {
        String::from_str("Clics actifs")
    } else {
        String::from_str("Arrêté")
    }
}

/// Reacts to a released key in the standalone program.
pub fn classic_key_release(flags: &mut ClickFlags, key: HotKey, inventory_key: HotKey)
    ensures
        *final(flags) == classic_release_step(*old(flags), key, inventory_key),
{
    if key == HotKey::F4() {
        flags.running = !flags.running;
        flags.inv_paused = false;
        return;
    }
    if key == inventory_key {
        if flags.running {
            flags.running = false;
            flags.inv_paused = true;
        } else if flags.inv_paused {
            flags.running = true;
            flags.inv_paused = false;
        }
    }
}

/// Returns the status line that the window shows for the flags.
pub fn classic_status(flags: ClickFlags) -> (status: String)
    ensures
        status@ == classic_status_text(flags.running, flags.inv_paused),
{
    if flags.running {
        String::from_str("Active click")
    } else if flags.inv_paused {
        String::from_str("Paused (inventory)")
    } else {
        String::from_str("Stopped")
    }
}

} // verus!
