//! The textual JSON model: which texts are valid JSON documents, which of
//! them spell an object, and how raw text is encoded as a JSON string.

use vstd::prelude::*;
use vstd::string::*;

verus! {

/// Whether a text is a valid JSON document. The name stands for the
/// success of `serde_json::from_str`, which depends on the text alone.
pub uninterp spec fn is_json_text(t: Seq<char>) -> bool;

/// Relies on `serde_json::from_str::<serde_json::Value>`: it accepts a
/// string exactly when the string is a valid JSON document, and whether it
/// accepts depends on the string alone.
#[verifier::external_body]
pub(crate) fn json_parses(s: &str) -> (r: bool)
    ensures
        r == is_json_text(s@),
{
    serde_json::from_str::<serde_json::Value>(s).is_ok()
}

/// Relies on `String::push`: appends exactly the one character.
#[verifier::external_body]
pub(crate) fn push_char(s: &mut String, c: char)
    ensures
        final(s)@ == old(s)@.push(c),
{
    s.push(c)
}

/// The whitespace characters of the JSON grammar.
pub open spec fn is_json_ws(c: char) -> bool {
    c == ' ' || c == '\t' || c == '\n' || c == '\r'
}

/// The index of the first non-whitespace character at or after `i`, or the
/// length of the text when only whitespace follows.
pub open spec fn scan_ws(t: Seq<char>, i: nat) -> nat
    decreases t.len() - i,
    when i <= t.len()
{
    if i >= t.len() {
        i
    } else if is_json_ws(t[i as int]) {
        scan_ws(t, i + 1)
    } else {
        i
    }
}

/// One past the index of the last non-whitespace character strictly before
/// `i`, or zero when only whitespace precedes.
pub open spec fn scan_ws_back(t: Seq<char>, i: nat) -> nat
    decreases i,
    when i <= t.len()
{
    if i == 0 {
        0
    } else if is_json_ws(t[i - 1]) {
        scan_ws_back(t, (i - 1) as nat)
    } else {
        i
    }
}

/// Every character of the text is JSON whitespace.
pub open spec fn all_json_ws(t: Seq<char>) -> bool {
    forall|k: int| 0 <= k < t.len() ==> is_json_ws(t[k])
}

/// The text spells a JSON object: after trimming surrounding whitespace it
/// begins with `{` and ends with `}`.
pub open spec fn object_form(t: Seq<char>) -> bool {
    let a = scan_ws(t, 0);
    let b = scan_ws_back(t, t.len() as nat);
    a < t.len() && t[a as int] == '{' && a + 1 < b && b <= t.len() && t[b - 1] == '}'
}

/// The text between the outer braces of an object-form text.
pub open spec fn object_inner(t: Seq<char>) -> Seq<char> {
    t.subrange(scan_ws(t, 0) as int + 1, scan_ws_back(t, t.len() as nat) as int - 1)
}

pub proof fn lemma_scan_ws(t: Seq<char>, i: nat)
    requires
        i <= t.len(),
    ensures
        i <= scan_ws(t, i) <= t.len(),
        scan_ws(t, i) < t.len() ==> !is_json_ws(t[scan_ws(t, i) as int]),
        forall|k: int| i <= k < scan_ws(t, i) ==> is_json_ws(t[k]),
    decreases t.len() - i,
{
    if i < t.len() && is_json_ws(t[i as int]) {
        lemma_scan_ws(t, i + 1);
    }
}

pub proof fn lemma_scan_ws_back(t: Seq<char>, i: nat)
    requires
        i <= t.len(),
    ensures
        scan_ws_back(t, i) <= i,
        scan_ws_back(t, i) > 0 ==> !is_json_ws(t[scan_ws_back(t, i) - 1]),
        forall|k: int| scan_ws_back(t, i) <= k < i ==> is_json_ws(t[k]),
    decreases i,
{
    if i > 0 && is_json_ws(t[i - 1]) {
        lemma_scan_ws_back(t, (i - 1) as nat);
    }
}

/// A forward scan from the start reaches the end exactly when the whole
/// text is whitespace.
pub proof fn lemma_scan_ws_all(t: Seq<char>)
    ensures
        scan_ws(t, 0) == t.len() <==> all_json_ws(t),
{
    lemma_scan_ws(t, 0);
}

/// The index of the first non-whitespace character of `s`, or its length.
pub(crate) fn find_trim_start(s: &str) -> (r: usize)
    ensures
        r as nat == scan_ws(s@, 0),
{
    let n: usize = s.unicode_len();
    let mut i: usize = 0;
    loop
        invariant
            i <= n,
            n as nat == s@.len(),
            scan_ws(s@, 0) == scan_ws(s@, i as nat),
        decreases n - i,
    {
        if i >= n {
            return i;
        }
        let c: char = s.get_char(i);
        if !(c == ' ' || c == '\t' || c == '\n' || c == '\r') {
            return i;
        }
        proof {
            assert(scan_ws(s@, i as nat) == scan_ws(s@, i as nat + 1));
        }
        i = i + 1;
    }
}

/// One past the index of the last non-whitespace character of `s`, or zero.
pub(crate) fn find_trim_end(s: &str) -> (r: usize)
    ensures
        r as nat == scan_ws_back(s@, s@.len() as nat),
{
    let n: usize = s.unicode_len();
    let mut i: usize = n;
    loop
        invariant
            i <= n,
            n as nat == s@.len(),
            scan_ws_back(s@, n as nat) == scan_ws_back(s@, i as nat),
        decreases i,
    {
        if i == 0 {
            return 0;
        }
        let c: char = s.get_char(i - 1);
        if !(c == ' ' || c == '\t' || c == '\n' || c == '\r') {
            return i;
        }
        proof {
            assert(scan_ws_back(s@, i as nat) == scan_ws_back(s@, (i - 1) as nat));
        }
        i = i - 1;
    }
}

/// The hexadecimal digit character for a value below sixteen.
pub open spec fn spec_hex_digit(n: int) -> char {
    if n == 0 { '0' }
    else if n == 1 { '1' }
    else if n == 2 { '2' }
    else if n == 3 { '3' }
    else if n == 4 { '4' }
    else if n == 5 { '5' }
    else if n == 6 { '6' }
    else if n == 7 { '7' }
    else if n == 8 { '8' }
    else if n == 9 { '9' }
    else if n == 10 { 'a' }
    else if n == 11 { 'b' }
    else if n == 12 { 'c' }
    else if n == 13 { 'd' }
    else if n == 14 { 'e' }
    else { 'f' }
}

/// How one character appears inside a JSON string literal: quote and
/// backslash are escaped, control characters take their short escape or a
/// `\u00XX` escape, and every other character stands for itself.
pub open spec fn spec_quoted_char(c: char) -> Seq<char> {
    if c == '"' { seq!['\\', '"'] }
    else if c == '\\' { seq!['\\', '\\'] }
    else if c == '\u{0008}' { seq!['\\', 'b'] }
    else if c == '\t' { seq!['\\', 't'] }
    else if c == '\n' { seq!['\\', 'n'] }
    else if c == '\u{000C}' { seq!['\\', 'f'] }
    else if c == '\r' { seq!['\\', 'r'] }
    else if (c as u32) < 32 {
        seq!['\\', 'u', '0', '0', spec_hex_digit(c as u32 as int / 16), spec_hex_digit(c as u32 as int % 16)]
    } else {
        seq![c]
    }
}

/// The body of the JSON string literal that spells the text `t`.
pub open spec fn spec_quote_body(t: Seq<char>) -> Seq<char>
    decreases t.len(),
{
    if t.len() == 0 {
        Seq::empty()
    } else {
        spec_quote_body(t.drop_last()) + spec_quoted_char(t.last())
    }
}

/// The JSON string literal that spells the text `t`, quotes included.
pub open spec fn spec_quote(t: Seq<char>) -> Seq<char> {
    seq!['"'] + spec_quote_body(t) + seq!['"']
}

fn hex_digit(d: u32) -> (c: char)
    requires
        d < 16,
    ensures
        c == spec_hex_digit(d as int),
{
    if d == 0 { '0' }
    else if d == 1 { '1' }
    else if d == 2 { '2' }
    else if d == 3 { '3' }
    else if d == 4 { '4' }
    else if d == 5 { '5' }
    else if d == 6 { '6' }
    else if d == 7 { '7' }
    else if d == 8 { '8' }
    else if d == 9 { '9' }
    else if d == 10 { 'a' }
    else if d == 11 { 'b' }
    else if d == 12 { 'c' }
    else if d == 13 { 'd' }
    else if d == 14 { 'e' }
    else { 'f' }
}

fn push_quoted_char(out: &mut String, c: char)
    ensures
        final(out)@ == old(out)@ + spec_quoted_char(c),
{
    if c == '"' {
        push_char(out, '\\');
        push_char(out, '"');
    } else if c == '\\' {
        push_char(out, '\\');
        push_char(out, '\\');
    } else if c == '\u{0008}' {
        push_char(out, '\\');
        push_char(out, 'b');
    } else if c == '\t' {
        push_char(out, '\\');
        push_char(out, 't');
    } else if c == '\n' {
        push_char(out, '\\');
        push_char(out, 'n');
    } else if c == '\u{000C}' {
        push_char(out, '\\');
        push_char(out, 'f');
    } else if c == '\r' {
        push_char(out, '\\');
        push_char(out, 'r');
    } else if (c as u32) < 32 {
        let code: u32 = c as u32;
        push_char(out, '\\');
        push_char(out, 'u');
        push_char(out, '0');
        push_char(out, '0');
        push_char(out, hex_digit(code / 16));
        push_char(out, hex_digit(code % 16));
    } else {
        push_char(out, c);
    }
    proof {
        assert(final(out)@ =~= old(out)@ + spec_quoted_char(c));
    }
}

/// Appends to `out` the JSON string literal that spells `s`.
pub(crate) fn append_quoted(out: &mut String, s: &str)
    ensures
        final(out)@ == old(out)@ + spec_quote(s@),
{
    push_char(out, '"');
    let n: usize = s.unicode_len();
    let mut i: usize = 0;
    while i < n
        invariant
            i <= n,
            n as nat == s@.len(),
            out@ == old(out)@ + seq!['"'] + spec_quote_body(s@.subrange(0, i as int)),
        decreases n - i,
    {
        let c: char = s.get_char(i);
        push_quoted_char(out, c);
        proof {
            let pre = s@.subrange(0, i as int);
            let post = s@.subrange(0, i as int + 1);
            assert(post.drop_last() =~= pre);
            assert(post.last() == c);
        }
        i = i + 1;
    }
    push_char(out, '"');
    proof {
        assert(s@.subrange(0, s@.len() as int) =~= s@);
        assert(final(out)@ =~= old(out)@ + spec_quote(s@));
    }
}

} // verus!
