//! Serializing a record into its one-line JSON form.

use vstd::prelude::*;
use vstd::string::*;
use crate::json::{
    all_json_ws, find_trim_end, find_trim_start, lemma_scan_ws, lemma_scan_ws_all,
    lemma_scan_ws_back, object_form, object_inner, push_char, scan_ws, scan_ws_back,
};
use crate::level::spec_level_name;
use crate::record::NomadLog;

verus! {

/// The decimal digit character for a value below ten.
pub open spec fn spec_digit_char(n: int) -> char {
    if n == 0 { '0' }
    else if n == 1 { '1' }
    else if n == 2 { '2' }
    else if n == 3 { '3' }
    else if n == 4 { '4' }
    else if n == 5 { '5' }
    else if n == 6 { '6' }
    else if n == 7 { '7' }
    else if n == 8 { '8' }
    else { '9' }
}

/// The decimal spelling of a natural number, without sign or padding.
pub open spec fn spec_dec_nat(n: nat) -> Seq<char>
    decreases n,
{
    if n < 10 {
        seq![spec_digit_char(n as int)]
    } else {
        spec_dec_nat(n / 10) + seq![spec_digit_char((n % 10) as int)]
    }
}

/// The decimal spelling of a signed number: a minus sign before the
/// spelling of the magnitude when negative.
pub open spec fn spec_dec_i64(n: int) -> Seq<char> {
    if n >= 0 {
        spec_dec_nat(n as nat)
    } else {
        seq!['-'] + spec_dec_nat((-n) as nat)
    }
}

fn digit_char(d: u64) -> (c: char)
    requires
        d < 10,
    ensures
        c == spec_digit_char(d as int),
{
    if d == 0 { '0' }
    else if d == 1 { '1' }
    else if d == 2 { '2' }
    else if d == 3 { '3' }
    else if d == 4 { '4' }
    else if d == 5 { '5' }
    else if d == 6 { '6' }
    else if d == 7 { '7' }
    else if d == 8 { '8' }
    else { '9' }
}

fn push_dec_u64(out: &mut String, n: u64)
    ensures
        final(out)@ == old(out)@ + spec_dec_nat(n as nat),
    decreases n,
{
    if n < 10 {
        push_char(out, digit_char(n));
        proof {
            assert(final(out)@ =~= old(out)@ + spec_dec_nat(n as nat));
        }
    } else {
        push_dec_u64(out, n / 10);
        push_char(out, digit_char(n % 10));
        proof {
            assert(final(out)@ =~= old(out)@ + spec_dec_nat(n as nat));
        }
    }
}

/// Appends the decimal spelling of `n` to `out`.
pub(crate) fn push_dec_i64(out: &mut String, n: i64)
    ensures
        final(out)@ == old(out)@ + spec_dec_i64(n as int),
{
    if n >= 0 {
        push_dec_u64(out, n as u64);
    } else {
        push_char(out, '-');
        let magnitude: u64 = ((-(n + 1)) as u64) + 1;
        assert(magnitude as nat == (-(n as int)) as nat);
        push_dec_u64(out, magnitude);
        proof {
            assert(final(out)@ =~= old(out)@ + spec_dec_i64(n as int));
        }
    }
}

/// What follows the `log_level` field in an emitted line: the fields of an
/// object payload, spliced into the record's own object (nothing for an
/// empty object), or the payload nested under a `data` key otherwise.
pub open spec fn spec_record_tail(data: Seq<char>) -> Seq<char> {
    if object_form(data) {
        if all_json_ws(object_inner(data)) {
            Seq::empty()
        } else {
            seq![','] + object_inner(data)
        }
    } else {
        ",\"data\":"@ + data
    }
}

/// The one-line JSON form of a record: a single object holding the
/// timestamp, the level's canonical name, and the payload.
pub open spec fn spec_line(rec: NomadLog) -> Seq<char> {
    "{\"timestamp\":"@ + spec_dec_i64(rec.timestamp as int) + ",\"log_level\":\""@
        + spec_level_name(rec.log_level) + "\""@ + spec_record_tail(rec.data@) + "}"@
}

/// Serializes a record to its one-line JSON form.
pub fn render_line(rec: &NomadLog) -> (r: String)
    ensures
        r@ == spec_line(*rec),
{
    let ghost prefix: Seq<char> = "{\"timestamp\":"@ + spec_dec_i64(rec.timestamp as int)
        + ",\"log_level\":\""@ + spec_level_name(rec.log_level) + "\""@;
    let mut out: String = String::new();
    out.append("{\"timestamp\":");
    push_dec_i64(&mut out, rec.timestamp);
    out.append(",\"log_level\":\"");
    out.append(rec.log_level.name());
    out.append("\"");
    proof {
        assert(out@ =~= prefix);
    }

    let data: &str = rec.data.as_str();
    let n: usize = data.unicode_len();
    let a: usize = find_trim_start(data);
    let b: usize = find_trim_end(data);
    proof {
        lemma_scan_ws(data@, 0);
        lemma_scan_ws_back(data@, data@.len() as nat);
    }
    let is_object: bool = a < n && b >= a && b - a >= 2 && data.get_char(a) == '{'
        && data.get_char(b - 1) == '}';
    proof {
        assert(is_object == object_form(data@));
    }
    if is_object {
        let inner: &str = data.substring_char(a + 1, b - 1);
        proof {
            assert(inner@ =~= object_inner(data@));
        }
        let inner_n: usize = inner.unicode_len();
        let inner_start: usize = find_trim_start(inner);
        proof {
            lemma_scan_ws(inner@, 0);
            lemma_scan_ws_all(inner@);
            assert((inner_start < inner_n) == !all_json_ws(inner@));
        }
        if inner_start < inner_n {
            out.append(",");
            out.append(inner);
            proof {
                reveal_strlit(",");
                assert(","@ =~= seq![',']);
                assert(out@ =~= prefix + seq![','] + object_inner(rec.data@));
            }
        }
        proof {
            assert(out@ =~= prefix + spec_record_tail(rec.data@));
        }
    } else {
        out.append(",\"data\":");
        out.append(data);
        proof {
            assert(out@ =~= prefix + spec_record_tail(rec.data@));
        }
    }
    out.append("}");
    proof {
        assert(out@ =~= spec_line(*rec));
    }
    out
}

} // verus!
