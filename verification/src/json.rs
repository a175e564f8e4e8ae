//! Base layer of the snapshot serializer: decimal numbers, booleans and
//! escaped strings, written into a growing buffer.
//!
//! Every writer appends exactly the text that its specification function
//! describes, so the whole serialized snapshot is pinned down, character by
//! character, by the composition of these specifications: equal snapshots
//! serialize to equal text.

use vstd::prelude::*;
use vstd::string::StrSliceExecFns;
use vstd::string::StringExecFns;

verus! {

broadcast use vstd::std_specs::vec::group_vec_axioms;

/// One decimal digit.
pub open spec fn dec_digit(d: u128) -> Seq<char> {
    if d == 0 {
        "0"@
    } else if d == 1 {
        "1"@
    } else if d == 2 {
        "2"@
    } else if d == 3 {
        "3"@
    } else if d == 4 {
        "4"@
    } else if d == 5 {
        "5"@
    } else if d == 6 {
        "6"@
    } else if d == 7 {
        "7"@
    } else if d == 8 {
        "8"@
    } else {
        "9"@
    }
}

/// The decimal writing of an unsigned number.
pub open spec fn dec_u128(n: u128) -> Seq<char>
    decreases n,
{
    if n < 10 {
        dec_digit(n)
    } else {
        dec_u128(n / 10) + dec_digit(n % 10)
    }
}

/// The decimal writing of a signed number: a minus sign for negative
/// values, then the absolute value.
pub open spec fn dec_i128(n: i128) -> Seq<char> {
    if n >= 0 {
        dec_u128(n as u128)
    } else {
        "-"@ + dec_u128(((-(n + 1)) as u128 + 1) as u128)
    }
}

/// The JSON writing of a boolean.
pub open spec fn json_bool(b: bool) -> Seq<char> {
    if b {
        "true"@
    } else {
        "false"@
    }
}

/// One hexadecimal digit.
pub open spec fn hex_digit(d: u32) -> Seq<char> {
    if d == 0 {
        "0"@
    } else if d == 1 {
        "1"@
    } else if d == 2 {
        "2"@
    } else if d == 3 {
        "3"@
    } else if d == 4 {
        "4"@
    } else if d == 5 {
        "5"@
    } else if d == 6 {
        "6"@
    } else if d == 7 {
        "7"@
    } else if d == 8 {
        "8"@
    } else if d == 9 {
        "9"@
    } else if d == 10 {
        "a"@
    } else if d == 11 {
        "b"@
    } else if d == 12 {
        "c"@
    } else if d == 13 {
        "d"@
    } else {
        if d == 14 {
            "e"@
        } else {
            "f"@
        }
    }
}

/// The escaping of one character inside a JSON string: quote, backslash
/// and control characters are escaped, everything else stands for itself.
pub open spec fn esc_char(c: char) -> Seq<char> {
    if c == '"' {
        "\\\""@
    } else if c == '\\' {
        "\\\\"@
    } else if c == '\n' {
        "\\n"@
    } else if c == '\r' {
        "\\r"@
    } else if c == '\t' {
        "\\t"@
    } else if (c as u32) < 32 {
        "\\u00"@ + hex_digit((c as u32) / 16) + hex_digit((c as u32) % 16)
    } else {
        seq![c]
    }
}

/// The escaping of a whole string body.
pub open spec fn esc(s: Seq<char>) -> Seq<char>
    decreases s.len(),
{
    if s.len() == 0 {
        Seq::empty()
    } else {
        esc(s.drop_last()) + esc_char(s.last())
    }
}

/// The JSON writing of a string: quoted and escaped.
pub open spec fn json_string(s: Seq<char>) -> Seq<char> {
    "\""@ + esc(s) + "\""@
}

/// Append one decimal digit.
fn write_dec_digit(out: &mut String, d: u128)
    requires
        d < 10,
    ensures
        final(out)@ == old(out)@ + dec_digit(d),
{
    if d == 0 {
        out.append("0");
    } else if d == 1 {
        out.append("1");
    } else if d == 2 {
        out.append("2");
    } else if d == 3 {
        out.append("3");
    } else if d == 4 {
        out.append("4");
    } else if d == 5 {
        out.append("5");
    } else if d == 6 {
        out.append("6");
    } else if d == 7 {
        out.append("7");
    } else if d == 8 {
        out.append("8");
    } else {
        out.append("9");
    }
}

/// Append an unsigned number in decimal.
pub fn write_u128(out: &mut String, n: u128)
    ensures
        final(out)@ == old(out)@ + dec_u128(n),
    decreases n,
{
    if n < 10 {
        write_dec_digit(out, n);
    } else {
        write_u128(out, n / 10);
        write_dec_digit(out, n % 10);
        proof {
            assert(out@ =~= old(out)@ + dec_u128(n));
        }
    }
}

/// Append an index in decimal.
pub fn write_usize(out: &mut String, n: usize)
    ensures
        final(out)@ == old(out)@ + dec_u128(n as u128),
{
    write_u128(out, n as u128);
}

/// Append a signed number in decimal.
pub fn write_i128(out: &mut String, n: i128)
    ensures
        final(out)@ == old(out)@ + dec_i128(n),
{
    if n >= 0 {
        write_u128(out, n as u128);
    } else {
        out.append("-");
        let m: u128 = ((-(n + 1)) as u128) + 1;
        write_u128(out, m);
        proof {
            assert(out@ =~= old(out)@ + dec_i128(n));
        }
    }
}

/// Append a boolean.
pub fn write_bool(out: &mut String, b: bool)
    ensures
        final(out)@ == old(out)@ + json_bool(b),
{
    if b {
        out.append("true");
    } else {
        out.append("false");
    }
}

/// Append one hexadecimal digit.
fn write_hex_digit(out: &mut String, d: u32)
    requires
        d < 16,
    ensures
        final(out)@ == old(out)@ + hex_digit(d),
{
    if d == 0 {
        out.append("0");
    } else if d == 1 {
        out.append("1");
    } else if d == 2 {
        out.append("2");
    } else if d == 3 {
        out.append("3");
    } else if d == 4 {
        out.append("4");
    } else if d == 5 {
        out.append("5");
    } else if d == 6 {
        out.append("6");
    } else if d == 7 {
        out.append("7");
    } else if d == 8 {
        out.append("8");
    } else if d == 9 {
        out.append("9");
    } else if d == 10 {
        out.append("a");
    } else if d == 11 {
        out.append("b");
    } else if d == 12 {
        out.append("c");
    } else if d == 13 {
        out.append("d");
    } else if d == 14 {
        out.append("e");
    } else {
        out.append("f");
    }
}

/// Append a string value: quoted, with quote, backslash and control
/// characters escaped.
#[verifier::loop_isolation(false)]
pub fn write_str_value(out: &mut String, s: &str)
    ensures
        final(out)@ == old(out)@ + json_string(s@),
{
    out.append("\"");
    let n = s.unicode_len();
    let mut i: usize = 0;
    proof {
        assert(esc(s@.take(0)) =~= Seq::<char>::empty());
    }
    while i < n
        invariant
            i <= s@.len(),
            n == s@.len(),
            out@ == old(out)@ + "\""@ + esc(s@.take(i as int)),
        decreases n - i,
    {
        let c = s.get_char(i);
        proof {
            assert(s@.take(i + 1 as int).drop_last() =~= s@.take(i as int));
            assert(s@.take(i + 1 as int).last() == s@[i as int]);
        }
        if c == '"' {
            out.append("\\\"");
        } else if c == '\\' {
            out.append("\\\\");
        } else if c == '\n' {
            out.append("\\n");
        } else if c == '\r' {
            out.append("\\r");
        } else if c == '\t' {
            out.append("\\t");
        } else if (c as u32) < 32 {
            out.append("\\u00");
            write_hex_digit(out, (c as u32) / 16);
            write_hex_digit(out, (c as u32) % 16);
        } else {
            let piece = s.substring_char(i, i + 1);
            proof {
                assert(s@.subrange(i as int, i + 1 as int) =~= seq![s@[i as int]]);
            }
            out.append(piece);
        }
        proof {
            assert(out@ =~= old(out)@ + "\""@ + esc(s@.take(i + 1 as int)));
        }
        i += 1;
    }
    proof {
        assert(s@.take(s@.len() as int) =~= s@);
    }
    out.append("\"");
    proof {
        assert(out@ =~= old(out)@ + json_string(s@));
    }
}

/// Append an owned string value.
pub fn write_string(out: &mut String, s: &String)
    ensures
        final(out)@ == old(out)@ + json_string(s@),
{
    write_str_value(out, s.as_str());
}

} // verus!
