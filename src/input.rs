//! Checking identifiers that a user types in decimal.
use vstd::prelude::*;
use vstd::string::StringSliceAdditionalSpecFns;
use vstd::utf8::encode_utf8;

verus! {

/// Whether a byte is an ASCII decimal digit.
pub open spec fn is_digit(b: u8) -> bool {
    48 <= b <= 57
}

/// The number written by a sequence of ASCII decimal digits.
pub open spec fn decimal_value(s: Seq<u8>) -> nat
    decreases s.len(),
{
    if s.len() == 0 {
        0
    } else {
        decimal_value(s.drop_last()) * 10 + (s.last() - 48) as nat
    }
}

/// The digits of a decimal input: everything after an optional leading `+`.
pub open spec fn id_digits(s: Seq<u8>) -> Seq<u8> {
    if s.len() > 0 && s[0] == 43 {
        s.skip(1)
    } else {
        s
    }
}

/// The `u32` that the bytes `s` write in decimal: an optional `+`, then at least
/// one digit and nothing else, the value not above `u32::MAX`.
pub open spec fn spec_parse_id(s: Seq<u8>) -> Option<u32> {
    let d = id_digits(s);
    if d.len() > 0 && (forall|i: int| 0 <= i < d.len() ==> is_digit(#[trigger] d[i]))
        && decimal_value(d) <= u32::MAX {
        Some(decimal_value(d) as u32)
    } else {
        None
    }
}

/// A prefix of a digit sequence writes no greater number than the whole.
proof fn lemma_decimal_value_prefix(s: Seq<u8>, k: int)
    requires
        0 <= k <= s.len(),
        forall|i: int| 0 <= i < s.len() ==> is_digit(#[trigger] s[i]),
    ensures
        decimal_value(s.subrange(0, k)) <= decimal_value(s),
    decreases s.len(),
{
    if k < s.len() {
        let t = s.drop_last();
        assert(forall|i: int| 0 <= i < t.len() ==> is_digit(#[trigger] t[i])) by {
            assert(forall|i: int| 0 <= i < t.len() ==> t[i] == s[i]);
        }
        lemma_decimal_value_prefix(t, k);
        assert(t.subrange(0, k) =~= s.subrange(0, k));
    } else {
        assert(s.subrange(0, k) =~= s);
    }
}

/// Parses a decimal `u32` identifier.
pub fn parse_id(s: &str) -> (r: Option<u32>)
    ensures
        r == spec_parse_id(s.spec_bytes()),
{
    let bytes = s.as_bytes();
    let n = bytes.len();
    let mut i: usize = 0;
    if n > 0 && bytes[0] == 43u8 {
        i = 1;
    }
    let start = i;
    let ghost d = id_digits(bytes@);
    proof {
        assert(d =~= bytes@.subrange(start as int, n as int));
    }
    if i == n {
        return None;
    }
    let mut value: u32 = 0;
    while i < n
        invariant
            start <= i <= n,
            n == bytes@.len(),
            bytes@ == s.spec_bytes(),
            d == id_digits(bytes@),
            d == bytes@.subrange(start as int, n as int),
            forall|k: int| start <= k < i ==> is_digit(#[trigger] bytes@[k]),
            value as nat == decimal_value(bytes@.subrange(start as int, i as int)),
        decreases n - i,
    {
        let b = bytes[i];
        if b < 48u8 || b > 57u8 {
            proof {
                assert(!is_digit(d[i - start]));
            }
            return None;
        }
        proof {
            assert(bytes@.subrange(start as int, i + 1).drop_last() =~= bytes@.subrange(
                start as int,
                i as int,
            ));
        }
        let next: u64 = value as u64 * 10 + (b - 48u8) as u64;
        if next > 4294967295u64 {
            proof {
                if forall|k: int| 0 <= k < d.len() ==> is_digit(#[trigger] d[k]) {
                    lemma_decimal_value_prefix(d, i + 1 - start);
                    assert(d.subrange(0, i + 1 - start) =~= bytes@.subrange(start as int, i + 1));
                }
            }
            return None;
        }
        value = next as u32;
        i = i + 1;
    }
    proof {
        assert(bytes@.subrange(start as int, i as int) =~= d);
        assert(forall|k: int| 0 <= k < d.len() ==> is_digit(#[trigger] d[k])) by {
            assert(forall|k: int| 0 <= k < d.len() ==> d[k] == bytes@[k + start]);
        }
    }
    Some(value)
}

/// Relies on `String::push_str`: appends the characters of `t` to `s`.
#[verifier::external_body]
fn push_str(s: &mut String, t: &str)
    ensures
        final(s)@ == old(s)@ + t@,
{
    s.push_str(t)
}

/// Accepts a decimal `u32` identifier; otherwise the error says which input was refused.
pub fn is_valid_id(string: String) -> (r: Result<(), String>)
    ensures
        r is Ok <==> spec_parse_id(encode_utf8(string@)) is Some,
        r matches Err(m) ==> m@ == "Invalid id "@ + string@,
{
    match parse_id(string.as_str()) {
        Some(_) => Ok(()),
        None => {
            let mut message = "Invalid id ".to_owned();
            push_str(&mut message, string.as_str());
            Err(message)
        },
    }
}

} // verus!
