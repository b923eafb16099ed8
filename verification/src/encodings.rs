use base64::Engine;
use vstd::prelude::*;
use vstd::string::StrSliceExecFns;

verus! {

/// The error type of the base64 decoder, opaque to the core.
#[verifier::external_type_specification]
#[verifier::external_body]
pub struct ExDecodeError(base64::DecodeError);

/// The standard base64 encoding (with padding) of a byte sequence, as the
/// `base64` crate's STANDARD engine computes it: a function of the input
/// bytes alone.
pub uninterp spec fn base64_of(data: Seq<u8>) -> Seq<char>;

/// Relies on base64::engine::general_purpose::STANDARD.encode: four output
/// characters for every three input bytes, rounded up, all of them ASCII.
#[verifier::external_body]
pub fn to_base64(data: &[u8]) -> (r: String)
    ensures
        r@ == base64_of(data@),
        r@.len() == ((data@.len() + 2) / 3) * 4,
        forall|i: int| 0 <= i < r@.len() ==> (r@[i] as nat) < 128,
{
    base64::engine::general_purpose::STANDARD.encode(data)
}

/// Relies on base64::engine::general_purpose::STANDARD.decode: it accepts
/// exactly the canonical padded encodings, so a success returns the one
/// byte sequence that encodes to the input, and a failure means no byte
/// sequence does.
#[verifier::external_body]
pub fn from_base64(s: &str) -> (r: Result<Vec<u8>, base64::DecodeError>)
    ensures
        r matches Ok(b) ==> s@ == base64_of(b@),
        r matches Ok(b) ==> forall|b2: Seq<u8>| base64_of(b2) == s@ ==> b2 == b@,
        r is Err ==> forall|b: Seq<u8>| s@ != base64_of(b),
{
    base64::engine::general_purpose::STANDARD.decode(s)
}

/// Relies on String::from_utf8: a success returns the string whose UTF-8
/// encoding is the input, and a failure means no string encodes to the
/// input.
#[verifier::external_body]
pub fn utf8_to_string(bytes: Vec<u8>) -> (r: Result<String, ()>)
    ensures
        (r matches Ok(s) ==> vstd::utf8::encode_utf8(s@) == bytes@),
        (r is Err ==> forall|cs: Seq<char>| vstd::utf8::encode_utf8(cs) != bytes@),
{
    String::from_utf8(bytes).map_err(|_| ())
}

/// Relies on String::push: it appends exactly the given character.
#[verifier::external_body]
pub fn push_char(s: &mut String, c: char)
    ensures
        final(s)@ == old(s)@.push(c),
{
    s.push(c);
}

/// One character of a base64url string mapped back to the standard base64
/// alphabet.
pub open spec fn url_char_to_std(c: char) -> char {
    if c == '-' {
        '+'
    } else if c == '_' {
        '/'
    } else {
        c
    }
}

/// A base64url string re-encoded as standard base64: every character mapped
/// back to the standard alphabet, then padded with `=` to a multiple of
/// four characters.
pub open spec fn url_to_base64_spec(s: Seq<char>) -> Seq<char> {
    s.map_values(|c: char| url_char_to_std(c)) + pad_chars(((4 - s.len() as int % 4) % 4) as nat)
}

/// A run of `=` padding characters.
pub open spec fn pad_chars(n: nat) -> Seq<char> {
    Seq::new(n, |i: int| '=')
}

/// Re-encode a base64url string (as a WebAuthn challenge is transported) as
/// standard padded base64.
pub fn url_to_base64(s: &str) -> (r: String)
    ensures
        r@ == url_to_base64_spec(s@),
{
    let n = s.unicode_len();
    let mut out = String::new();
    proof {
        assert(out@ =~= s@.subrange(0, 0).map_values(|c: char| url_char_to_std(c)));
    }
    let mut i: usize = 0;
    while i < n
        invariant
            n == s@.len(),
            i <= n,
            out@ == s@.subrange(0, i as int).map_values(|c: char| url_char_to_std(c)),
        decreases n - i,
    {
        let c = s.get_char(i);
        let mapped = if c == '-' {
            '+'
        } else if c == '_' {
            '/'
        } else {
            c
        };
        push_char(&mut out, mapped);
        proof {
            assert(s@.subrange(0, i + 1).map_values(|ch: char| url_char_to_std(ch))
                =~= s@.subrange(0, i as int).map_values(|ch: char| url_char_to_std(ch)).push(
                url_char_to_std(s@[i as int])));
        }
        i = i + 1;
    }
    proof {
        assert(s@.subrange(0, n as int) =~= s@);
    }
    let rem = n % 4;
    if rem == 2 {
        push_char(&mut out, '=');
        push_char(&mut out, '=');
    } else if rem == 3 {
        push_char(&mut out, '=');
    } else if rem == 1 {
        push_char(&mut out, '=');
        push_char(&mut out, '=');
        push_char(&mut out, '=');
    }
    proof {
        let mapped = s@.map_values(|c: char| url_char_to_std(c));
        let padded = pad_chars(((4 - s@.len() as int % 4) % 4) as nat);
        assert(out@ =~= mapped + padded);
    }
    out
}

} // verus!
