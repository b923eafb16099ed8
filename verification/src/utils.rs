use vstd::prelude::*;
use vstd::string::StrSliceExecFns;

use crate::errors::AuthError;
use crate::hashes::{ripemd160, ripemd160_of, sha256, sha256_of};

verus! {

/// The base32 data characters that the bech32 encoder emits for a byte
/// sequence (its bits regrouped five at a time): a function of the bytes
/// alone, independent of the address prefix.
pub uninterp spec fn bech32_payload_of(data: Seq<u8>) -> Seq<char>;

/// The six checksum characters the bech32 encoder appends, computed over
/// both the prefix and the data bytes.
pub uninterp spec fn bech32_checksum_of(hrp: Seq<char>, data: Seq<u8>) -> Seq<char>;

/// A human-readable prefix the bech32 encoder accepts and writes verbatim:
/// one to 83 characters in the ASCII range 33 to 126, none of them
/// upper-case letters.
pub open spec fn valid_hrp(h: Seq<char>) -> bool {
    &&& 1 <= h.len() <= 83
    &&& forall|i: int|
        0 <= i < h.len() ==> 33 <= (#[trigger] h[i]) as int <= 126 && !('A' <= h[i] && h[i]
            <= 'Z')
}

/// Whether a prefix is one the encoder accepts and writes verbatim.
pub fn is_valid_hrp(h: &str) -> (r: bool)
    ensures
        r == valid_hrp(h@),
{
    let n = h.unicode_len();
    if n < 1 || n > 83 {
        return false;
    }
    let mut i: usize = 0;
    while i < n
        invariant
            n == h@.len(),
            i <= n,
            forall|j: int|
                0 <= j < i ==> 33 <= (#[trigger] h@[j]) as int <= 126 && !('A' <= h@[j] && h@[j]
                    <= 'Z'),
        decreases n - i,
    {
        let c = h.get_char(i);
        if (c as u32) < 33 || (c as u32) > 126 || ('A' <= c && c <= 'Z') {
            return false;
        }
        i = i + 1;
    }
    true
}

/// A full bech32 string: prefix, the separator `1`, the data characters,
/// and the checksum.
pub open spec fn bech32_of(hrp: Seq<char>, data: Seq<u8>) -> Seq<char> {
    hrp + seq!['1'] + bech32_payload_of(data) + bech32_checksum_of(hrp, data)
}

/// Relies on bech32::Hrp::parse and bech32::encode with the Bech32
/// checksum. Parse accepts one to 83 characters in the ASCII range 33 to
/// 126 without mixed case, so on a prefix free of upper-case letters it
/// accepts exactly when `valid_hrp` holds, and encode then writes the
/// prefix unchanged, the separator `1`, the base32 data characters (eight
/// input bits regrouped five at a time, rounded up), and a six-character
/// checksum; encode fails only when the whole string would exceed 1023
/// characters.
#[verifier::external_body]
pub fn bech32_encode(hrp: &str, data: &[u8]) -> (r: Result<String, ()>)
    requires
        valid_hrp(hrp@),
    ensures
        r is Ok <==> hrp@.len() + 7 + (data@.len() * 8 + 4) / 5 <= 1023,
        r matches Ok(s) ==> s@ == hrp@ + seq!['1'] + bech32_payload_of(data@)
            + bech32_checksum_of(hrp@, data@),
        r matches Ok(s) ==> s@.len() == hrp@.len() + 7 + bech32_payload_of(data@).len(),
{
    let parsed = bech32::Hrp::parse(hrp).map_err(|_| ())?;
    bech32::encode::<bech32::Bech32>(parsed, data).map_err(|_| ())
}

/// The leading characters of an address up to, and not including, its
/// first `1` separator; the whole address when no separator occurs.
pub open spec fn prefix_before_separator(s: Seq<char>) -> Seq<char>
    decreases s.len(),
{
    if s.len() == 0 {
        Seq::empty()
    } else if s[0] == '1' {
        Seq::empty()
    } else {
        seq![s[0]] + prefix_before_separator(s.skip(1))
    }
}

proof fn lemma_prefix_before_separator(s: Seq<char>, i: int)
    requires
        0 <= i <= s.len(),
        forall|j: int| 0 <= j < i ==> s[j] != '1',
        i == s.len() || s[i] == '1',
    ensures
        prefix_before_separator(s) == s.subrange(0, i),
    decreases i,
{
    if i == 0 {
        assert(prefix_before_separator(s) =~= s.subrange(0, 0));
    } else {
        lemma_prefix_before_separator(s.skip(1), i - 1);
        assert(s.skip(1).subrange(0, i - 1) =~= s.subrange(1, i));
        assert(prefix_before_separator(s) =~= s.subrange(0, i));
    }
}

/// The chain prefix of a bech32 address: everything before the first `1`
/// separator.
pub fn prefix_from_address(address: &str) -> (r: String)
    ensures
        r@ == prefix_before_separator(address@),
{
    let n = address.unicode_len();
    let mut i: usize = 0;
    while i < n && address.get_char(i) != '1'
        invariant
            n == address@.len(),
            i <= n,
            forall|j: int| 0 <= j < i ==> address@[j] != '1',
        decreases n - i,
    {
        i = i + 1;
    }
    proof {
        lemma_prefix_before_separator(address@, i as int);
    }
    let prefix = address.substring_char(0, i);
    prefix.to_owned()
}

/// The canonical binary address derived from a public key:
/// ripemd160(sha256(pubkey)).
pub open spec fn canonical_of(pubkey: Seq<u8>) -> Seq<u8> {
    ripemd160_of(sha256_of(pubkey))
}

/// The chain-native textual address derived from a public key: its
/// canonical binary form, bech32-encoded under the given prefix.
pub open spec fn address_of(pubkey: Seq<u8>, hrp: Seq<char>) -> Seq<char> {
    bech32_of(hrp, canonical_of(pubkey))
}

/// Derive the textual chain address of a public key: hash it with SHA-256
/// then RIPEMD-160 and bech32-encode the result under the given prefix.
/// Succeeds exactly when the prefix is one the bech32 encoder accepts.
pub fn pubkey_to_address(pubkey: &[u8], hrp: &str) -> (r: Result<String, AuthError>)
    ensures
        r is Ok <==> valid_hrp(hrp@),
        r matches Ok(s) ==> s@ == address_of(pubkey@, hrp@),
        r matches Err(e) ==> e is Generic,
{
    if !is_valid_hrp(hrp) {
        return Err(AuthError::Generic("the address prefix is not acceptable".to_string()));
    }
    let hashed = sha256(pubkey);
    let canonical = ripemd160(hashed.as_slice());
    assert(canonical@.len() == 20);
    match bech32_encode(hrp, canonical.as_slice()) {
        Ok(s) => Ok(s),
        Err(_) => Err(AuthError::Generic("could not encode the address prefix".to_string())),
    }
}

/// Derive the canonical binary address of a public key:
/// ripemd160(sha256(pubkey)), left for the host to humanize.
pub fn pubkey_to_canonical(pubkey: &[u8]) -> (r: Vec<u8>)
    ensures
        r@ == canonical_of(pubkey@),
        r@.len() == 20,
{
    let hashed = sha256(pubkey);
    ripemd160(hashed.as_slice())
}

/// Address derivation is deterministic: two derivations from the same
/// public key and the same prefix yield the same address, character for
/// character.
pub proof fn lemma_address_deterministic(a1: Seq<char>, a2: Seq<char>, pk: Seq<u8>, hrp: Seq<char>)
    requires
        a1 == address_of(pk, hrp),
        a2 == address_of(pk, hrp),
    ensures
        a1 == a2,
{
}

/// Changing the prefix changes only the written prefix and the trailing
/// checksum of a derived address: the base32 payload in the middle depends
/// on the public key alone.
pub proof fn lemma_address_payload_independent_of_hrp(pk: Seq<u8>, h1: Seq<char>, h2: Seq<char>)
    ensures
        address_of(pk, h1) == h1 + seq!['1'] + bech32_payload_of(canonical_of(pk))
            + bech32_checksum_of(h1, canonical_of(pk)),
        address_of(pk, h2) == h2 + seq!['1'] + bech32_payload_of(canonical_of(pk))
            + bech32_checksum_of(h2, canonical_of(pk)),
{
}

} // verus!
