use vstd::prelude::*;
use vstd::string::StrSliceExecFns;

use crate::errors::AuthError;
use crate::eth::dec_digits;
use crate::storage::CredentialStore;
use crate::types::ChainEnv;

verus! {

/// A digit byte.
pub open spec fn is_digit(b: u8) -> bool {
    48 <= b <= 57
}

/// A byte string free of the quote byte, so that it can stand verbatim
/// between quotes in the envelope.
pub open spec fn quote_free(s: Seq<u8>) -> bool {
    forall|i: int| 0 <= i < s.len() ==> (#[trigger] s[i]) != 34
}

/// The numeric value of a digit string, most significant digit first.
pub open spec fn digits_val(s: Seq<u8>) -> nat
    decreases s.len(),
{
    if s.len() == 0 {
        0
    } else {
        digits_val(s.drop_last()) * 10 + (s.last() - 48) as nat
    }
}

/// A canonical decimal rendering: at least one digit, digits only, and no
/// leading zero unless the number is zero itself.
pub open spec fn canonical_digits(s: Seq<u8>) -> bool {
    s.len() > 0 && (forall|i: int| 0 <= i < s.len() ==> is_digit(#[trigger] s[i])) && (s.len() == 1
        || s[0] != 48)
}

proof fn lemma_digits_val_positive(s: Seq<u8>)
    requires
        s.len() > 0,
        forall|i: int| 0 <= i < s.len() ==> is_digit(#[trigger] s[i]),
        s[0] != 48,
    ensures
        digits_val(s) >= 1,
    decreases s.len(),
{
    if s.len() == 1 {
    } else {
        lemma_digits_val_positive(s.drop_last());
    }
}

/// A canonical digit string is exactly what `dec_digits` renders of its
/// value.
proof fn lemma_canonical_digits_roundtrip(s: Seq<u8>)
    requires
        canonical_digits(s),
    ensures
        dec_digits(digits_val(s)) == s,
    decreases s.len(),
{
    if s.len() == 1 {
        assert(s.drop_last().len() == 0);
        assert(digits_val(s.drop_last()) == 0);
        assert(digits_val(s) == (s.last() - 48) as nat);
        assert(dec_digits(digits_val(s)) =~= s);
    } else {
        let butlast = s.drop_last();
        lemma_canonical_digits_roundtrip(butlast);
        lemma_digits_val_positive(butlast);
        assert(digits_val(s) == digits_val(butlast) * 10 + (s.last() - 48));
        assert(digits_val(s) / 10 == digits_val(butlast) && digits_val(s) % 10 == (s.last()
            - 48)) by (nonlinear_arith)
            requires
                digits_val(s) == digits_val(butlast) * 10 + (s.last() - 48),
                48 <= s.last() <= 57,
        ;
        assert(dec_digits(digits_val(s)) =~= s);
    }
}

/// `dec_digits` renders every number canonically, and the rendering is
/// faithful: its value is the number itself.
proof fn lemma_dec_digits_canonical(n: nat)
    ensures
        canonical_digits(dec_digits(n)),
        digits_val(dec_digits(n)) == n,
        dec_digits(n).len() >= 1,
    decreases n,
{
    if n < 10 {
        let dd = dec_digits(n);
        assert(dd =~= seq![(48 + n) as u8]);
        assert(dd.drop_last().len() == 0);
        assert(digits_val(dd.drop_last()) == 0);
    } else {
        lemma_dec_digits_canonical(n / 10);
        let dd = dec_digits(n);
        let head = dec_digits(n / 10);
        assert(dd == head + seq![(48 + n % 10) as u8]);
        assert(dd.drop_last() =~= head);
        assert(dd.last() == (48 + n % 10) as u8);
        assert(n / 10 >= 1);
        assert(head[0] != 48) by {
            if head.len() == 1 {
                assert(head.drop_last().len() == 0);
                assert(digits_val(head.drop_last()) == 0);
                assert(digits_val(head) == (head[0] - 48) as nat);
            }
        }
        assert(digits_val(dd) == (n / 10) * 10 + n % 10);
        assert((n / 10) * 10 + n % 10 == n) by (nonlinear_arith);
        assert forall|i: int| 0 <= i < dd.len() implies is_digit(dd[i]) by {
            if i < head.len() {
                assert(dd[i] == head[i]);
            }
        }
    }
}

/// The value of a digit string dominates the value of each of its
/// prefixes.
proof fn lemma_digits_val_prefix_le(s: Seq<u8>, k: int)
    requires
        0 <= k <= s.len(),
        forall|i: int| 0 <= i < s.len() ==> is_digit(#[trigger] s[i]),
    ensures
        digits_val(s.subrange(0, k)) <= digits_val(s),
    decreases s.len(),
{
    if k == s.len() {
        assert(s.subrange(0, k) =~= s);
    } else {
        let head = s.drop_last();
        assert(s.subrange(0, k) =~= head.subrange(0, k));
        lemma_digits_val_prefix_le(head, k);
        assert(digits_val(s) == digits_val(head) * 10 + (s.last() - 48) as nat);
        assert(digits_val(head) * 10 >= digits_val(head));
    }
}

/// Whether the canonical rendering of `nv` stands at `pos` in `b`,
/// followed by nothing that could extend it.
pub open spec fn digit_run_at(b: Seq<u8>, pos: int, nv: u64) -> bool {
    let dd = dec_digits(nv as nat);
    &&& 0 <= pos
    &&& pos + dd.len() <= b.len()
    &&& b.subrange(pos, pos + dd.len()) == dd
    &&& (pos + dd.len() == b.len() || !is_digit(b[pos + dd.len()]))
}

/// A maximal digit scan from `pos` ends exactly where a canonical run at
/// `pos` ends.
proof fn lemma_run_end(b: Seq<u8>, pos: int, i: int, nv: u64)
    requires
        digit_run_at(b, pos, nv),
        pos <= i <= b.len(),
        forall|j: int| pos <= j < i ==> is_digit(b[j]),
        i == b.len() || !is_digit(b[i]),
    ensures
        i == pos + dec_digits(nv as nat).len(),
{
    let dd = dec_digits(nv as nat);
    lemma_dec_digits_canonical(nv as nat);
    let e2 = pos + dd.len();
    assert forall|j: int| pos <= j < e2 implies is_digit(b[j]) by {
        assert(b[j] == b.subrange(pos, e2)[j - pos]);
    }
    if i < e2 {
        assert(is_digit(b[i]));
    }
    if i > e2 {
        assert(is_digit(b[e2]));
    }
}

/// At one position only one number's canonical run can stand.
proof fn lemma_digit_run_unique(b: Seq<u8>, pos: int, v1: u64, v2: u64)
    requires
        digit_run_at(b, pos, v1),
        digit_run_at(b, pos, v2),
    ensures
        v1 == v2,
{
    let d1 = dec_digits(v1 as nat);
    let d2 = dec_digits(v2 as nat);
    lemma_dec_digits_canonical(v1 as nat);
    lemma_dec_digits_canonical(v2 as nat);
    assert forall|j: int| pos <= j < pos + d1.len() implies is_digit(b[j]) by {
        assert(b[j] == b.subrange(pos, pos + d1.len())[j - pos]);
    }
    lemma_run_end(b, pos, pos + d1.len(), v2);
    assert(d1 =~= d2);
}

/// The sequence-bound envelope a replay-guarded message must decode to:
/// the chain identifier, the contract address, and the nonce the signer
/// bound the message to, in one fixed JSON shape.
#[derive(Debug)]
pub struct MsgDataToVerify {
    pub chain_id: Vec<u8>,
    pub contract_address: Vec<u8>,
    pub nonce: u64,
}

/// The opening of the envelope, up to the chain identifier.
pub open spec fn lit_open_spec() -> Seq<u8> {
    vstd::utf8::encode_utf8("{\"chain_id\":\""@)
}

/// The middle of the envelope, between chain identifier and contract
/// address.
pub open spec fn lit_mid_spec() -> Seq<u8> {
    vstd::utf8::encode_utf8("\",\"contract_address\":\""@)
}

/// The part of the envelope announcing the nonce.
pub open spec fn lit_nonce_spec() -> Seq<u8> {
    vstd::utf8::encode_utf8("\",\"nonce\":"@)
}

/// The closing brace of the envelope.
pub open spec fn lit_close_spec() -> Seq<u8> {
    vstd::utf8::encode_utf8("}"@)
}

/// The canonical bytes of the envelope.
pub open spec fn envelope_spec(cid: Seq<u8>, addr: Seq<u8>, nonce: u64) -> Seq<u8> {
    lit_open_spec() + cid + lit_mid_spec() + addr + lit_nonce_spec() + dec_digits(nonce as nat)
        + lit_close_spec()
}

/// The delimiter bytes of the envelope: the two inner literals open with
/// the quote that ends the string before them, and the closing literal is
/// the single brace byte, which is no digit.
proof fn lemma_lit_facts()
    ensures
        lit_mid_spec().len() >= 1,
        lit_mid_spec()[0] == 34,
        lit_nonce_spec().len() >= 1,
        lit_nonce_spec()[0] == 34,
        lit_close_spec() =~= seq![125u8],
{
    reveal_strlit("\",\"contract_address\":\"");
    reveal_strlit("\",\"nonce\":");
    reveal_strlit("}");
    assert(vstd::utf8::is_ascii_chars("\",\"contract_address\":\""@)) by {
        assert forall|i: int|
            0 <= i < "\",\"contract_address\":\""@.len() implies '\0'
            <= #[trigger] "\",\"contract_address\":\""@[i] <= '\u{7f}' by {}
    }
    assert(vstd::utf8::is_ascii_chars("\",\"nonce\":"@)) by {
        assert forall|i: int|
            0 <= i < "\",\"nonce\":"@.len() implies '\0' <= #[trigger] "\",\"nonce\":"@[i]
            <= '\u{7f}' by {}
    }
    assert(vstd::utf8::is_ascii_chars("}"@)) by {
        assert forall|i: int| 0 <= i < "}"@.len() implies '\0' <= #[trigger] "}"@[i]
            <= '\u{7f}' by {}
    }
    vstd::utf8::is_ascii_chars_encode_utf8("\",\"contract_address\":\""@);
    vstd::utf8::is_ascii_chars_encode_utf8("\",\"nonce\":"@);
    vstd::utf8::is_ascii_chars_encode_utf8("}"@);
}

/// How the envelope splits into its seven segments: each stands at a
/// fixed offset, the digit run of the nonce is maximal, and the two
/// delimiters after the embedded strings open with a quote.
proof fn lemma_envelope_segments(cid: Seq<u8>, addr: Seq<u8>, nv: u64)
    ensures
        envelope_spec(cid, addr, nv).len() == lit_open_spec().len() + cid.len()
            + lit_mid_spec().len() + addr.len() + lit_nonce_spec().len() + dec_digits(
            nv as nat,
        ).len() + 1,
        envelope_spec(cid, addr, nv).subrange(0, lit_open_spec().len() as int)
            == lit_open_spec(),
        envelope_spec(cid, addr, nv).subrange(
            lit_open_spec().len() as int,
            (lit_open_spec().len() + cid.len()) as int,
        ) == cid,
        envelope_spec(cid, addr, nv).subrange(
            (lit_open_spec().len() + cid.len()) as int,
            (lit_open_spec().len() + cid.len() + lit_mid_spec().len()) as int,
        ) == lit_mid_spec(),
        envelope_spec(cid, addr, nv).subrange(
            (lit_open_spec().len() + cid.len() + lit_mid_spec().len()) as int,
            (lit_open_spec().len() + cid.len() + lit_mid_spec().len() + addr.len()) as int,
        ) == addr,
        envelope_spec(cid, addr, nv).subrange(
            (lit_open_spec().len() + cid.len() + lit_mid_spec().len() + addr.len()) as int,
            (lit_open_spec().len() + cid.len() + lit_mid_spec().len() + addr.len()
                + lit_nonce_spec().len()) as int,
        ) == lit_nonce_spec(),
        envelope_spec(cid, addr, nv)[(lit_open_spec().len() + cid.len()) as int] == 34,
        envelope_spec(cid, addr, nv)[(lit_open_spec().len() + cid.len() + lit_mid_spec().len()
            + addr.len()) as int] == 34,
        digit_run_at(
            envelope_spec(cid, addr, nv),
            (lit_open_spec().len() + cid.len() + lit_mid_spec().len() + addr.len()
                + lit_nonce_spec().len()) as int,
            nv,
        ),
        envelope_spec(cid, addr, nv).last() == 125,
{
    lemma_lit_facts();
    lemma_dec_digits_canonical(nv as nat);
    let b = envelope_spec(cid, addr, nv);
    let c0 = lit_open_spec().len() as int;
    let c1 = c0 + cid.len();
    let c2 = c1 + lit_mid_spec().len();
    let c3 = c2 + addr.len();
    let c4 = c3 + lit_nonce_spec().len();
    let c5 = c4 + dec_digits(nv as nat).len();
    assert(b.subrange(0, c0) =~= lit_open_spec());
    assert(b.subrange(c0, c1) =~= cid);
    assert(b.subrange(c1, c2) =~= lit_mid_spec());
    assert(b.subrange(c2, c3) =~= addr);
    assert(b.subrange(c3, c4) =~= lit_nonce_spec());
    assert(b.subrange(c4, c5) =~= dec_digits(nv as nat));
    assert(b[c1] == lit_mid_spec()[0]);
    assert(b[c3] == lit_nonce_spec()[0]);
    assert(b[c5] == lit_close_spec()[0]);
    assert(!is_digit(125));
}

/// Two envelopes over quote-free strings are equal only when their
/// fields are: the canonical rendering is unambiguous.
pub proof fn lemma_envelope_injective(
    c1: Seq<u8>,
    a1: Seq<u8>,
    n1: u64,
    c2: Seq<u8>,
    a2: Seq<u8>,
    n2: u64,
)
    requires
        envelope_spec(c1, a1, n1) == envelope_spec(c2, a2, n2),
        quote_free(c1),
        quote_free(a1),
        quote_free(c2),
        quote_free(a2),
    ensures
        c1 == c2,
        a1 == a2,
        n1 == n2,
{
    let b = envelope_spec(c1, a1, n1);
    lemma_envelope_segments(c1, a1, n1);
    lemma_envelope_segments(c2, a2, n2);
    let k0 = lit_open_spec().len() as int;
    // The chain identifiers end at the first quote after the opening, so
    // they have the same length and are the same subrange.
    if c1.len() < c2.len() {
        assert(b[k0 + c1.len()] == 34);
        assert(c2[c1.len() as int] == b.subrange(k0, k0 + c2.len())[c1.len() as int]);
        assert(false);
    }
    if c2.len() < c1.len() {
        assert(b[k0 + c2.len()] == 34);
        assert(c1[c2.len() as int] == b.subrange(k0, k0 + c1.len())[c2.len() as int]);
        assert(false);
    }
    assert(c1 =~= c2);
    let k2 = k0 + c1.len() + lit_mid_spec().len();
    if a1.len() < a2.len() {
        assert(b[k2 + a1.len()] == 34);
        assert(a2[a1.len() as int] == b.subrange(k2, k2 + a2.len())[a1.len() as int]);
        assert(false);
    }
    if a2.len() < a1.len() {
        assert(b[k2 + a2.len()] == 34);
        assert(a1[a2.len() as int] == b.subrange(k2, k2 + a1.len())[a2.len() as int]);
        assert(false);
    }
    assert(a1 =~= a2);
    let k4 = k2 + a1.len() + lit_nonce_spec().len();
    lemma_digit_run_unique(b, k4, n1, n2);
}

/// Render the canonical envelope bytes for a message.
pub fn render_msg(m: &MsgDataToVerify) -> (r: Vec<u8>)
    ensures
        r@ == envelope_spec(m.chain_id@, m.contract_address@, m.nonce),
{
    let mut out: Vec<u8> = "{\"chain_id\":\"".as_bytes_vec();
    let mut cid = vstd::slice::slice_to_vec(m.chain_id.as_slice());
    out.append(&mut cid);
    let mut mid = "\",\"contract_address\":\"".as_bytes_vec();
    out.append(&mut mid);
    let mut addr = vstd::slice::slice_to_vec(m.contract_address.as_slice());
    out.append(&mut addr);
    let mut mid2 = "\",\"nonce\":".as_bytes_vec();
    out.append(&mut mid2);
    let mut digits = dec_bytes64(m.nonce);
    out.append(&mut digits);
    let mut close = "}".as_bytes_vec();
    out.append(&mut close);
    proof {
        assert(out@ =~= envelope_spec(m.chain_id@, m.contract_address@, m.nonce));
    }
    out
}

/// Render a 64-bit number as its ASCII decimal digits.
pub fn dec_bytes64(n: u64) -> (r: Vec<u8>)
    ensures
        r@ == dec_digits(n as nat),
    decreases n,
{
    if n < 10 {
        let mut v: Vec<u8> = Vec::new();
        v.push(48 + (n as u8));
        proof {
            assert(v@ =~= dec_digits(n as nat));
        }
        v
    } else {
        let mut v = dec_bytes64(n / 10);
        v.push(48 + ((n % 10) as u8));
        proof {
            assert(v@ =~= dec_digits(n as nat));
        }
        v
    }
}

/// Whether `lit` stands verbatim in `bytes` at position `pos`.
fn match_at(bytes: &[u8], pos: usize, lit: &[u8]) -> (r: bool)
    requires
        pos <= bytes@.len(),
    ensures
        r == (pos + lit@.len() <= bytes@.len() && bytes@.subrange(
            pos as int,
            pos + lit@.len(),
        ) == lit@),
{
    let nb = bytes.len();
    if nb - pos < lit.len() {
        return false;
    }
    let m = lit.len();
    let mut i: usize = 0;
    while i < m
        invariant
            nb == bytes@.len(),
            m == lit@.len(),
            pos + m <= nb,
            i <= m,
            forall|j: int| 0 <= j < i ==> bytes@[pos + j] == lit@[j],
        decreases m - i,
    {
        if bytes[pos + i] != lit[i] {
            proof {
                assert(bytes@.subrange(pos as int, pos + m)[i as int] == bytes@[pos + i]);
            }
            return false;
        }
        i = i + 1;
    }
    proof {
        assert(bytes@.subrange(pos as int, pos + m) =~= lit@);
    }
    true
}

/// The first quote byte at or after a position.
fn find_quote(bytes: &[u8], pos: usize) -> (r: Option<usize>)
    requires
        pos <= bytes@.len(),
    ensures
        (r matches Some(q) ==> pos <= q < bytes@.len() && bytes@[q as int] == 34 && forall|j: int|
            pos <= j < q ==> bytes@[j] != 34),
        (r is None ==> forall|j: int| pos <= j < bytes@.len() ==> bytes@[j] != 34),
{
    let n = bytes.len();
    let mut i: usize = pos;
    while i < n
        invariant
            n == bytes@.len(),
            pos <= i <= n,
            forall|j: int| pos <= j < i ==> bytes@[j] != 34,
        decreases n - i,
    {
        if bytes[i] == 34 {
            return Some(i);
        }
        i = i + 1;
    }
    None
}

/// Whether the chain context can stand verbatim inside the envelope: its
/// strings encode to bytes free of the quote byte.
pub open spec fn env_quote_free(env: &ChainEnv) -> bool {
    quote_free(vstd::utf8::encode_utf8(env.chain_id@)) && quote_free(
        vstd::utf8::encode_utf8(env.contract_address@),
    )
}

impl MsgDataToVerify {
    /// Whether this envelope matches the chain context and the expected
    /// counter value.
    pub open spec fn matches_spec(&self, env: &ChainEnv, account_number: u64) -> bool {
        &&& self.chain_id@ == vstd::utf8::encode_utf8(env.chain_id@)
        &&& self.contract_address@ == vstd::utf8::encode_utf8(env.contract_address@)
        &&& self.nonce == account_number
    }

    /// Check this envelope against the chain context and the store's
    /// counter: the chain identifier and contract address must name the
    /// current transaction's target, and the nonce must equal the counter.
    pub fn validate_cosmwasm(&self, store: &CredentialStore, env: &ChainEnv) -> (r: Result<
        (),
        AuthError,
    >)
        ensures
            r is Ok <==> self.matches_spec(env, store.account_number_spec()),
            (r matches Err(e) ==> e is Generic),
    {
        if !crate::eth::bytes_equal(self.chain_id.as_slice(), env.chain_id.as_str().as_bytes()) {
            return Err(AuthError::Generic("the chain id does not match".to_string()));
        }
        if !crate::eth::bytes_equal(
            self.contract_address.as_slice(),
            env.contract_address.as_str().as_bytes(),
        ) {
            return Err(AuthError::Generic("the contract address does not match".to_string()));
        }
        if self.nonce != store.get_account_number() {
            return Err(AuthError::Generic("the nonce does not match the account number".to_string()));
        }
        Ok(())
    }
}

/// A message accepted against one counter value is rejected against every
/// other: once the counter has advanced, the same sequence-bound message
/// can never be accepted again.
pub proof fn lemma_replay_guard(m: MsgDataToVerify, env: &ChainEnv, n1: u64, n2: u64)
    requires
        m.matches_spec(env, n1),
        n1 != n2,
    ensures
        !m.matches_spec(env, n2),
{
}

/// Decode the canonical envelope. A success returns exactly the message
/// whose rendering the input is; any other input is refused.
/// Whether `b` is the canonical envelope of the given fields.
pub open spec fn is_envelope(b: Seq<u8>, cid: Seq<u8>, addr: Seq<u8>, nv: u64) -> bool {
    b == envelope_spec(cid, addr, nv) && quote_free(cid) && quote_free(addr)
}

/// The first quote at or after the opening literal of an envelope ends
/// its chain identifier.
proof fn lemma_locate_cid(b: Seq<u8>, cid: Seq<u8>, addr: Seq<u8>, nv: u64, q1: int)
    requires
        is_envelope(b, cid, addr, nv),
        lit_open_spec().len() <= q1 < b.len(),
        b[q1] == 34,
        forall|j: int| lit_open_spec().len() <= j < q1 ==> b[j] != 34,
    ensures
        q1 == lit_open_spec().len() + cid.len(),
{
    lemma_envelope_segments(cid, addr, nv);
    lemma_lit_facts();
    let k0 = lit_open_spec().len() as int;
    let p0 = k0 + cid.len();
    if q1 < p0 {
        assert(cid[q1 - k0] == b.subrange(k0, p0)[q1 - k0]);
    }
    if q1 > p0 {
        assert(b[p0] == 34);
    }
}

/// The first quote at or after the middle literal of an envelope ends
/// its contract address.
proof fn lemma_locate_addr(b: Seq<u8>, cid: Seq<u8>, addr: Seq<u8>, nv: u64, q2: int)
    requires
        is_envelope(b, cid, addr, nv),
        lit_open_spec().len() + cid.len() + lit_mid_spec().len() <= q2 < b.len(),
        b[q2] == 34,
        forall|j: int|
            lit_open_spec().len() + cid.len() + lit_mid_spec().len() <= j < q2 ==> b[j] != 34,
    ensures
        q2 == lit_open_spec().len() + cid.len() + lit_mid_spec().len() + addr.len(),
{
    lemma_envelope_segments(cid, addr, nv);
    lemma_lit_facts();
    let k2 = lit_open_spec().len() + cid.len() + lit_mid_spec().len();
    let p1 = k2 + addr.len();
    if q2 < p1 {
        assert(addr[q2 - k2] == b.subrange(k2 as int, p1 as int)[q2 - k2]);
    }
    if q2 > p1 {
        assert(b[p1 as int] == 34);
    }
}

/// Decode the canonical envelope: a success returns exactly the message
/// whose rendering the input is, a failure means the input renders no
/// message, and nothing else is accepted.
#[verifier::rlimit(50)]
pub fn parse_msg(bytes: &[u8]) -> (r: Result<MsgDataToVerify, AuthError>)
    ensures
        (r matches Ok(m) ==> is_envelope(bytes@, m.chain_id@, m.contract_address@, m.nonce)),
        (forall|cid: Seq<u8>, addr: Seq<u8>, nv: u64|
            #[trigger] is_envelope(bytes@, cid, addr, nv) ==> r is Ok),
        (r matches Err(e) ==> e is Generic),
{
    let n = bytes.len();
    let lit1: Vec<u8> = "{\"chain_id\":\"".as_bytes_vec();
    let lit2: Vec<u8> = "\",\"contract_address\":\"".as_bytes_vec();
    let lit3: Vec<u8> = "\",\"nonce\":".as_bytes_vec();
    if !match_at(bytes, 0, lit1.as_slice()) {
        proof {
            assert forall|cid: Seq<u8>, addr: Seq<u8>, nv: u64| !is_envelope(
                bytes@,
                cid,
                addr,
                nv,
            ) by {
                if is_envelope(bytes@, cid, addr, nv) {
                    lemma_envelope_segments(cid, addr, nv);
                }
            }
        }
        return Err(AuthError::Generic("malformed envelope".to_string()));
    }
    let s1 = lit1.len();
    let q1 = match find_quote(bytes, s1) {
        Some(q) => q,
        None => {
            proof {
                assert forall|cid: Seq<u8>, addr: Seq<u8>, nv: u64| !is_envelope(
                    bytes@,
                    cid,
                    addr,
                    nv,
                ) by {
                    if is_envelope(bytes@, cid, addr, nv) {
                        lemma_envelope_segments(cid, addr, nv);
                        lemma_lit_facts();
                        assert(bytes@[(lit_open_spec().len() + cid.len()) as int] == 34);
                    }
                }
            }
            return Err(AuthError::Generic("malformed envelope".to_string()));
        },
    };
    let cid = vstd::slice::slice_to_vec(vstd::slice::slice_subrange(bytes, s1, q1));
    if !match_at(bytes, q1, lit2.as_slice()) {
        proof {
            assert forall|cid2: Seq<u8>, addr2: Seq<u8>, nv: u64| !is_envelope(
                bytes@,
                cid2,
                addr2,
                nv,
            ) by {
                if is_envelope(bytes@, cid2, addr2, nv) {
                    lemma_locate_cid(bytes@, cid2, addr2, nv, q1 as int);
                    lemma_envelope_segments(cid2, addr2, nv);
                }
            }
        }
        return Err(AuthError::Generic("malformed envelope".to_string()));
    }
    assert(q1 + lit2@.len() <= n);
    let s2 = q1 + lit2.len();
    let q2 = match find_quote(bytes, s2) {
        Some(q) => q,
        None => {
            proof {
                assert forall|cid2: Seq<u8>, addr2: Seq<u8>, nv: u64| !is_envelope(
                    bytes@,
                    cid2,
                    addr2,
                    nv,
                ) by {
                    if is_envelope(bytes@, cid2, addr2, nv) {
                        lemma_locate_cid(bytes@, cid2, addr2, nv, q1 as int);
                        lemma_envelope_segments(cid2, addr2, nv);
                        lemma_lit_facts();
                        assert(bytes@[(lit_open_spec().len() + cid2.len() + lit_mid_spec().len()
                            + addr2.len()) as int] == 34);
                    }
                }
            }
            return Err(AuthError::Generic("malformed envelope".to_string()));
        },
    };
    let addr = vstd::slice::slice_to_vec(vstd::slice::slice_subrange(bytes, s2, q2));
    if !match_at(bytes, q2, lit3.as_slice()) {
        proof {
            assert forall|cid2: Seq<u8>, addr2: Seq<u8>, nv: u64| !is_envelope(
                bytes@,
                cid2,
                addr2,
                nv,
            ) by {
                if is_envelope(bytes@, cid2, addr2, nv) {
                    lemma_locate_cid(bytes@, cid2, addr2, nv, q1 as int);
                    lemma_locate_addr(bytes@, cid2, addr2, nv, q2 as int);
                    lemma_envelope_segments(cid2, addr2, nv);
                }
            }
        }
        return Err(AuthError::Generic("malformed envelope".to_string()));
    }
    assert(q2 + lit3@.len() <= n);
    let s3 = q2 + lit3.len();
    let (nonce, e) = match parse_dec(bytes, s3) {
        Some(p) => p,
        None => {
            proof {
                assert forall|cid2: Seq<u8>, addr2: Seq<u8>, nv: u64| !is_envelope(
                    bytes@,
                    cid2,
                    addr2,
                    nv,
                ) by {
                    if is_envelope(bytes@, cid2, addr2, nv) {
                        lemma_locate_cid(bytes@, cid2, addr2, nv, q1 as int);
                        lemma_locate_addr(bytes@, cid2, addr2, nv, q2 as int);
                        lemma_envelope_segments(cid2, addr2, nv);
                        assert(digit_run_at(bytes@, s3 as int, nv));
                    }
                }
            }
            return Err(AuthError::Generic("malformed envelope".to_string()));
        },
    };
    if !(e < n && e + 1 == n && bytes[e] == 125) {
        proof {
            assert forall|cid2: Seq<u8>, addr2: Seq<u8>, nv: u64| !is_envelope(
                bytes@,
                cid2,
                addr2,
                nv,
            ) by {
                if is_envelope(bytes@, cid2, addr2, nv) {
                    lemma_locate_cid(bytes@, cid2, addr2, nv, q1 as int);
                    lemma_locate_addr(bytes@, cid2, addr2, nv, q2 as int);
                    lemma_envelope_segments(cid2, addr2, nv);
                    assert(digit_run_at(bytes@, s3 as int, nonce));
                    lemma_digit_run_unique(bytes@, s3 as int, nonce, nv);
                }
            }
        }
        return Err(AuthError::Generic("malformed envelope".to_string()));
    }
    let m = MsgDataToVerify { chain_id: cid, contract_address: addr, nonce };
    proof {
        let close = lit_close_spec();
        assert(close == bytes@.subrange(e as int, e + 1)) by {
            reveal_strlit("}");
            vstd::utf8::is_ascii_chars_encode_utf8("}"@);
            assert(close =~= bytes@.subrange(e as int, e + 1));
        }
        assert(bytes@ =~= lit_open_spec() + m.chain_id@ + lit_mid_spec() + m.contract_address@
            + lit_nonce_spec() + dec_digits(m.nonce as nat) + close);
    }
    Ok(m)
}

/// Read a canonical run of decimal digits at a position: its value and
/// the position one past it.
fn parse_dec(bytes: &[u8], pos: usize) -> (r: Option<(u64, usize)>)
    requires
        pos <= bytes@.len(),
    ensures
        (r matches Some(p) ==> pos < p.1 <= bytes@.len() && bytes@.subrange(pos as int, p.1 as int)
            == dec_digits(p.0 as nat) && (p.1 == bytes@.len() || !is_digit(bytes@[p.1 as int]))),
        (forall|nv: u64| digit_run_at(bytes@, pos as int, nv) ==> r is Some),
{
    let n = bytes.len();
    let mut i: usize = pos;
    while i < n && bytes[i] >= 48 && bytes[i] <= 57
        invariant
            n == bytes@.len(),
            pos <= i <= n,
            forall|j: int| pos <= j < i ==> is_digit(bytes@[j]),
        decreases n - i,
    {
        i = i + 1;
    }
    proof {
        assert(i as int == n as int || !is_digit(bytes@[i as int]));
    }
    if i == pos {
        proof {
            assert forall|nv: u64| !digit_run_at(bytes@, pos as int, nv) by {
                if digit_run_at(bytes@, pos as int, nv) {
                    lemma_dec_digits_canonical(nv as nat);
                    let dd = dec_digits(nv as nat);
                    assert(bytes@[pos as int] == bytes@.subrange(pos as int, pos + dd.len())[0]);
                    assert(is_digit(bytes@[pos as int]));
                }
            }
        }
        return None;
    }
    if bytes[pos] == 48 && i > pos + 1 {
        proof {
            assert forall|nv: u64| !digit_run_at(bytes@, pos as int, nv) by {
                if digit_run_at(bytes@, pos as int, nv) {
                    lemma_dec_digits_canonical(nv as nat);
                    let dd = dec_digits(nv as nat);
                    assert(dd[0] == bytes@.subrange(pos as int, pos + dd.len())[0]);
                    assert(dd[0] == 48);
                    assert(dd.len() == 1);
                    assert(is_digit(bytes@[pos + 1]));
                }
            }
        }
        return None;
    }
    let ghost digits = bytes@.subrange(pos as int, i as int);
    proof {
        assert(canonical_digits(digits));
    }
    let mut acc: u64 = 0;
    let mut k: usize = pos;
    while k < i
        invariant
            pos <= k <= i <= n,
            n == bytes@.len(),
            forall|j: int| pos <= j < i ==> is_digit(bytes@[j]),
            i as int == n as int || !is_digit(bytes@[i as int]),
            acc as nat == digits_val(bytes@.subrange(pos as int, k as int)),
        decreases i - k,
    {
        let d = bytes[k];
        if acc > (u64::MAX - (d - 48) as u64) / 10 {
            proof {
                assert forall|nv: u64| !digit_run_at(bytes@, pos as int, nv) by {
                    if digit_run_at(bytes@, pos as int, nv) {
                        lemma_dec_digits_canonical(nv as nat);
                        lemma_run_end(bytes@, pos as int, i as int, nv);
                        let dd = dec_digits(nv as nat);
                        assert(bytes@.subrange(pos as int, i as int) == dd);
                        let prev = bytes@.subrange(pos as int, k as int);
                        let next = bytes@.subrange(pos as int, k + 1);
                        assert(next.drop_last() =~= prev);
                        assert(next.last() == bytes@[k as int]);
                        assert(digits_val(next) == acc * 10 + (d - 48) as nat);
                        assert(next =~= dd.subrange(0, k + 1 - pos));
                        lemma_digits_val_prefix_le(dd, k + 1 - pos);
                        assert(digits_val(next) <= nv);
                        assert(acc * 10 + (d - 48) > u64::MAX) by (nonlinear_arith)
                            requires
                                acc > (u64::MAX - (d - 48) as u64) / 10,
                                48 <= d <= 57,
                        ;
                    }
                }
            }
            return None;
        }
        proof {
            let prev = bytes@.subrange(pos as int, k as int);
            let next = bytes@.subrange(pos as int, k + 1);
            assert(next.drop_last() =~= prev);
            assert(next.last() == bytes@[k as int]);
            assert(acc * 10 + (d - 48) <= u64::MAX) by (nonlinear_arith)
                requires
                    acc <= (u64::MAX - (d - 48) as u64) / 10,
                    48 <= d <= 57,
            ;
        }
        acc = acc * 10 + (d - 48) as u64;
        k = k + 1;
    }
    proof {
        lemma_canonical_digits_roundtrip(digits);
    }
    Some((acc, i))
}

} // verus!
