use vstd::prelude::*;

use crate::caller::Caller;
use crate::cosmos::CosmosArbitrary;
use crate::ed25519::Ed25519;
use crate::encodings::{base64_of, utf8_to_string};
use crate::errors::AuthError;
use crate::eth::EthPersonalSign;
use crate::host::HostApi;
use crate::msgs::{env_quote_free, envelope_spec, is_envelope, lemma_envelope_injective, parse_msg};
use crate::passkey::PasskeyCredential;
use crate::secp256k1::Secp256k1;
use crate::secp256r1::Secp256r1;
use crate::storage::CredentialStore;
use crate::types::{ChainEnv, CredentialInfo, CredentialName};
use crate::utils::{address_of, canonical_of, pubkey_to_address, valid_hrp};
use crate::{CredentialId, Verifiable};

verus! {

/// One credential of any compiled-in scheme: a closed set of tagged
/// variants, each wrapping exactly one scheme payload. Every operation is
/// an exhaustive match with no default arm.
#[derive(Debug)]
pub enum Credential {
    Caller(Caller),
    EthPersonalSign(EthPersonalSign),
    CosmosArbitrary(CosmosArbitrary),
    Passkey(PasskeyCredential),
    Secp256k1(Secp256k1),
    Secp256r1(Secp256r1),
    Ed25519(Ed25519),
}

impl Credential {
    /// The scheme tag of the active variant.
    pub open spec fn name_spec(&self) -> CredentialName {
        match self {
            Credential::Caller(_) => CredentialName::Caller,
            Credential::EthPersonalSign(_) => CredentialName::EthPersonalSign,
            Credential::CosmosArbitrary(_) => CredentialName::CosmosArbitrary,
            Credential::Passkey(_) => CredentialName::Passkey,
            Credential::Secp256k1(_) => CredentialName::Secp256k1,
            Credential::Secp256r1(_) => CredentialName::Secp256r1,
            Credential::Ed25519(_) => CredentialName::Ed25519,
        }
    }

    pub fn name(&self) -> (r: CredentialName)
        ensures
            r == self.name_spec(),
    {
        match self {
            Credential::Caller(_) => CredentialName::Caller,
            Credential::EthPersonalSign(_) => CredentialName::EthPersonalSign,
            Credential::CosmosArbitrary(_) => CredentialName::CosmosArbitrary,
            Credential::Passkey(_) => CredentialName::Passkey,
            Credential::Secp256k1(_) => CredentialName::Secp256k1,
            Credential::Secp256r1(_) => CredentialName::Secp256r1,
            Credential::Ed25519(_) => CredentialName::Ed25519,
        }
    }

    /// Whether `m` is the signed message this credential carries: nothing
    /// for a caller, the base64url-decoded challenge for a passkey, and
    /// the raw message field for every signature scheme.
    pub open spec fn message_ok_spec(&self, m: Seq<u8>) -> bool {
        match self {
            Credential::Caller(_) => m == Seq::<u8>::empty(),
            Credential::EthPersonalSign(c) => m == c.message@,
            Credential::CosmosArbitrary(c) => m == c.message@,
            Credential::Passkey(c) => base64_of(m) == c.challenge_b64_spec(),
            Credential::Secp256k1(c) => m == c.message@,
            Credential::Secp256r1(c) => m == c.message@,
            Credential::Ed25519(c) => m == c.message@,
        }
    }

    /// Extract the signed message. Fails only for a passkey whose
    /// challenge is not a base64url encoding of any byte sequence.
    pub fn message(&self) -> (r: Result<Vec<u8>, AuthError>)
        ensures
            (r matches Ok(m) ==> self.message_ok_spec(m@)),
            (r matches Ok(m) ==> forall|m2: Seq<u8>|
                self.message_ok_spec(m2) ==> m2 == m@),
            (r is Err ==> (self matches Credential::Passkey(c) && forall|m: Seq<u8>|
                base64_of(m) != c.challenge_b64_spec())),
            (r matches Err(e) ==> e is Generic),
    {
        match self {
            Credential::Caller(_) => Ok(Vec::new()),
            Credential::EthPersonalSign(c) => Ok(c.message()),
            Credential::CosmosArbitrary(c) => Ok(c.message()),
            Credential::Passkey(c) => c.message(),
            Credential::Secp256k1(c) => Ok(c.message()),
            Credential::Secp256r1(c) => Ok(c.message()),
            Credential::Ed25519(c) => Ok(c.message()),
        }
    }

    /// The auxiliary data registration persists: the passkey record for a
    /// passkey, nothing for every other scheme.
    pub open spec fn extension_spec(&self) -> Option<Seq<u8>> {
        match self {
            Credential::Passkey(c) => Some(vstd::utf8::encode_utf8(c.extension_spec())),
            _ => None,
        }
    }

    pub fn extension(&self) -> (r: Result<Option<Vec<u8>>, AuthError>)
        ensures
            r is Ok,
            (r matches Ok(ext) ==> match ext {
                Some(v) => self.extension_spec() == Some(v@),
                None => self.extension_spec() is None,
            }),
    {
        match self {
            Credential::Passkey(c) => Ok(Some(c.extension_json())),
            _ => Ok(None),
        }
    }

    /// Whether `info` is exactly what registration persists for this
    /// credential: its tag, its prefix, and its auxiliary data.
    pub open spec fn info_matches(&self, info: CredentialInfo) -> bool {
        &&& info.name == self.name_spec()
        &&& (match info.hrp {
            Some(h) => self.hrp_spec() == Some(h@),
            None => self.hrp_spec() is None,
        })
        &&& (match info.extension {
            Some(v) => self.extension_spec() == Some(v@),
            None => self.extension_spec() is None,
        })
    }

    /// What registration persists for this credential.
    pub fn info(&self) -> (r: CredentialInfo)
        ensures
            self.info_matches(r),
    {
        let extension = match self.extension() {
            Ok(e) => e,
            Err(_) => None,
        };
        CredentialInfo { name: self.name(), hrp: self.hrp(), extension }
    }

    /// Whether a chain-native address can be derived for this credential
    /// at all: a caller must carry UTF-8 sender bytes, a prefix must be
    /// acceptable to the encoder, and without a prefix the host must be
    /// able to humanize the canonical address.
    pub open spec fn cosmos_derivable_with<A: HostApi>(&self, api: &A) -> bool {
        match self {
            Credential::Caller(_) => exists|cs: Seq<char>|
                vstd::utf8::encode_utf8(cs) == self.id_spec(),
            _ => match self.hrp_spec() {
                Some(h) => valid_hrp(h),
                None => api.humanize_spec(canonical_of(self.id_spec())) is Some,
            },
        }
    }

    /// Whether `s` is the chain-native address of this credential: the
    /// sender string itself for a caller, the bech32 address under the
    /// credential's prefix when it has one, and the host-humanized
    /// canonical address otherwise.
    pub open spec fn cosmos_address_ok<A: HostApi>(&self, api: &A, s: Seq<char>) -> bool {
        match self {
            Credential::Caller(_) => vstd::utf8::encode_utf8(s) == self.id_spec(),
            _ => match self.hrp_spec() {
                Some(h) => s == address_of(self.id_spec(), h),
                None => api.humanize_spec(canonical_of(self.id_spec())) == Some(s),
            },
        }
    }

    /// Whether this credential carries a prefix to derive a chain-native
    /// address from.
    pub fn is_cosmos_derivable(&self) -> (r: bool)
        ensures
            r == (self.hrp_spec() is Some),
    {
        match self.hrp() {
            Some(_) => true,
            None => false,
        }
    }

    /// Derive the chain-native address of this credential, deferring to
    /// the host's humanizer when no prefix is available.
    pub fn cosmos_address<A: HostApi>(&self, api: &A) -> (r: Result<String, AuthError>)
        ensures
            r is Ok <==> self.cosmos_derivable_with(api),
            (r matches Ok(s) ==> self.cosmos_address_ok(api, s@)),
            (r matches Err(e) ==> e is Generic),
    {
        if let Credential::Caller(_) = self {
            return match utf8_to_string(self.id()) {
                Ok(s) => Ok(s),
                Err(_) => Err(
                    AuthError::Generic("the caller identifier is not a text address".to_string()),
                ),
            };
        }
        match self.hrp() {
            Some(h) => pubkey_to_address(self.id().as_slice(), h.as_str()),
            None => {
                let canonical = crate::utils::pubkey_to_canonical(self.id().as_slice());
                match api.addr_humanize(canonical.as_slice()) {
                    Ok(a) => Ok(a),
                    Err(_) => Err(
                        AuthError::Generic("the host could not humanize the address".to_string()),
                    ),
                }
            },
        }
    }

    /// Whether the given host's check accepts the active variant's
    /// payload; a caller is vouched for by the transaction context itself.
    pub open spec fn verify_ok_with<A: HostApi>(&self, api: &A) -> bool {
        match self {
            Credential::Caller(_) => true,
            Credential::EthPersonalSign(c) => c.verify_ok_with(api),
            Credential::CosmosArbitrary(c) => c.verify_ok_with(api),
            Credential::Passkey(c) => c.verify_ok_with(api),
            Credential::Secp256k1(c) => c.verify_ok_with(api),
            Credential::Secp256r1(c) => c.verify_ok_with(api),
            Credential::Ed25519(c) => c.verify_ok_with(api),
        }
    }

    /// Which error the cryptographic step returns for the active variant.
    pub open spec fn verify_err_class(&self, e: AuthError) -> bool {
        match self {
            Credential::Caller(_) => false,
            Credential::EthPersonalSign(c) => (if c.signature@.len() == 65 {
                e is Signature
            } else {
                e is InvalidLength
            }),
            Credential::CosmosArbitrary(c) => (if c.derivable_spec() {
                e is Signature
            } else {
                e is Generic
            }),
            Credential::Passkey(_) => e is Signature,
            Credential::Secp256k1(_) => e is Signature,
            Credential::Secp256r1(_) => e is Signature,
            Credential::Ed25519(_) => e is Signature,
        }
    }

    /// Validate the active variant, then run its cryptographic check
    /// against the given host. Succeeds exactly when both pass.
    pub fn verify_cosmwasm<A: HostApi>(&self, api: &A) -> (r: Result<(), AuthError>)
        ensures
            r is Ok <==> (self.valid_spec() && self.verify_ok_with(api)),
            (r matches Err(e) ==> (self.validate_err_spec(e) || self.verify_err_class(e))),
    {
        if let Err(e) = self.validate() {
            return Err(e);
        }
        match self {
            Credential::Caller(_) => Ok(()),
            Credential::EthPersonalSign(c) => c.verify_with(api),
            Credential::CosmosArbitrary(c) => c.verify_with(api),
            Credential::Passkey(c) => c.verify_with(api),
            Credential::Secp256k1(c) => c.verify_with(api),
            Credential::Secp256r1(c) => c.verify_with(api),
            Credential::Ed25519(c) => c.verify_with(api),
        }
    }

    /// Whether this credential's signed message is the sequence-bound
    /// envelope matching the chain context and the store's counter.
    pub open spec fn replay_ok_spec(&self, store: &CredentialStore, env: &ChainEnv) -> bool {
        self.message_ok_spec(
            envelope_spec(
                vstd::utf8::encode_utf8(env.chain_id@),
                vstd::utf8::encode_utf8(env.contract_address@),
                store.account_number_spec(),
            ),
        )
    }

    /// The full success condition of the registration guard: the
    /// credential is registered, it validates, the host's check accepts
    /// it, and, under replay protection, its message is bound to the
    /// current counter.
    pub open spec fn assert_ok_spec<A: HostApi>(
        &self,
        api: &A,
        store: &CredentialStore,
        env: &ChainEnv,
        replay: bool,
    ) -> bool {
        &&& store.creds().contains_key(self.id_spec())
        &&& self.valid_spec()
        &&& self.verify_ok_with(api)
        &&& (replay ==> self.replay_ok_spec(store, env))
    }

    /// The registration guard: the credential must already be registered,
    /// must validate and pass the host's check, and, when replay
    /// protection is on, must carry the envelope bound to the current
    /// counter. Each step short-circuits on its first failure. On a chain
    /// context whose strings fit the envelope, the outcome is exactly
    /// `assert_ok_spec`.
    pub fn assert_cosmwasm<A: HostApi>(
        &self,
        api: &A,
        store: &CredentialStore,
        env: &ChainEnv,
        replay: bool,
    ) -> (r: Result<(), AuthError>)
        ensures
            (r is Ok ==> self.assert_ok_spec(api, store, env, replay)),
            ((!replay || env_quote_free(env)) ==> (r is Ok <==> self.assert_ok_spec(
                api,
                store,
                env,
                replay,
            ))),
            ((r matches Err(e) && e is NotFound) <==> !store.creds().contains_key(self.id_spec())),
    {
        let ghost ev = envelope_spec(
            vstd::utf8::encode_utf8(env.chain_id@),
            vstd::utf8::encode_utf8(env.contract_address@),
            store.account_number_spec(),
        );
        if !store.has_credential(self.id().as_slice()) {
            return Err(AuthError::NotFound);
        }
        if let Err(e) = self.verify_cosmwasm(api) {
            proof {
                assert(!(e is NotFound));
            }
            return Err(e);
        }
        if replay {
            let msg_bytes = match self.message() {
                Ok(m) => m,
                Err(e) => {
                    proof {
                        if self.replay_ok_spec(store, env) {
                            assert(self.message_ok_spec(ev));
                            assert(false);
                        }
                    }
                    return Err(e);
                },
            };
            let msg = match parse_msg(msg_bytes.as_slice()) {
                Ok(m) => m,
                Err(e) => {
                    proof {
                        if env_quote_free(env) && self.replay_ok_spec(store, env) {
                            assert(self.message_ok_spec(ev));
                            assert(msg_bytes@ == ev);
                            assert(is_envelope(
                                msg_bytes@,
                                vstd::utf8::encode_utf8(env.chain_id@),
                                vstd::utf8::encode_utf8(env.contract_address@),
                                store.account_number_spec(),
                            ));
                            assert(false);
                        }
                    }
                    return Err(e);
                },
            };
            if let Err(e) = msg.validate_cosmwasm(store, env) {
                proof {
                    if env_quote_free(env) && self.replay_ok_spec(store, env) {
                        assert(self.message_ok_spec(ev));
                        assert(msg_bytes@ == ev);
                        lemma_envelope_injective(
                            msg.chain_id@,
                            msg.contract_address@,
                            msg.nonce,
                            vstd::utf8::encode_utf8(env.chain_id@),
                            vstd::utf8::encode_utf8(env.contract_address@),
                            store.account_number_spec(),
                        );
                        assert(false);
                    }
                }
                return Err(e);
            }
            proof {
                assert(msg_bytes@ == envelope_spec(
                    msg.chain_id@,
                    msg.contract_address@,
                    msg.nonce,
                ));
                assert(self.message_ok_spec(ev));
            }
        }
        Ok(())
    }

    /// Run the registration guard, then commit: persist the credential's
    /// record under its identifier, advance the counter under replay
    /// protection, and remember the sender as the active caller for a
    /// caller credential. Nothing is committed when any step fails.
    pub fn save_cosmwasm<A: HostApi>(
        &self,
        api: &A,
        store: &mut CredentialStore,
        env: &ChainEnv,
        replay: bool,
    ) -> (r: Result<(), AuthError>)
        requires
            old(store).account_number_spec() < u64::MAX,
        ensures
            (r is Ok ==> self.assert_ok_spec(api, old(store), env, replay)),
            ((!replay || env_quote_free(env)) ==> (r is Ok <==> self.assert_ok_spec(
                api,
                old(store),
                env,
                replay,
            ))),
            (r is Ok ==> exists|info: CredentialInfo|
                final(store).creds() == old(store).creds().insert(self.id_spec(), info)
                    && #[trigger] self.info_matches(info)),
            (r is Ok ==> final(store).account_number_spec() as int == (if replay {
                old(store).account_number_spec() + 1
            } else {
                old(store).account_number_spec() as int
            })),
            (r is Ok ==> (if self matches Credential::Caller(_) {
                final(store).caller_spec() matches Some(s) && s@ == env.sender@
            } else {
                final(store).caller_spec() == old(store).caller_spec()
            })),
            (r is Err ==> *final(store) == *old(store)),
            ((r matches Err(e) && e is NotFound) <==> !old(store).creds().contains_key(
                self.id_spec(),
            )),
    {
        if let Err(e) = self.assert_cosmwasm(api, store, env, replay) {
            return Err(e);
        }
        store.save_credential(self.id(), self.info());
        if replay {
            store.increment_account_number();
        }
        if let Credential::Caller(_) = self {
            store.save_caller(env.sender.clone());
        }
        Ok(())
    }
}

/// Structural validation rejects an empty public key, an empty message,
/// and an empty signature for every signature-carrying scheme, and a
/// passkey with an empty signature or challenge, before any cryptographic
/// check runs.
pub proof fn lemma_validate_rejects_empty(c: &Credential)
    ensures
        match c {
            Credential::Caller(_) => true,
            Credential::EthPersonalSign(x) => (x.pubkey@.len() == 0 || x.message@.len() == 0
                || x.signature@.len() == 0) ==> !c.valid_spec(),
            Credential::CosmosArbitrary(x) => (x.pubkey@.len() == 0 || x.message@.len() == 0
                || x.signature@.len() == 0) ==> !c.valid_spec(),
            Credential::Passkey(x) => (x.signature@.len() == 0
                || x.client_data.challenge@.len() == 0) ==> !c.valid_spec(),
            Credential::Secp256k1(x) => (x.pubkey@.len() == 0 || x.message@.len() == 0
                || x.signature@.len() == 0) ==> !c.valid_spec(),
            Credential::Secp256r1(x) => (x.pubkey@.len() == 0 || x.message@.len() == 0
                || x.signature@.len() == 0) ==> !c.valid_spec(),
            Credential::Ed25519(x) => (x.pubkey@.len() == 0 || x.message@.len() == 0
                || x.signature@.len() == 0) ==> !c.valid_spec(),
        },
{
}

impl Verifiable for Credential {
    open spec fn id_spec(&self) -> Seq<u8> {
        match self {
            Credential::Caller(c) => c.id_spec(),
            Credential::EthPersonalSign(c) => c.id_spec(),
            Credential::CosmosArbitrary(c) => c.id_spec(),
            Credential::Passkey(c) => c.id_spec(),
            Credential::Secp256k1(c) => c.id_spec(),
            Credential::Secp256r1(c) => c.id_spec(),
            Credential::Ed25519(c) => c.id_spec(),
        }
    }

    open spec fn hrp_spec(&self) -> Option<Seq<char>> {
        match self {
            Credential::Caller(c) => c.hrp_spec(),
            Credential::EthPersonalSign(c) => c.hrp_spec(),
            Credential::CosmosArbitrary(c) => c.hrp_spec(),
            Credential::Passkey(c) => c.hrp_spec(),
            Credential::Secp256k1(c) => c.hrp_spec(),
            Credential::Secp256r1(c) => c.hrp_spec(),
            Credential::Ed25519(c) => c.hrp_spec(),
        }
    }

    open spec fn valid_spec(&self) -> bool {
        match self {
            Credential::Caller(c) => c.valid_spec(),
            Credential::EthPersonalSign(c) => c.valid_spec(),
            Credential::CosmosArbitrary(c) => c.valid_spec(),
            Credential::Passkey(c) => c.valid_spec(),
            Credential::Secp256k1(c) => c.valid_spec(),
            Credential::Secp256r1(c) => c.valid_spec(),
            Credential::Ed25519(c) => c.valid_spec(),
        }
    }

    open spec fn verify_ok_spec(&self) -> bool {
        self.valid_spec() && self.verify_ok_with(&crate::host::NativeApi)
    }

    open spec fn validate_err_spec(&self, e: AuthError) -> bool {
        match self {
            Credential::Caller(c) => c.validate_err_spec(e),
            Credential::EthPersonalSign(c) => c.validate_err_spec(e),
            Credential::CosmosArbitrary(c) => c.validate_err_spec(e),
            Credential::Passkey(c) => c.validate_err_spec(e),
            Credential::Secp256k1(c) => c.validate_err_spec(e),
            Credential::Secp256r1(c) => c.validate_err_spec(e),
            Credential::Ed25519(c) => c.validate_err_spec(e),
        }
    }

    open spec fn verify_err_spec(&self, e: AuthError) -> bool {
        self.validate_err_spec(e) || self.verify_err_class(e)
    }

    fn id(&self) -> (r: CredentialId) {
        match self {
            Credential::Caller(c) => c.id(),
            Credential::EthPersonalSign(c) => c.id(),
            Credential::CosmosArbitrary(c) => c.id(),
            Credential::Passkey(c) => c.id(),
            Credential::Secp256k1(c) => c.id(),
            Credential::Secp256r1(c) => c.id(),
            Credential::Ed25519(c) => c.id(),
        }
    }

    fn hrp(&self) -> (r: Option<String>) {
        match self {
            Credential::Caller(c) => c.hrp(),
            Credential::EthPersonalSign(c) => c.hrp(),
            Credential::CosmosArbitrary(c) => c.hrp(),
            Credential::Passkey(c) => c.hrp(),
            Credential::Secp256k1(c) => c.hrp(),
            Credential::Secp256r1(c) => c.hrp(),
            Credential::Ed25519(c) => c.hrp(),
        }
    }

    fn validate(&self) -> (r: Result<(), AuthError>) {
        match self {
            Credential::Caller(c) => c.validate(),
            Credential::EthPersonalSign(c) => c.validate(),
            Credential::CosmosArbitrary(c) => c.validate(),
            Credential::Passkey(c) => c.validate(),
            Credential::Secp256k1(c) => c.validate(),
            Credential::Secp256r1(c) => c.validate(),
            Credential::Ed25519(c) => c.validate(),
        }
    }

    /// Validate, then verify against the self-contained host.
    fn verify(&self) -> (r: Result<(), AuthError>) {
        self.verify_cosmwasm(&crate::host::NativeApi)
    }
}

} // verus!
