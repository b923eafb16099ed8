use vstd::prelude::*;

verus! {

/// Tag of a credential scheme. The set of schemes is closed: dispatch over
/// them is an exhaustive match with no default arm.
#[derive(Debug, Clone, Copy, PartialEq, Eq, Structural)]
pub enum CredentialName {
    Caller,
    Ed25519,
    Secp256k1,
    Secp256r1,
    CosmosArbitrary,
    Passkey,
    EthPersonalSign,
}

/// What is persisted about a credential once it is registered: its scheme
/// tag, the optional chain address prefix, and scheme-specific auxiliary
/// data. Written once at registration and never mutated.
#[derive(Debug)]
pub struct CredentialInfo {
    pub name: CredentialName,
    pub hrp: Option<String>,
    pub extension: Option<Vec<u8>>,
}

/// The chain context a host hands to the registration protocol: the chain
/// identifier, the address of the contract being called, and the sender of
/// the current transaction.
#[derive(Debug)]
pub struct ChainEnv {
    pub chain_id: String,
    pub contract_address: String,
    pub sender: String,
}

} // verus!
