use vstd::prelude::*;
use vstd::string::{StrSliceExecFns, StringExecFns};

use crate::encodings::{base64_of, from_base64, push_char, to_base64, url_to_base64, url_to_base64_spec};
use crate::errors::AuthError;
use crate::hashes::{sha256, sha256_of};
use crate::host::{HostApi, NativeApi};
use crate::{CredentialId, Verifiable};

verus! {

/// An optional boolean as JSON writes it.
pub open spec fn json_opt_bool(b: Option<bool>) -> Seq<char> {
    match b {
        Some(true) => "true"@,
        Some(false) => "false"@,
        None => "null"@,
    }
}

/// An optional string as JSON writes it: quoted verbatim, or `null`.
pub open spec fn json_opt_quoted(s: Option<Seq<char>>) -> Seq<char> {
    match s {
        Some(t) => seq!['"'] + t + seq!['"'],
        None => "null"@,
    }
}

/// The client-data record a WebAuthn authenticator signs along: its type
/// tag, whether the assertion crossed origins, the base64url challenge
/// (which carries the signed message), and the origin.
#[derive(Debug)]
pub struct ClientData {
    pub ty: String,
    pub cross_origin: Option<bool>,
    pub challenge: String,
    pub origin: String,
}

/// A WebAuthn-style passkey assertion: the authenticator-asserted key
/// identifier, the signature, the raw authenticator data, the client-data
/// record, and an optional user handle.
#[derive(Debug)]
pub struct PasskeyCredential {
    pub id: Vec<u8>,
    pub pubkey: Option<Vec<u8>>,
    pub signature: Vec<u8>,
    pub authenticator_data: Vec<u8>,
    pub client_data: ClientData,
    pub user_handle: Option<String>,
}

impl PasskeyCredential {
    /// The digest the signature is checked against: sha256 of the raw
    /// authenticator data.
    pub open spec fn digest_spec(&self) -> Seq<u8> {
        sha256_of(self.authenticator_data@)
    }

    /// Whether the given host's secp256r1 check accepts this assertion
    /// under the asserted key identifier.
    pub open spec fn verify_ok_with<A: HostApi>(&self, api: &A) -> bool {
        api.secp256r1_spec(self.digest_spec(), self.signature@, self.id@) == Some(true)
    }

    /// The challenge re-encoded as standard base64.
    pub open spec fn challenge_b64_spec(&self) -> Seq<char> {
        url_to_base64_spec(self.client_data.challenge@)
    }

    /// Check the signature against sha256 of the authenticator data under
    /// the given host's secp256r1 capability, with the asserted identifier
    /// as the public key. Succeeds exactly when that check accepts; any
    /// refusal or mismatch is a signature error.
    pub fn verify_with<A: HostApi>(&self, api: &A) -> (r: Result<(), AuthError>)
        ensures
            r is Ok <==> self.verify_ok_with(api),
            (r matches Err(e) ==> e is Signature),
    {
        let digest = sha256(self.authenticator_data.as_slice());
        match api.secp256r1_verify(
            digest.as_slice(),
            self.signature.as_slice(),
            self.id.as_slice(),
        ) {
            Ok(true) => Ok(()),
            Ok(false) => Err(AuthError::Signature("signature verification failed".to_string())),
            Err(_) => Err(AuthError::Signature("signature verification failed".to_string())),
        }
    }

    /// The auxiliary record persisted for a passkey: the origin, the
    /// cross-origin flag, the optional public key under base64, and the
    /// optional user handle, written as a fixed JSON shape.
    pub open spec fn extension_spec(&self) -> Seq<char> {
        "{\"origin\":\""@ + self.client_data.origin@ + "\",\"cross_origin\":"@ + json_opt_bool(
            self.client_data.cross_origin,
        ) + ",\"pubkey\":"@ + json_opt_quoted(
            match self.pubkey {
                Some(pk) => Some(base64_of(pk@)),
                None => None,
            },
        ) + ",\"user_handle\":"@ + json_opt_quoted(
            match self.user_handle {
                Some(h) => Some(h@),
                None => None,
            },
        ) + "}"@
    }

    /// Render the auxiliary record of this passkey as bytes.
    pub fn extension_json(&self) -> (r: Vec<u8>)
        ensures
            r@ == vstd::utf8::encode_utf8(self.extension_spec()),
    {
        let mut s = String::new();
        s.append("{\"origin\":\"");
        s.append(self.client_data.origin.as_str());
        s.append("\",\"cross_origin\":");
        match &self.client_data.cross_origin {
            Some(b) => {
                if *b {
                    s.append("true");
                } else {
                    s.append("false");
                }
            },
            None => {
                s.append("null");
            },
        }
        s.append(",\"pubkey\":");
        match &self.pubkey {
            Some(pk) => {
                push_char(&mut s, '"');
                let b64 = to_base64(pk.as_slice());
                s.append(b64.as_str());
                push_char(&mut s, '"');
            },
            None => {
                s.append("null");
            },
        }
        s.append(",\"user_handle\":");
        match &self.user_handle {
            Some(h) => {
                push_char(&mut s, '"');
                s.append(h.as_str());
                push_char(&mut s, '"');
            },
            None => {
                s.append("null");
            },
        }
        s.append("}");
        proof {
            assert(s@ =~= self.extension_spec());
        }
        s.as_str().as_bytes_vec()
    }

    /// The signed message bytes: the challenge, base64url-decoded. Fails
    /// exactly when the challenge is not a base64url encoding of any byte
    /// sequence.
    pub fn message(&self) -> (r: Result<Vec<u8>, AuthError>)
        ensures
            (r matches Ok(m) ==> base64_of(m@) == self.challenge_b64_spec()),
            (r matches Ok(m) ==> forall|m2: Seq<u8>|
                base64_of(m2) == self.challenge_b64_spec() ==> m2 == m@),
            (r is Err ==> forall|m: Seq<u8>| base64_of(m) != self.challenge_b64_spec()),
            (r matches Err(e) ==> e is Generic),
    {
        let b64 = url_to_base64(self.client_data.challenge.as_str());
        match from_base64(b64.as_str()) {
            Ok(m) => Ok(m),
            Err(_) => Err(AuthError::Generic("the challenge is not valid base64url".to_string())),
        }
    }
}

impl Verifiable for PasskeyCredential {
    open spec fn id_spec(&self) -> Seq<u8> {
        self.id@
    }

    open spec fn hrp_spec(&self) -> Option<Seq<char>> {
        None
    }

    open spec fn valid_spec(&self) -> bool {
        self.authenticator_data@.len() >= 37 && self.signature@.len() > 0
            && self.client_data.challenge@.len() > 0 && self.client_data.ty@ != "webauthn.get"@
    }

    open spec fn verify_ok_spec(&self) -> bool {
        self.verify_ok_with(&NativeApi)
    }

    open spec fn validate_err_spec(&self, e: AuthError) -> bool {
        if self.authenticator_data@.len() < 37 {
            e is InvalidLength
        } else if self.signature@.len() == 0 || self.client_data.challenge@.len() == 0 {
            e is MissingData
        } else {
            e is Generic
        }
    }

    open spec fn verify_err_spec(&self, e: AuthError) -> bool {
        e is Signature
    }

    fn id(&self) -> (r: CredentialId) {
        self.id.clone()
    }

    fn hrp(&self) -> (r: Option<String>) {
        None
    }

    fn validate(&self) -> (r: Result<(), AuthError>) {
        if self.authenticator_data.len() < 37 {
            Err(AuthError::InvalidLength("invalid authenticator data".to_string()))
        } else if self.signature.len() == 0 {
            Err(AuthError::MissingData("empty signature".to_string()))
        } else if self.client_data.challenge.as_str().unicode_len() == 0 {
            Err(AuthError::MissingData("empty challenge".to_string()))
        } else if self.client_data.ty == String::from_str("webauthn.get") {
            Err(AuthError::Generic("invalid client data type".to_string()))
        } else {
            Ok(())
        }
    }

    fn verify(&self) -> (r: Result<(), AuthError>) {
        self.verify_with(&NativeApi)
    }
}

} // verus!
