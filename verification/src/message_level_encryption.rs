use vstd::prelude::*;

verus! {

/// Key material for the optional message-level-encryption layer.
///
/// Only the *presence* of this configuration is consulted by the request
/// pipeline; the encryption transform itself is a deliberate pass-through
/// placeholder for now (see `VisaClient::apply_message_level_encryption`).
#[derive(Clone, Debug)]
pub struct MessageLevelEncryption {
    /// The client's private key, PEM-encoded.
    pub client_private_key: String,
    /// The passphrase of the private key, if it has one.
    pub client_private_key_pass: Option<String>,
    /// The server's public key, PEM-encoded.
    pub server_public_key: String,
}

impl MessageLevelEncryption {
    /// Bundles the key material into one value.
    pub fn new(
        client_private_key: String,
        client_private_key_pass: Option<String>,
        server_public_key: String,
    ) -> (r: Self)
        ensures
            r.client_private_key == client_private_key,
            r.client_private_key_pass == client_private_key_pass,
            r.server_public_key == server_public_key,
    {
        MessageLevelEncryption { client_private_key, client_private_key_pass, server_public_key }
    }
}

} // verus!
