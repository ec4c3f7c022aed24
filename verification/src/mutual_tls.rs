use vstd::prelude::*;

verus! {

/// Mutual-TLS credentials: the identity material every client must carry.
///
/// `cert` holds a PKCS12-encoded identity; `cert_key` is its passphrase, if
/// the blob is protected by one. `user_id` and `password` feed the basic
/// authentication header attached to every outgoing request.
#[derive(Clone, Debug)]
pub struct MutualTls {
    /// The user id the client authenticates with.
    pub user_id: String,
    /// The password the client authenticates with.
    pub password: String,
    /// The PKCS12-encoded client identity, as raw bytes (the content, not a
    /// path).
    pub cert: Vec<u8>,
    /// The certificate passphrase, or `None` when the blob is unprotected.
    pub cert_key: Option<String>,
}

impl MutualTls {
    /// Bundles the four credential fields into one value.
    pub fn new(user_id: String, password: String, cert: Vec<u8>, cert_key: Option<String>) -> (r:
        Self)
        ensures
            r.user_id == user_id,
            r.password == password,
            r.cert == cert,
            r.cert_key == cert_key,
    {
        MutualTls { user_id, password, cert, cert_key }
    }
}

} // verus!
