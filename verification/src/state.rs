//! Type states of the client builder.
//!
//! The builder tracks two independent phases in its type: whether mutual-TLS
//! credentials have been attached, and whether a message-level-encryption
//! configuration has been attached. A client can only be built from a builder
//! whose mutual-TLS phase is `WithMutualTls`; the encryption phase never
//! gates `build`.

use crate::message_level_encryption::MessageLevelEncryption;
use crate::mutual_tls::MutualTls;
use vstd::prelude::*;

verus! {

/// Phase marker: mutual TLS has not been attached. A client cannot be built
/// in this phase.
#[derive(Clone, Copy, Debug)]
pub struct WithoutMutualTls;

/// Phase marker: mutual TLS has been attached, carrying the credentials.
#[derive(Clone, Debug)]
pub struct WithMutualTls(pub MutualTls);

/// The phase of the mutual-TLS side of the builder.
pub trait MutualTlsState: Sized {

}

impl MutualTlsState for WithoutMutualTls {

}

impl MutualTlsState for WithMutualTls {

}

/// Phase marker: no message-level-encryption configuration is attached.
#[derive(Clone, Copy, Debug)]
pub struct WithoutMessageLevelEncryption;

/// Phase marker: a message-level-encryption configuration is attached,
/// carrying the key material.
#[derive(Clone, Debug)]
pub struct WithMessageLevelEncryption(pub MessageLevelEncryption);

/// The phase of the message-level-encryption side of the builder. The
/// request pipeline consults `has_mle` to decide whether the encryption
/// step is active.
pub trait MessageLevelEncryptionState: Sized {
    /// Whether this phase means the encryption layer is active.
    spec fn spec_has_mle(&self) -> bool;

    /// Reports whether message-level encryption is enabled.
    fn has_mle(&self) -> (b: bool)
        ensures
            b == self.spec_has_mle(),
    ;
}

impl MessageLevelEncryptionState for WithoutMessageLevelEncryption {
    open spec fn spec_has_mle(&self) -> bool {
        false
    }

    fn has_mle(&self) -> (b: bool)
        ensures
            b == self.spec_has_mle(),
    {
        false
    }
}

impl MessageLevelEncryptionState for WithMessageLevelEncryption {
    open spec fn spec_has_mle(&self) -> bool {
        true
    }

    fn has_mle(&self) -> (b: bool)
        ensures
            b == self.spec_has_mle(),
    {
        true
    }
}

/// The bound the client places on its encryption-phase parameter: any
/// encryption phase that can also be cloned.
pub trait MLETrait: MessageLevelEncryptionState + Clone {

}

impl<T: MessageLevelEncryptionState + Clone> MLETrait for T {

}

} // verus!
