use crate::api_level::ApiLevel;
use crate::client::VisaClient;
use crate::config::Config;
use crate::errors::BuilderError;
use crate::message_level_encryption::MessageLevelEncryption;
use crate::mutual_tls::MutualTls;
use crate::state::MLETrait;
use crate::state::MessageLevelEncryptionState;
use crate::state::MutualTlsState;
use crate::state::WithMessageLevelEncryption;
use crate::state::WithMutualTls;
use crate::state::WithoutMessageLevelEncryption;
use crate::state::WithoutMutualTls;
use crate::transport;
use vstd::prelude::*;

verus! {

/// Staged builder for `VisaClient`.
///
/// The two phase parameters record which credential groups have been
/// attached. `build` is only defined once the mutual-TLS phase is
/// `WithMutualTls`, so constructing a client without transport identity is
/// impossible to express. The encryption phase and the deployment tier are
/// independently optional.
pub struct VisaClientBuilder<MTLS: MutualTlsState, MLE: MessageLevelEncryptionState> {
    /// The mutual-TLS phase, carrying the credentials once attached.
    pub mutual_tls: MTLS,
    /// The message-level-encryption phase, carrying the key material once
    /// attached.
    pub message_level_encryption: MLE,
    /// The deployment tier the built client will talk to.
    pub api_level: ApiLevel,
}

impl VisaClientBuilder<WithoutMutualTls, WithoutMessageLevelEncryption> {
    /// A fresh builder: no credentials attached, tier defaulted to the
    /// sandbox.
    pub fn new() -> (r: Self)
        ensures
            r.api_level == ApiLevel::Sandbox,
    {
        VisaClientBuilder {
            mutual_tls: WithoutMutualTls,
            message_level_encryption: WithoutMessageLevelEncryption,
            api_level: ApiLevel::Sandbox,
        }
    }
}

impl Default for VisaClientBuilder<WithoutMutualTls, WithoutMessageLevelEncryption> {
    /// Same as `new`.
    fn default() -> (r: Self)
        ensures
            r.api_level == ApiLevel::Sandbox,
    {
        VisaClientBuilder::new()
    }
}

impl<MTLS: MutualTlsState, MLE: MessageLevelEncryptionState> VisaClientBuilder<MTLS, MLE> {
    /// Attaches mutual-TLS credentials, moving the builder into the
    /// `WithMutualTls` phase. The encryption phase and the tier are kept.
    pub fn set_mutual_tls(self, mutual_tls: MutualTls) -> (r: VisaClientBuilder<
        WithMutualTls,
        MLE,
    >)
        ensures
            r.mutual_tls.0 == mutual_tls,
            r.message_level_encryption == self.message_level_encryption,
            r.api_level == self.api_level,
    {
        VisaClientBuilder {
            mutual_tls: WithMutualTls(mutual_tls),
            message_level_encryption: self.message_level_encryption,
            api_level: self.api_level,
        }
    }

    /// Attaches a message-level-encryption configuration, moving the builder
    /// into the `WithMessageLevelEncryption` phase. The mutual-TLS phase and
    /// the tier are kept.
    pub fn set_message_level_encryption(
        self,
        message_level_encryption: WithMessageLevelEncryption,
    ) -> (r: VisaClientBuilder<MTLS, WithMessageLevelEncryption>)
        ensures
            r.message_level_encryption == message_level_encryption,
            r.mutual_tls == self.mutual_tls,
            r.api_level == self.api_level,
    {
        VisaClientBuilder {
            message_level_encryption,
            mutual_tls: self.mutual_tls,
            api_level: self.api_level,
        }
    }

    /// Sets the deployment tier. A pure field update: neither phase moves.
    pub fn set_api_level(self, api_level: ApiLevel) -> (r: Self)
        ensures
            r.api_level == api_level,
            r.mutual_tls == self.mutual_tls,
            r.message_level_encryption == self.message_level_encryption,
    {
        VisaClientBuilder {
            api_level,
            mutual_tls: self.mutual_tls,
            message_level_encryption: self.message_level_encryption,
        }
    }

    /// Materializes the configuration the built client will own.
    pub fn build_api_config(&self) -> (r: Config)
        ensures
            r.api_level == self.api_level,
    {
        Config { api_level: self.api_level }
    }
}

impl<MLE: MLETrait> VisaClientBuilder<WithMutualTls, MLE> {
    /// Terminal action of the builder, only defined in the `WithMutualTls`
    /// phase. Parses the certificate bytes into a TLS identity exactly once,
    /// builds the one reusable transport handle carrying that identity, and
    /// returns the immutable client. On any failure the result is an error
    /// and no client exists: a partially constructed client is never
    /// observable.
    pub fn build(self) -> (r: Result<VisaClient<MLE>, BuilderError>)
        ensures
            r matches Ok(c) ==> {
                &&& c.spec_mutual_tls() == self.mutual_tls.0
                &&& c.spec_message_level_encryption() == self.message_level_encryption
                &&& c.spec_config().api_level == self.api_level
            },
            r matches Err(e) ==> (e == BuilderError::CertificateError || e
                == BuilderError::TransportError),
    {
        let config = self.build_api_config();
        let identity = {
            let passphrase: &str = match &self.mutual_tls.0.cert_key {
                Some(key) => key.as_str(),
                None => "",
            };
            match transport::parse_pkcs12_identity(self.mutual_tls.0.cert.as_slice(), passphrase) {
                Ok(identity) => identity,
                Err(_) => {
                    return Err(BuilderError::CertificateError);
                },
            }
        };
        let handle = match transport::build_transport(identity) {
            Ok(handle) => handle,
            Err(_) => {
                return Err(BuilderError::TransportError);
            },
        };
        Ok(
            VisaClient::assemble(
                self.mutual_tls.0,
                self.message_level_encryption,
                config,
                handle,
            ),
        )
    }
}

} // verus!
