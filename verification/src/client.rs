use crate::api_level::spec_base_url;
use crate::basic_auth::basic_auth_value;
use crate::basic_auth::spec_basic_auth_value;
use crate::config::Config;
use crate::http::HttpHeader;
use crate::http::HttpHeaderView;
use crate::http::HttpRequest;
use crate::mutual_tls::MutualTls;
use crate::state::MLETrait;
use crate::state::MessageLevelEncryptionState;
use vstd::prelude::*;
use vstd::string::StringExecFns;
use vstd::utf8::encode_utf8;

verus! {

/// The authentication header value a client with these credentials attaches
/// to every request.
pub open spec fn spec_auth_header_value(credentials: MutualTls) -> Seq<u8> {
    spec_basic_auth_value(encode_utf8(credentials.user_id@), encode_utf8(credentials.password@))
}

/// The authentication header attached by the pipeline decodes back to
/// exactly the credential pair the client was built with, for every pair
/// whose user id is ASCII without the `:` separator. Together with
/// `prepare_request`'s contract this says: after execution, the dispatched
/// request carries a basic authentication header whose decoded value is the
/// `(user_id, password)` pair as supplied at construction. (A user id
/// containing `:` cannot round-trip: the decoder splits at the first
/// separator.)
pub proof fn lemma_auth_header_decodes(credentials: MutualTls)
    requires
        vstd::utf8::is_ascii_chars(credentials.user_id@),
        !credentials.user_id@.contains(':'),
    ensures
        crate::basic_auth::spec_parse_basic_auth(spec_auth_header_value(credentials)) == Some(
            (encode_utf8(credentials.user_id@), encode_utf8(credentials.password@)),
        ),
{
    crate::basic_auth::lemma_ascii_colon_free_bytes(credentials.user_id@);
    crate::basic_auth::lemma_basic_auth_round_trip(
        encode_utf8(credentials.user_id@),
        encode_utf8(credentials.password@),
    );
}

/// The immutable client produced by a successful `build`.
///
/// It owns the resolved configuration, the mutual-TLS credentials (for the
/// per-request authentication header), the encryption phase, and the one
/// transport handle that was derived from the certificate at build time.
/// Nothing is mutated after construction, so a client can be shared freely
/// across concurrent callers.
#[derive(Clone)]
pub struct VisaClient<MLE: MLETrait> {
    mutual_tls: MutualTls,
    message_level_encryption: MLE,
    config: Config,
    transport: reqwest::Client,
}

impl<MLE: MLETrait> VisaClient<MLE> {
    /// The credentials this client was built with.
    pub closed spec fn spec_mutual_tls(&self) -> MutualTls {
        self.mutual_tls
    }

    /// The encryption phase this client was built with.
    pub closed spec fn spec_message_level_encryption(&self) -> MLE {
        self.message_level_encryption
    }

    /// The configuration this client was built with.
    pub closed spec fn spec_config(&self) -> Config {
        self.config
    }

    /// Assembles a client from its resolved parts. Only the builder reaches
    /// this: it is the single point where a client comes into existence,
    /// and it requires the transport handle to already exist.
    pub(crate) fn assemble(
        mutual_tls: MutualTls,
        message_level_encryption: MLE,
        config: Config,
        transport: reqwest::Client,
    ) -> (c: Self)
        ensures
            c.spec_mutual_tls() == mutual_tls,
            c.spec_message_level_encryption() == message_level_encryption,
            c.spec_config() == config,
    {
        VisaClient { mutual_tls, message_level_encryption, config, transport }
    }

    /// Read-only view of the resolved configuration.
    pub fn get_config(&self) -> (r: &Config)
        ensures
            *r == self.spec_config(),
    {
        &self.config
    }

    /// Resolves the stored deployment tier through the fixed tier-to-domain
    /// table; a pure function of the stored configuration.
    pub fn get_base_url(&self) -> (r: String)
        ensures
            r@ == spec_base_url(self.spec_config().api_level),
    {
        crate::api_level::base_url_of(self.config.api_level)
    }

    /// The transport handle derived once at build time. Dispatch reuses this
    /// handle; the TLS identity is never rebuilt per call.
    pub fn transport_handle(&self) -> &reqwest::Client {
        &self.transport
    }

    /// Step one of the pipeline: appends the basic authentication header,
    /// built from the stored credentials, to the request. Everything else —
    /// method, target, existing headers, body — is untouched.
    pub fn apply_auth(&self, request: HttpRequest) -> (r: HttpRequest)
        ensures
            r@.method == request@.method,
            r@.url == request@.url,
            r@.body == request@.body,
            r@.headers == request@.headers.push(
                (HttpHeaderView {
                    name: "authorization"@,
                    value: spec_auth_header_value(self.spec_mutual_tls()),
                }),
            ),
    {
        let value = basic_auth_value(
            self.mutual_tls.user_id.as_str(),
            self.mutual_tls.password.as_str(),
        );
        let name = String::from_str("authorization");
        let mut request = request;
        let ghost prev = request.headers@;
        let header = HttpHeader { name, value };
        let ghost header_view = header@;
        request.headers.push(header);
        proof {
            assert(request.headers@.map_values(|h: HttpHeader| h@) =~= prev.map_values(
                |h: HttpHeader| h@,
            ).push(header_view));
        }
        request
    }

    /// Step two of the pipeline: the message-level-encryption toggle.
    ///
    /// The transform itself is a deliberate pass-through placeholder: when
    /// the configuration is present the request is returned unchanged, and
    /// this contract says exactly that rather than claiming a security
    /// property the step does not yet provide.
    pub fn apply_message_level_encryption(&self, request: HttpRequest) -> (r: HttpRequest)
        ensures
            r == request,
    {
        if !self.message_level_encryption.has_mle() {
            return request;
        }
        request
    }

    /// The verified part of request execution: authentication, then the
    /// encryption toggle, in that fixed order. The result carries exactly
    /// one new header — the basic authentication header — and the body is
    /// byte-identical to the input, whether or not an encryption
    /// configuration is present.
    pub fn prepare_request(&self, request: HttpRequest) -> (r: HttpRequest)
        ensures
            r@.method == request@.method,
            r@.url == request@.url,
            r@.body == request@.body,
            r@.headers == request@.headers.push(
                (HttpHeaderView {
                    name: "authorization"@,
                    value: spec_auth_header_value(self.spec_mutual_tls()),
                }),
            ),
    {
        let authed = self.apply_auth(request);
        self.apply_message_level_encryption(authed)
    }
}

} // verus!
