//! Configuration of the QUIC listener that serves HTTP/3: the PEM certificate
//! chain and private key, the ALPN protocols, and the rustls and quinn server
//! configurations built from them.

use std::sync::Arc;

use rustls_pemfile::Item;
use tokio_rustls::rustls::crypto::aws_lc_rs;
use tokio_rustls::rustls::crypto::aws_lc_rs::sign::any_supported_type;
use tokio_rustls::rustls::crypto::CryptoProvider;
use tokio_rustls::rustls::pki_types::{CertificateDer, PrivateKeyDer};
use tokio_rustls::rustls::{ServerConfig, DEFAULT_VERSIONS};
use vstd::prelude::*;
use vstd::string::StringExecFns;

verus! {

/// The TLS configuration of a rustls server (`rustls::ServerConfig`).
#[verifier::external_type_specification]
#[verifier::external_body]
pub struct ExServerConfig(ServerConfig);

/// The server configuration of a quinn endpoint (`quinn::ServerConfig`).
#[verifier::external_type_specification]
#[verifier::external_body]
pub struct ExQuinnServerConfig(quinn::ServerConfig);

/// The encodings of a private key in PEM data.
#[derive(Clone, Copy, Debug, PartialEq, Eq, Structural)]
pub enum KeyFormat {
    /// "RSA PRIVATE KEY" (PKCS #1).
    Pkcs1,
    /// "PRIVATE KEY" (PKCS #8).
    Pkcs8,
    /// "EC PRIVATE KEY" (SEC1).
    Sec1,
}

/// The kinds of PEM section that the configuration tells apart.
#[derive(Clone, Copy, Debug, PartialEq, Eq, Structural)]
pub enum PemKind {
    Certificate,
    Pkcs1Key,
    Pkcs8Key,
    Sec1Key,
    /// Any other section that the PEM reader recognises.
    Other,
}

/// The next section of PEM data, as values.
pub enum PemStep {
    /// A section of the given kind with its DER bytes, followed by `rest`
    /// bytes of input.
    Section(PemKind, Seq<u8>, nat),
    /// No section is left.
    End,
    /// The data is malformed; the message says how.
    Failed(Seq<char>),
}

/// The next section of PEM data.
pub enum PemRead {
    Section(PemKind, Vec<u8>, usize),
    End,
    Failed(String),
}

impl PemRead {
    /// This step as values.
    pub open spec fn step(self) -> PemStep {
        match self {
            PemRead::Section(kind, der, rest) => PemStep::Section(kind, der@, rest as nat),
            PemRead::End => PemStep::End,
            PemRead::Failed(m) => PemStep::Failed(m@),
        }
    }
}

/// What `rustls_pemfile::read_one` reads first from `input`.
pub uninterp spec fn pem_next(input: Seq<u8>) -> PemStep;

/// What `rustls_pemfile::certs` yields for `input`: each certificate's DER
/// bytes, or the message of an error, in order.
pub uninterp spec fn pem_certs(input: Seq<u8>) -> Seq<Result<Seq<u8>, Seq<char>>>;

/// Whether `rustls`'s aws-lc-rs provider accepts the key
/// (`aws_lc_rs::sign::any_supported_type`).
pub uninterp spec fn key_is_supported(format: KeyFormat, der: Seq<u8>) -> bool;

/// Calls `rustls_pemfile::read_one` on `data[start..]`.
///
/// Claims: the result is `pem_next` of that input; a section is followed by
/// fewer bytes than the input had (the reader consumes at least the section's
/// BEGIN line). Sections other than certificates and private keys are
/// reported as `Other`, without their bytes.
#[verifier::external_body]
fn pem_read_one(data: &[u8], start: usize) -> (r: PemRead)
    requires
        start <= data@.len(),
    ensures
        r.step() == pem_next(data@.subrange(start as int, data@.len() as int)),
        r matches PemRead::Section(_, _, rest) ==> rest < data@.len() - start,
{
    let mut rd = &data[start..];
    let item = match rustls_pemfile::read_one(&mut rd) {
        Ok(Some(item)) => item,
        Ok(None) => return PemRead::End,
        Err(e) => return PemRead::Failed(e.to_string()),
    };
    let (kind, der) = match item {
        Item::X509Certificate(c) => (PemKind::Certificate, c.to_vec()),
        Item::Pkcs1Key(k) => (PemKind::Pkcs1Key, k.secret_pkcs1_der().to_vec()),
        Item::Pkcs8Key(k) => (PemKind::Pkcs8Key, k.secret_pkcs8_der().to_vec()),
        Item::Sec1Key(k) => (PemKind::Sec1Key, k.secret_sec1_der().to_vec()),
        _ => (PemKind::Other, Vec::new()),
    };
    PemRead::Section(kind, der, rd.len())
}

/// A list of certificates or error messages, as values.
pub open spec fn sections_view(s: Seq<Result<Vec<u8>, String>>) -> Seq<Result<Seq<u8>, Seq<char>>> {
    s.map_values(|x: Result<Vec<u8>, String>| match x {
        Ok(v) => Ok(v@),
        Err(m) => Err(m@),
    })
}

/// Calls `rustls_pemfile::certs` on `data` and collects what it yields.
///
/// Claims: the result is `pem_certs(data)`.
#[verifier::external_body]
fn pem_cert_sections(data: &[u8]) -> (r: Vec<Result<Vec<u8>, String>>)
    ensures
        sections_view(r@) == pem_certs(data@),
{
    let mut rd = data;
    rustls_pemfile::certs(&mut rd).map(|c| c.map(|c| c.to_vec()).map_err(|e| e.to_string())).collect()
}

/// Calls `aws_lc_rs::sign::any_supported_type` on the key.
///
/// Claims: it succeeds exactly when `key_is_supported`; the error's text is
/// not stated.
#[verifier::external_body]
fn check_private_key(format: KeyFormat, der: &Vec<u8>) -> (r: Result<(), String>)
    ensures
        r is Ok == key_is_supported(format, der@),
{
    let key = match format {
        KeyFormat::Pkcs1 => PrivateKeyDer::Pkcs1(der.clone().into()),
        KeyFormat::Pkcs8 => PrivateKeyDer::Pkcs8(der.clone().into()),
        KeyFormat::Sec1 => PrivateKeyDer::Sec1(der.clone().into()),
    };
    any_supported_type(&key).map(|_| ()).map_err(|e| e.to_string())
}

/// Calls `CryptoProvider::get_default`: whether this process has a default
/// crypto provider. It depends on the process, so nothing is claimed.
#[verifier::external_body]
fn crypto_provider_installed() -> bool {
    CryptoProvider::get_default().is_some()
}

/// Calls `CryptoProvider::install_default` on `aws_lc_rs::default_provider()`;
/// it fails, without effect, where a default is installed already.
#[verifier::external_body]
fn install_aws_lc_provider() {
    let _ = aws_lc_rs::default_provider().install_default();
}

/// The certificate chain that a rustls server configuration presents (the
/// chain of the certificate it was built with), each certificate's DER bytes.
pub uninterp spec fn server_cert_chain(c: ServerConfig) -> Seq<Seq<u8>>;

/// The `alpn_protocols` field of a rustls server configuration.
pub uninterp spec fn server_alpn(c: ServerConfig) -> Seq<Seq<u8>>;

/// The `max_early_data_size` field of a rustls server configuration.
pub uninterp spec fn server_max_early_data(c: ServerConfig) -> u32;

/// Whether a rustls server configuration asks clients for a certificate (its
/// `verifier` offers client authentication).
pub uninterp spec fn server_offers_client_auth(c: ServerConfig) -> bool;

/// The rustls configuration that the crypto of a quinn server configuration
/// wraps.
pub uninterp spec fn quinn_tls_config(c: quinn::ServerConfig) -> ServerConfig;

/// The idle timeout, in milliseconds, of the transport configuration of a
/// quinn server configuration; `None` where it has none.
pub uninterp spec fn quinn_idle_timeout_ms(c: quinn::ServerConfig) -> Option<int>;

/// Calls `ServerConfig::builder_with_provider` with the process's default
/// crypto provider, then `with_protocol_versions(DEFAULT_VERSIONS)`,
/// `with_no_client_auth` and `with_single_cert` with the certificate chain and
/// the key.
///
/// `Ok(None)` where the process has no default provider. Claims of a built
/// configuration what `with_no_client_auth` and `with_single_cert` make of
/// it: it presents the given chain and offers no client authentication.
/// Whether it is built is not claimed: that depends on which provider the
/// process installed, and on whether rustls accepts the pair. The key is kept
/// by rustls only as a parsed signing key, so no clause speaks of it.
#[verifier::external_body]
fn single_cert_server_config(certs: Vec<Vec<u8>>, format: KeyFormat, der: Vec<u8>) -> (r: Result<Option<ServerConfig>, String>)
    ensures
        r matches Ok(Some(c)) ==> server_cert_chain(c) == bytes_list(certs@) && !server_offers_client_auth(c),
{
    let Some(provider) = CryptoProvider::get_default() else { return Ok(None) };
    let key = match format {
        KeyFormat::Pkcs1 => PrivateKeyDer::Pkcs1(der.into()),
        KeyFormat::Pkcs8 => PrivateKeyDer::Pkcs8(der.into()),
        KeyFormat::Sec1 => PrivateKeyDer::Sec1(der.into()),
    };
    let chain = certs.into_iter().map(CertificateDer::from).collect();
    let builder = ServerConfig::builder_with_provider(provider.clone())
        .with_protocol_versions(DEFAULT_VERSIONS)
        .map_err(|e| e.to_string())?;
    builder.with_no_client_auth().with_single_cert(chain, key).map(Some).map_err(|e| e.to_string())
}

/// Sets the `alpn_protocols` field of the rustls configuration; no other
/// field changes.
#[verifier::external_body]
fn set_alpn_protocols(config: &mut ServerConfig, protocols: Vec<Vec<u8>>)
    ensures
        server_alpn(*final(config)) == bytes_list(protocols@),
        server_max_early_data(*final(config)) == server_max_early_data(*old(config)),
        server_cert_chain(*final(config)) == server_cert_chain(*old(config)),
        server_offers_client_auth(*final(config)) == server_offers_client_auth(*old(config)),
{
    config.alpn_protocols = protocols;
}

/// Sets the `max_early_data_size` field of the rustls configuration; no
/// other field changes.
#[verifier::external_body]
fn set_max_early_data_size(config: &mut ServerConfig, size: u32)
    ensures
        server_max_early_data(*final(config)) == size,
        server_alpn(*final(config)) == server_alpn(*old(config)),
        server_cert_chain(*final(config)) == server_cert_chain(*old(config)),
        server_offers_client_auth(*final(config)) == server_offers_client_auth(*old(config)),
{
    config.max_early_data_size = size;
}

/// Calls `QuicServerConfig::try_from` on the rustls configuration, then
/// `quinn::ServerConfig::with_crypto`, and sets a transport configuration
/// whose idle timeout is `idle_timeout_ms` milliseconds. Claims of a built
/// configuration that its crypto wraps the rustls configuration unchanged
/// and that its idle timeout is the one given; whether quinn accepts the
/// rustls configuration (it needs an initial cipher suite of the provider)
/// is not claimed.
#[verifier::external_body]
fn quic_server_config(tls: ServerConfig, idle_timeout_ms: u32) -> (r: Result<quinn::ServerConfig, String>)
    ensures
        r matches Ok(c) ==> quinn_tls_config(c) == tls && quinn_idle_timeout_ms(c) == Some(idle_timeout_ms as int),
{
    let crypto = quinn::crypto::rustls::QuicServerConfig::try_from(tls).map_err(|e| e.to_string())?;
    let mut config = quinn::ServerConfig::with_crypto(Arc::new(crypto));
    let mut transport = quinn::TransportConfig::default();
    transport.max_idle_timeout(Some(quinn::IdleTimeout::from(quinn::VarInt::from_u32(idle_timeout_ms))));
    config.transport_config(Arc::new(transport));
    Ok(config)
}

/// The idle timeout of QUIC connections: 30 seconds.
pub const IDLE_TIMEOUT_MS: u32 = 30_000;

/// Why a QUIC configuration could not be built.
#[derive(Debug)]
pub enum ConfigError {
    /// The PEM data is malformed; the message says how.
    InvalidPem(String),
    /// The certificate data holds no certificate.
    NoCertificates,
    /// The key data holds no private key.
    NoPrivateKey,
    /// The private key is not usable; the detail says why.
    InvalidPrivateKey(String),
    /// The process has no crypto provider.
    NoCryptoProvider,
    /// rustls refused the configuration; the detail says why.
    Tls(String),
    /// quinn refused the TLS configuration; the detail says why.
    Quic(String),
}

impl ConfigError {
    /// The text of this error.
    pub fn message(&self) -> (m: String)
        ensures
            self matches ConfigError::InvalidPem(s) ==> m@ == s@,
            self matches ConfigError::NoCertificates ==> m@ == "no certificates found in PEM data"@,
            self matches ConfigError::NoPrivateKey ==> m@ == "no private key found in PEM data"@,
            self matches ConfigError::InvalidPrivateKey(s) ==> m@ == "invalid private key: "@ + s@,
            self matches ConfigError::NoCryptoProvider ==> m@ == "crypto provider must be set"@,
            self matches ConfigError::Tls(s) ==> m@ == "TLS config error: "@ + s@,
            self matches ConfigError::Quic(s) ==> m@ == "QUIC config error: "@ + s@,
    {
        match self {
            ConfigError::InvalidPem(s) => s.clone(),
            ConfigError::NoCertificates => "no certificates found in PEM data".to_owned(),
            ConfigError::NoPrivateKey => "no private key found in PEM data".to_owned(),
            ConfigError::InvalidPrivateKey(s) => "invalid private key: ".to_owned().concat(s.as_str()),
            ConfigError::NoCryptoProvider => "crypto provider must be set".to_owned(),
            ConfigError::Tls(s) => "TLS config error: ".to_owned().concat(s.as_str()),
            ConfigError::Quic(s) => "QUIC config error: ".to_owned().concat(s.as_str()),
        }
    }
}

/// The first error among the sections, or all their certificates.
pub open spec fn collect_certs(items: Seq<Result<Seq<u8>, Seq<char>>>) -> Result<Seq<Seq<u8>>, Seq<char>>
    decreases items.len(),
{
    if items.len() == 0 {
        Ok(Seq::empty())
    } else {
        match collect_certs(items.drop_last()) {
            Err(m) => Err(m),
            Ok(cs) => match items.last() {
                Ok(c) => Ok(cs.push(c)),
                Err(m) => Err(m),
            },
        }
    }
}

/// The private key formats, by PEM section kind.
pub open spec fn key_format_of(kind: PemKind) -> Option<KeyFormat> {
    match kind {
        PemKind::Pkcs1Key => Some(KeyFormat::Pkcs1),
        PemKind::Pkcs8Key => Some(KeyFormat::Pkcs8),
        PemKind::Sec1Key => Some(KeyFormat::Sec1),
        _ => None,
    }
}

/// What a search for the first private key finds.
pub enum KeyScan {
    Found(KeyFormat, Seq<u8>),
    Missing,
    Failed(Seq<char>),
}

/// The first private key in the PEM data `input`, skipping sections of other
/// kinds.
pub open spec fn first_private_key(input: Seq<u8>) -> KeyScan
    decreases input.len(),
{
    match pem_next(input) {
        PemStep::Failed(m) => KeyScan::Failed(m),
        PemStep::End => KeyScan::Missing,
        PemStep::Section(kind, der, rest) => match key_format_of(kind) {
            Some(f) => KeyScan::Found(f, der),
            None => if rest < input.len() {
                first_private_key(input.subrange(input.len() - rest, input.len() as int))
            } else {
                KeyScan::Missing
            },
        },
    }
}

/// The settings of a rustls server configuration, as plain values.
#[derive(Debug)]
pub struct TlsSettings {
    pub certs: Vec<Vec<u8>>,
    pub key_format: KeyFormat,
    pub key_der: Vec<u8>,
    pub alpn_protocols: Vec<Vec<u8>>,
    pub max_early_data_size: u32,
}

/// A list of byte strings, as values.
pub open spec fn bytes_list(v: Seq<Vec<u8>>) -> Seq<Seq<u8>> {
    v.map_values(|b: Vec<u8>| b@)
}

/// `r` is what the configuration made of the certificate data `cert`, the key
/// data `key` and the ALPN protocols `alpn` gives: its first PEM error, no
/// certificate, no private key, an unusable key, or the settings.
pub open spec fn settings_outcome(
    cert: Seq<u8>,
    key: Seq<u8>,
    alpn: Seq<Seq<u8>>,
    r: Result<TlsSettings, ConfigError>,
) -> bool {
    match collect_certs(pem_certs(cert)) {
        Err(m) => (r matches Err(ConfigError::InvalidPem(s)) && s@ == m),
        Ok(cs) => {
            if cs.len() == 0 {
                (r matches Err(ConfigError::NoCertificates))
            } else {
                key_outcome(cs, key, alpn, r)
            }
        },
    }
}

/// `r` is what the configuration gives once the certificates `cs` are read:
/// see [`settings_outcome`].
pub open spec fn key_outcome(
    cs: Seq<Seq<u8>>,
    key: Seq<u8>,
    alpn: Seq<Seq<u8>>,
    r: Result<TlsSettings, ConfigError>,
) -> bool {
    match first_private_key(key) {
        KeyScan::Failed(m) => (r matches Err(ConfigError::InvalidPem(s)) && s@ == m),
        KeyScan::Missing => (r matches Err(ConfigError::NoPrivateKey)),
        KeyScan::Found(f, der) => {
            if !key_is_supported(f, der) {
                (r matches Err(ConfigError::InvalidPrivateKey(_)))
            } else {
                (r matches Ok(t) && bytes_list(t.certs@) == cs && t.key_format == f && t.key_der@
                    == der && bytes_list(t.alpn_protocols@) == alpn && t.max_early_data_size
                    == u32::MAX)
            }
        },
    }
}

/// `r` is a configuration built from the settings: either the error that
/// the settings give, or, where they are made, the configuration or the error
/// of rustls or of the missing crypto provider.
pub open spec fn built_from_settings<C>(
    cert: Seq<u8>,
    key: Seq<u8>,
    alpn: Seq<Seq<u8>>,
    r: Result<C, ConfigError>,
) -> bool {
    ||| (r matches Err(e) && settings_outcome(cert, key, alpn, Err(e)))
    ||| ((exists|t: TlsSettings| #[trigger] settings_outcome(cert, key, alpn, Ok(t))) && (r is Ok
        || r matches Err(ConfigError::Tls(_)) || r matches Err(ConfigError::NoCryptoProvider)))
}

/// Configuration for a QUIC/HTTP3 server: a certificate chain and a private
/// key in PEM format, and the ALPN protocols.
#[derive(Clone)]
pub struct QuinnConfig {
    cert: Vec<u8>,
    key: Vec<u8>,
    alpn_protocols: Vec<Vec<u8>>,
}

/// The ALPN protocol of HTTP/3.
pub open spec fn h3_alpn() -> Seq<u8> {
    seq![104u8, 51u8]
}

impl QuinnConfig {
    /// The certificate chain, in PEM format.
    pub closed spec fn spec_cert(self) -> Seq<u8> {
        self.cert@
    }

    /// The private key, in PEM format.
    pub closed spec fn spec_key(self) -> Seq<u8> {
        self.key@
    }

    /// The ALPN protocols.
    pub closed spec fn spec_alpn(self) -> Seq<Seq<u8>> {
        bytes_list(self.alpn_protocols@)
    }

    /// Creates a configuration with no certificate, no key, and the ALPN
    /// protocol `h3`.
    pub fn new() -> (c: Self)
        ensures
            c.spec_cert().len() == 0,
            c.spec_key().len() == 0,
            c.spec_alpn() == seq![h3_alpn()],
    {
        let mut h3: Vec<u8> = Vec::new();
        h3.push(104u8);
        h3.push(51u8);
        let mut alpn: Vec<Vec<u8>> = Vec::new();
        alpn.push(h3);
        let c = Self { cert: Vec::new(), key: Vec::new(), alpn_protocols: alpn };
        assert(c.alpn_protocols@[0]@ =~= h3_alpn());
        assert(c.spec_alpn() =~= seq![h3_alpn()]);
        c
    }

    /// Sets the certificate chain in PEM format.
    pub fn cert(self, cert: Vec<u8>) -> (c: Self)
        ensures
            c.spec_cert() == cert@,
            c.spec_key() == self.spec_key(),
            c.spec_alpn() == self.spec_alpn(),
    {
        Self { cert, ..self }
    }

    /// Sets the private key in PEM format.
    pub fn key(self, key: Vec<u8>) -> (c: Self)
        ensures
            c.spec_key() == key@,
            c.spec_cert() == self.spec_cert(),
            c.spec_alpn() == self.spec_alpn(),
    {
        Self { key, ..self }
    }

    /// Sets the ALPN protocols. The default is `["h3"]`.
    pub fn alpn_protocols(self, protocols: Vec<Vec<u8>>) -> (c: Self)
        ensures
            c.spec_alpn() == bytes_list(protocols@),
            c.spec_cert() == self.spec_cert(),
            c.spec_key() == self.spec_key(),
    {
        Self { alpn_protocols: protocols, ..self }
    }

    /// The certificate chain, in PEM format.
    pub fn cert_pem(&self) -> (c: &[u8])
        ensures
            c@ == self.spec_cert(),
    {
        self.cert.as_slice()
    }

    /// The private key, in PEM format.
    pub fn key_pem(&self) -> (k: &[u8])
        ensures
            k@ == self.spec_key(),
    {
        self.key.as_slice()
    }

    /// The ALPN protocols.
    pub fn alpn(&self) -> (a: Vec<Vec<u8>>)
        ensures
            bytes_list(a@) == self.spec_alpn(),
    {
        clone_bytes_list(&self.alpn_protocols)
    }

    /// The settings of the rustls server configuration: the certificates of
    /// the certificate data, the first private key of the key data, the ALPN
    /// protocols, and unlimited early data.
    pub fn tls_settings(&self) -> (r: Result<TlsSettings, ConfigError>)
        ensures
            settings_outcome(self.spec_cert(), self.spec_key(), self.spec_alpn(), r),
    {
        let sections = pem_cert_sections(self.cert.as_slice());
        let certs = match collect_cert_sections(&sections) {
            Ok(certs) => certs,
            Err(m) => return Err(ConfigError::InvalidPem(m)),
        };
        if certs.len() == 0 {
            return Err(ConfigError::NoCertificates);
        }
        let (format, der) = match find_private_key(self.key.as_slice()) {
            Ok(Some(k)) => k,
            Ok(None) => return Err(ConfigError::NoPrivateKey),
            Err(m) => return Err(ConfigError::InvalidPem(m)),
        };
        match check_private_key(format, &der) {
            Ok(()) => {},
            Err(e) => return Err(ConfigError::InvalidPrivateKey(e)),
        }
        let alpn = clone_bytes_list(&self.alpn_protocols);
        Ok(TlsSettings {
            certs,
            key_format: format,
            key_der: der,
            alpn_protocols: alpn,
            max_early_data_size: u32::MAX,
        })
    }

    /// `c` is a rustls server configuration made from this configuration: it
    /// presents the certificates of the certificate data, offers the ALPN
    /// protocols, accepts unlimited early data and asks for no client
    /// certificate.
    pub open spec fn configures(self, c: ServerConfig) -> bool {
        &&& collect_certs(pem_certs(self.spec_cert())) == Ok::<Seq<Seq<u8>>, Seq<char>>(server_cert_chain(c))
        &&& server_alpn(c) == self.spec_alpn()
        &&& server_max_early_data(c) == u32::MAX
        &&& !server_offers_client_auth(c)
    }

    /// Builds the rustls server configuration.
    ///
    /// It fails as [`tls_settings`](Self::tls_settings) does; past that,
    /// whether rustls accepts the certificates and key is not stated. A built
    /// configuration holds the settings.
    pub fn build_server_config(&self) -> (r: Result<ServerConfig, ConfigError>)
        ensures
            built_from_settings(self.spec_cert(), self.spec_key(), self.spec_alpn(), r),
            r matches Ok(c) ==> self.configures(c),
    {
        let settings = match self.tls_settings() {
            Ok(s) => s,
            Err(e) => return Err(e),
        };
        ensure_crypto_provider();
        let mut config = match single_cert_server_config(settings.certs, settings.key_format, settings.key_der) {
            Ok(Some(c)) => c,
            Ok(None) => return Err(ConfigError::NoCryptoProvider),
            Err(e) => return Err(ConfigError::Tls(e)),
        };
        set_alpn_protocols(&mut config, settings.alpn_protocols);
        set_max_early_data_size(&mut config, settings.max_early_data_size);
        Ok(config)
    }

    /// Builds the quinn server configuration: the rustls configuration, and
    /// an idle timeout of 30 seconds.
    pub fn build_quinn_config(&self) -> (r: Result<quinn::ServerConfig, ConfigError>)
        ensures
            built_from_settings(self.spec_cert(), self.spec_key(), self.spec_alpn(), r)
                || (r matches Err(ConfigError::Quic(_)) && exists|t: TlsSettings| #[trigger]
                settings_outcome(self.spec_cert(), self.spec_key(), self.spec_alpn(), Ok(t))),
            r matches Ok(q) ==> self.configures(quinn_tls_config(q)) && quinn_idle_timeout_ms(q)
                == Some(IDLE_TIMEOUT_MS as int),
    {
        let tls = match self.build_server_config() {
            Ok(t) => t,
            Err(e) => return Err(e),
        };
        match quic_server_config(tls, IDLE_TIMEOUT_MS) {
            Ok(c) => Ok(c),
            Err(e) => Err(ConfigError::Quic(e)),
        }
    }
}

impl Default for QuinnConfig {
    fn default() -> (c: Self)
        ensures
            c.spec_cert().len() == 0,
            c.spec_key().len() == 0,
            c.spec_alpn() == seq![h3_alpn()],
    {
        Self::new()
    }
}

/// A copy of a byte string.
fn clone_bytes(v: &Vec<u8>) -> (r: Vec<u8>)
    ensures
        r@ == v@,
{
    let r = v.clone();
    assert(r@ =~= v@);
    r
}

/// A copy of a list of byte strings.
fn clone_bytes_list(v: &Vec<Vec<u8>>) -> (r: Vec<Vec<u8>>)
    ensures
        bytes_list(r@) == bytes_list(v@),
{
    let mut r: Vec<Vec<u8>> = Vec::new();
    let mut i: usize = 0;
    while i < v.len()
        invariant
            i <= v@.len(),
            r@.len() == i,
            bytes_list(r@) == bytes_list(v@).take(i as int),
        decreases v@.len() - i,
    {
        let ghost r0 = r@;
        r.push(clone_bytes(&v[i]));
        assert forall|j: int| 0 <= j < i + 1 implies #[trigger] bytes_list(r@)[j] == bytes_list(v@).take(i + 1)[j] by {
            if j < i {
                assert(r@[j] == r0[j]);
                assert(bytes_list(r0)[j] == bytes_list(v@).take(i as int)[j]);
            }
        }
        assert(bytes_list(r@) =~= bytes_list(v@).take(i + 1));
        i = i + 1;
    }
    assert(bytes_list(v@).take(v@.len() as int) =~= bytes_list(v@));
    r
}

/// The certificates of the sections, or the first error among them.
fn collect_cert_sections(items: &Vec<Result<Vec<u8>, String>>) -> (r: Result<Vec<Vec<u8>>, String>)
    ensures
        match collect_certs(sections_view(items@)) {
            Ok(cs) => (r matches Ok(v) && bytes_list(v@) == cs),
            Err(m) => (r matches Err(s) && s@ == m),
        },
{
    let ghost all = sections_view(items@);
    let mut certs: Vec<Vec<u8>> = Vec::new();
    let mut i: usize = 0;
    while i < items.len()
        invariant
            i <= items@.len(),
            all == sections_view(items@),
            collect_certs(all.take(i as int)) matches Ok(cs) && bytes_list(certs@) == cs,
        decreases items@.len() - i,
    {
        assert(all.take(i + 1).drop_last() =~= all.take(i as int));
        match &items[i] {
            Ok(c) => {
                certs.push(clone_bytes(c));
                assert(bytes_list(certs@) =~= bytes_list(certs@).drop_last().push(c@));
            },
            Err(m) => {
                proof {
                    lemma_collect_certs_error_persists(all, i + 1);
                }
                return Err(m.clone());
            },
        }
        i = i + 1;
    }
    assert(all.take(items@.len() as int) =~= all);
    Ok(certs)
}

/// Once the sections up to `k` hold an error, the first error of all of them
/// is that error.
proof fn lemma_collect_certs_error_persists(items: Seq<Result<Seq<u8>, Seq<char>>>, k: int)
    requires
        0 <= k <= items.len(),
        collect_certs(items.take(k)) is Err,
    ensures
        collect_certs(items) == collect_certs(items.take(k)),
    decreases items.len() - k,
{
    if k < items.len() {
        assert(items.take(k + 1).drop_last() =~= items.take(k));
        lemma_collect_certs_error_persists(items, k + 1);
    } else {
        assert(items.take(k) =~= items);
    }
}

/// The first private key in the PEM data, skipping sections of other kinds.
fn find_private_key(data: &[u8]) -> (r: Result<Option<(KeyFormat, Vec<u8>)>, String>)
    ensures
        match first_private_key(data@) {
            KeyScan::Found(f, der) => (r matches Ok(Some(k)) && k.0 == f && k.1@ == der),
            KeyScan::Missing => (r matches Ok(None)),
            KeyScan::Failed(m) => (r matches Err(s) && s@ == m),
        },
{
    let n = data.len();
    let mut start: usize = 0;
    assert(data@.subrange(0, n as int) =~= data@);
    while start <= n
        invariant
            n == data@.len(),
            start <= n,
            first_private_key(data@.subrange(start as int, n as int)) == first_private_key(data@),
        decreases n - start,
    {
        let ghost input = data@.subrange(start as int, n as int);
        match pem_read_one(data, start) {
            PemRead::Failed(m) => return Err(m),
            PemRead::End => return Ok(None),
            PemRead::Section(kind, der, rest) => {
                match kind {
                    PemKind::Pkcs1Key => return Ok(Some((KeyFormat::Pkcs1, der))),
                    PemKind::Pkcs8Key => return Ok(Some((KeyFormat::Pkcs8, der))),
                    PemKind::Sec1Key => return Ok(Some((KeyFormat::Sec1, der))),
                    _ => {},
                }
                assert(input.subrange(input.len() - rest, input.len() as int) =~= data@.subrange(
                    n - rest,
                    n as int,
                ));
                start = n - rest;
            },
        }
    }
    Ok(None)
}

/// Installs the aws-lc-rs crypto provider as the process's default where the
/// process has none.
fn ensure_crypto_provider() {
    if !crypto_provider_installed() {
        install_aws_lc_provider();
    }
}

} // verus!
