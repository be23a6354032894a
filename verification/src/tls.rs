//! TLS settings: what the TLS engine is configured with for a fingerprint,
//! a certificate policy and an HTTP version ceiling.
//!
//! The engine itself is not part of this library. [`TlsConfigBuilder::build`]
//! computes every decision as plain data, list orders included, and the
//! caller hands the result to the engine.

use crate::emulation::Browser;
use crate::fingerprint::database::fingerprint_model;
use crate::fingerprint::database::get_fingerprint;
use crate::fingerprint::CertificateCompressionAlgorithm;
use crate::fingerprint::copy_list;
use crate::fingerprint::copy_protocols;
use crate::fingerprint::CipherSuite;
use crate::fingerprint::EchMode;
use crate::fingerprint::ExtensionType;
use crate::fingerprint::HpkeKemId;
use crate::fingerprint::KeyExchangeGroup;
use crate::fingerprint::SignatureAlgorithm;
use crate::fingerprint::TlsFingerprint;
use crate::fingerprint::TlsFingerprintView;
use vstd::prelude::*;

verus! {

/// The extension switches of the engine.
#[derive(Clone, Copy, Debug, PartialEq, Eq, Hash, Structural)]
pub struct EngineExtensions {
    pub grease: bool,
    pub signed_certificate_timestamp: bool,
    pub application_settings: bool,
    pub delegated_credentials: bool,
    pub record_size_limit: Option<u16>,
    pub renegotiation_info: bool,
}

/// A ClientHello shape in the terms of the engine.
#[derive(Clone, Debug, PartialEq, Eq, Hash)]
pub struct EngineFingerprint {
    pub cipher_suites: Vec<CipherSuite>,
    pub key_exchange_groups: Vec<KeyExchangeGroup>,
    pub signature_algorithms: Vec<SignatureAlgorithm>,
    pub extensions: EngineExtensions,
    pub alpn_protocols: Vec<Vec<u8>>,
    pub cert_compression: Option<Vec<CertificateCompressionAlgorithm>>,
}

/// Model of an [`EngineFingerprint`].
pub struct EngineFingerprintView {
    pub cipher_suites: Seq<CipherSuite>,
    pub key_exchange_groups: Seq<KeyExchangeGroup>,
    pub signature_algorithms: Seq<SignatureAlgorithm>,
    pub extensions: EngineExtensions,
    pub alpn_protocols: Seq<Seq<u8>>,
    pub cert_compression: Option<Seq<CertificateCompressionAlgorithm>>,
}

impl View for EngineFingerprint {
    type V = EngineFingerprintView;

    open spec fn view(&self) -> EngineFingerprintView {
        EngineFingerprintView {
            cipher_suites: self.cipher_suites@,
            key_exchange_groups: self.key_exchange_groups@,
            signature_algorithms: self.signature_algorithms@,
            extensions: self.extensions,
            alpn_protocols: self.alpn_protocols.deep_view(),
            cert_compression: match self.cert_compression {
                Some(list) => Some(list@),
                None => None,
            },
        }
    }
}

/// A fingerprint put into the terms of the engine. Every
/// list goes over unchanged and in its order. The engine sends GREASE
/// values exactly when the extension order lists a GREASE extension, and
/// renegotiation info always.
pub open spec fn engine_fingerprint(fp: TlsFingerprintView) -> EngineFingerprintView {
    EngineFingerprintView {
        cipher_suites: fp.cipher_suites,
        key_exchange_groups: fp.key_exchange_groups,
        signature_algorithms: fp.signature_algorithms,
        extensions: EngineExtensions {
            grease: fp.extensions.extension_order.contains(ExtensionType::Grease),
            signed_certificate_timestamp: fp.extensions.signed_certificate_timestamp,
            application_settings: fp.extensions.application_settings,
            delegated_credentials: fp.extensions.delegated_credentials,
            record_size_limit: fp.extensions.record_size_limit,
            renegotiation_info: true,
        },
        alpn_protocols: fp.alpn_protocols,
        cert_compression: fp.extensions.compress_certificate,
    }
}

/// Whether a list of extensions holds a GREASE extension.
fn lists_grease(order: &[ExtensionType]) -> (r: bool)
    ensures
        r == order@.contains(ExtensionType::Grease),
{
    let mut i: usize = 0;
    while i < order.len()
        invariant
            i <= order.len(),
            forall|j: int| 0 <= j < i ==> order@[j] != ExtensionType::Grease,
        decreases order.len() - i,
    {
        match order[i] {
            ExtensionType::Grease => {
                assert(order@[i as int] == ExtensionType::Grease);
                return true;
            },
            _ => {},
        }
        i += 1;
    }
    false
}

impl TlsFingerprint {
    /// Puts this fingerprint into the terms of the TLS engine.
    pub fn to_rustls_fingerprint(&self) -> (r: EngineFingerprint)
        ensures
            r@ == engine_fingerprint(self@),
    {
        let cipher_suites = copy_list(self.cipher_suites());
        let key_exchange_groups = copy_list(self.key_exchange_groups());
        let signature_algorithms = copy_list(self.signature_algorithms());
        let extensions = EngineExtensions {
            grease: lists_grease(self.extensions().extension_order()),
            signed_certificate_timestamp: self.extensions().signed_certificate_timestamp(),
            application_settings: self.extensions().application_settings(),
            delegated_credentials: self.extensions().delegated_credentials(),
            record_size_limit: self.extensions().record_size_limit(),
            renegotiation_info: true,
        };
        let alpn_protocols = copy_protocols(self.alpn_protocols());
        let cert_compression = match self.extensions().compress_certificate() {
            Some(list) => Some(copy_list(list)),
            None => None,
        };
        assert(alpn_protocols.deep_view() =~= self@.alpn_protocols);
        EngineFingerprint {
            cipher_suites,
            key_exchange_groups,
            signature_algorithms,
            extensions,
            alpn_protocols,
            cert_compression,
        }
    }
}

/// The highest HTTP version that the client negotiates.
#[derive(Clone, Copy, Debug, PartialEq, Eq, Hash, Structural)]
pub enum HttpVersionCeiling {
    Http2,
    Http3,
}

/// How the Encrypted Client Hello extension is filled.
#[derive(Clone, Debug, PartialEq, Eq, Hash)]
pub enum EchSetting {
    /// A placeholder that looks like the real extension.
    Grease(HpkeKemId),
    /// The given configuration list.
    Real(Vec<u8>),
}

/// Model of an [`EchSetting`].
pub enum EchSettingView {
    Grease(HpkeKemId),
    Real(Seq<u8>),
}

impl View for EchSetting {
    type V = EchSettingView;

    open spec fn view(&self) -> EchSettingView {
        match self {
            EchSetting::Grease(suite) => EchSettingView::Grease(*suite),
            EchSetting::Real(list) => EchSettingView::Real(list@),
        }
    }
}

/// Who decides whether a server certificate is accepted.
#[derive(Clone, Debug, PartialEq, Eq, Hash)]
pub enum CertificatePolicy {
    /// The platform's verifier, with the bundled roots beside it.
    Verify,
    /// Every certificate is accepted. The verifier still announces the
    /// signature algorithms of the fingerprint: `None` stands for those of
    /// the engine.
    AcceptAny(Option<Vec<SignatureAlgorithm>>),
}

/// Model of a [`CertificatePolicy`].
pub enum CertificatePolicyView {
    Verify,
    AcceptAny(Option<Seq<SignatureAlgorithm>>),
}

impl View for CertificatePolicy {
    type V = CertificatePolicyView;

    open spec fn view(&self) -> CertificatePolicyView {
        match self {
            CertificatePolicy::Verify => CertificatePolicyView::Verify,
            CertificatePolicy::AcceptAny(list) => CertificatePolicyView::AcceptAny(
                match list {
                    Some(l) => Some(l@),
                    None => None,
                },
            ),
        }
    }
}

/// Everything the TLS engine is configured with.
#[derive(Clone, Debug, PartialEq, Eq, Hash)]
pub struct TlsSettings {
    /// The ClientHello shape; `None` leaves the engine as it is.
    pub fingerprint: Option<EngineFingerprint>,
    pub ech: EchSetting,
    pub certificates: CertificatePolicy,
    /// The ALPN protocols that replace those of the engine and of the
    /// fingerprint, where there are any.
    pub alpn_override: Option<Vec<Vec<u8>>>,
}

/// Model of a [`TlsSettings`].
pub struct TlsSettingsView {
    pub fingerprint: Option<EngineFingerprintView>,
    pub ech: EchSettingView,
    pub certificates: CertificatePolicyView,
    pub alpn_override: Option<Seq<Seq<u8>>>,
}

impl View for TlsSettings {
    type V = TlsSettingsView;

    open spec fn view(&self) -> TlsSettingsView {
        TlsSettingsView {
            fingerprint: match self.fingerprint {
                Some(fp) => Some(fp@),
                None => None,
            },
            ech: self.ech@,
            certificates: self.certificates@,
            alpn_override: match self.alpn_override {
                Some(list) => Some(list.deep_view()),
                None => None,
            },
        }
    }
}

/// Model of a [`TlsConfigBuilder`].
pub struct TlsConfigBuilderView {
    pub browser: Option<Browser>,
    pub tls_fingerprint: Option<TlsFingerprintView>,
    pub max_http_version: HttpVersionCeiling,
    pub ignore_tls_errors: bool,
}

/// The ALPN token of HTTP/3, `h3`.
pub open spec fn alpn_h3() -> Seq<u8> {
    seq![0x68u8, 0x33u8]
}

/// The fingerprint that the settings are built from: the one that was set,
/// else that of the database entry of the browser, else none.
pub open spec fn selected_fingerprint(builder: TlsConfigBuilderView) -> Option<TlsFingerprintView> {
    match builder.tls_fingerprint {
        Some(fp) => Some(fp),
        None => match builder.browser {
            Some(browser) => Some(fingerprint_model(browser).tls),
            None => None,
        },
    }
}

/// How the Encrypted Client Hello extension is filled for a fingerprint:
/// with the fingerprint's configuration list where it asks for the real
/// extension and has one, and with a placeholder otherwise.
pub open spec fn ech_for(fp: Option<TlsFingerprintView>) -> EchSettingView {
    match fp {
        Some(f) => match f.ech_config {
            Some(ech) => if ech.mode == EchMode::Real && ech.config_list.is_some() {
                EchSettingView::Real(ech.config_list.unwrap())
            } else {
                match ech.mode {
                    EchMode::Grease { hpke_suite } => EchSettingView::Grease(hpke_suite),
                    _ => EchSettingView::Grease(HpkeKemId::DhKemX25519HkdfSha256),
                }
            },
            None => EchSettingView::Grease(HpkeKemId::DhKemX25519HkdfSha256),
        },
        None => EchSettingView::Grease(HpkeKemId::DhKemX25519HkdfSha256),
    }
}

/// The settings that a builder stands for.
pub open spec fn settings_for(builder: TlsConfigBuilderView) -> TlsSettingsView {
    settings_of(
        selected_fingerprint(builder),
        builder.ignore_tls_errors,
        builder.max_http_version,
    )
}

/// The settings for a selected fingerprint. With a fingerprint the engine
/// gets it in its own terms; without one it is left as it is. A client that
/// accepts any certificate still announces the signature algorithms of the
/// fingerprint. A ceiling of HTTP/3 replaces the ALPN protocols by the
/// single token `h3`.
pub open spec fn settings_of(
    selected: Option<TlsFingerprintView>,
    ignore_tls_errors: bool,
    ceiling: HttpVersionCeiling,
) -> TlsSettingsView {
    TlsSettingsView {
        fingerprint: match selected {
            Some(fp) => Some(engine_fingerprint(fp)),
            None => None,
        },
        ech: ech_for(selected),
        certificates: if ignore_tls_errors {
            CertificatePolicyView::AcceptAny(
                match selected {
                    Some(fp) => Some(fp.signature_algorithms),
                    None => None,
                },
            )
        } else {
            CertificatePolicyView::Verify
        },
        alpn_override: if ceiling == HttpVersionCeiling::Http3 {
            Some(seq![alpn_h3()])
        } else {
            None
        },
    }
}

/// Entry point to the TLS settings.
#[derive(Debug)]
pub struct TlsConfig {}

impl TlsConfig {
    /// A builder with no fingerprint, HTTP/2 as the ceiling, and
    /// certificate verification on.
    pub fn builder() -> (r: TlsConfigBuilder)
        ensures
            r@ == (TlsConfigBuilderView {
                browser: None,
                tls_fingerprint: None,
                max_http_version: HttpVersionCeiling::Http2,
                ignore_tls_errors: false,
            }),
    {
        TlsConfigBuilder::default()
    }
}

/// Collects what the TLS settings depend on.
#[derive(Debug, Clone)]
pub struct TlsConfigBuilder {
    browser: Option<Browser>,
    tls_fingerprint: Option<TlsFingerprint>,
    max_http_version: HttpVersionCeiling,
    ignore_tls_errors: bool,
}

impl View for TlsConfigBuilder {
    type V = TlsConfigBuilderView;

    closed spec fn view(&self) -> TlsConfigBuilderView {
        TlsConfigBuilderView {
            browser: self.browser,
            tls_fingerprint: match self.tls_fingerprint {
                Some(fp) => Some(fp@),
                None => None,
            },
            max_http_version: self.max_http_version,
            ignore_tls_errors: self.ignore_tls_errors,
        }
    }
}

impl Default for TlsConfigBuilder {
    fn default() -> (r: Self)
        ensures
            r@ == (TlsConfigBuilderView {
                browser: None,
                tls_fingerprint: None,
                max_http_version: HttpVersionCeiling::Http2,
                ignore_tls_errors: false,
            }),
    {
        TlsConfigBuilder {
            browser: None,
            tls_fingerprint: None,
            max_http_version: HttpVersionCeiling::Http2,
            ignore_tls_errors: false,
        }
    }
}

/// The settings of the Encrypted Client Hello extension for a fingerprint.
fn ech_setting(fp: Option<&TlsFingerprint>) -> (r: EchSetting)
    ensures
        r@ == ech_for(fingerprint_view(fp)),
{
    match fp {
        Some(f) => match f.ech_config() {
            Some(ech) => {
                if ech.is_real() {
                    match ech.config_list() {
                        Some(list) => {
                            return EchSetting::Real(copy_list(list));
                        },
                        None => {},
                    }
                }
                match ech.mode() {
                    EchMode::Grease { hpke_suite } => EchSetting::Grease(*hpke_suite),
                    _ => EchSetting::Grease(HpkeKemId::DhKemX25519HkdfSha256),
                }
            },
            None => EchSetting::Grease(HpkeKemId::DhKemX25519HkdfSha256),
        },
        None => EchSetting::Grease(HpkeKemId::DhKemX25519HkdfSha256),
    }
}

impl TlsConfigBuilder {
    /// Selects the browser whose database entry gives the fingerprint,
    /// unless a fingerprint is set.
    pub fn with_browser(&mut self, browser: Option<Browser>) -> (r: &mut Self)
        ensures
            final(self)@ == final(r)@,
            r@ == (TlsConfigBuilderView { browser, ..old(self)@ }),
    {
        self.browser = browser;
        self
    }

    /// Sets the TLS fingerprint directly.
    /// This takes precedence over the browser parameter.
    pub fn with_tls_fingerprint(&mut self, fingerprint: TlsFingerprint) -> (r: &mut Self)
        ensures
            final(self)@ == final(r)@,
            r@ == (TlsConfigBuilderView { tls_fingerprint: Some(fingerprint@), ..old(self)@ }),
    {
        self.tls_fingerprint = Some(fingerprint);
        self
    }

    /// Sets or removes the TLS fingerprint.
    pub fn with_fingerprint(&mut self, fingerprint: Option<TlsFingerprint>) -> (r: &mut Self)
        ensures
            final(self)@ == final(r)@,
            r@ == (TlsConfigBuilderView {
                tls_fingerprint: match fingerprint {
                    Some(fp) => Some(fp@),
                    None => None,
                },
                ..old(self)@
            }),
    {
        self.tls_fingerprint = fingerprint;
        self
    }

    /// Raises the ceiling to HTTP/3.
    pub fn with_http3(&mut self) -> (r: &mut Self)
        ensures
            final(self)@ == final(r)@,
            r@ == (TlsConfigBuilderView {
                max_http_version: HttpVersionCeiling::Http3,
                ..old(self)@
            }),
    {
        self.max_http_version = HttpVersionCeiling::Http3;
        self
    }

    /// Switches certificate verification off or on.
    pub fn with_ignore_tls_errors(&mut self, ignore_tls_errors: bool) -> (r: &mut Self)
        ensures
            final(self)@ == final(r)@,
            r@ == (TlsConfigBuilderView { ignore_tls_errors, ..old(self)@ }),
    {
        self.ignore_tls_errors = ignore_tls_errors;
        self
    }

    /// Computes the settings of the TLS engine.
    pub fn build(self) -> (r: TlsSettings)
        ensures
            r@ == settings_for(self@),
    {
        let ignore = self.ignore_tls_errors;
        let ceiling = self.max_http_version;
        match self.tls_fingerprint {
            Some(fp) => tls_settings(Some(&fp), ignore, ceiling),
            None => match self.browser {
                Some(browser) => {
                    let entry = get_fingerprint(browser);
                    tls_settings(Some(entry.tls()), ignore, ceiling)
                },
                None => tls_settings(None, ignore, ceiling),
            },
        }
    }
}

/// Model of an optional fingerprint.
pub open spec fn fingerprint_view(fp: Option<&TlsFingerprint>) -> Option<TlsFingerprintView> {
    match fp {
        Some(f) => Some(f@),
        None => None,
    }
}

/// Computes the settings of the TLS engine for the fingerprint that was
/// selected, if any.
pub fn tls_settings(fp: Option<&TlsFingerprint>, ignore_tls_errors: bool, ceiling: HttpVersionCeiling) -> (r:
    TlsSettings)
    ensures
        r@ == settings_of(fingerprint_view(fp), ignore_tls_errors, ceiling),
{
    let alpn_override = match ceiling {
        HttpVersionCeiling::Http3 => {
            let h3: Vec<u8> = vec![0x68u8, 0x33u8];
            let list = vec![h3];
            proof {
                assert(list[0]@ =~= alpn_h3());
                assert(list[0].deep_view() =~= alpn_h3());
                assert(list.deep_view() =~= seq![alpn_h3()]);
            }
            Some(list)
        },
        HttpVersionCeiling::Http2 => None,
    };
    let fingerprint = match fp {
        Some(f) => Some(f.to_rustls_fingerprint()),
        None => None,
    };
    let certificates = if ignore_tls_errors {
        CertificatePolicy::AcceptAny(
            match fp {
                Some(f) => Some(copy_list(f.signature_algorithms())),
                None => None,
            },
        )
    } else {
        CertificatePolicy::Verify
    };
    TlsSettings { fingerprint, ech: ech_setting(fp), certificates, alpn_override }
}

} // verus!
