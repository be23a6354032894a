//! Browser fingerprint data structures.
//!
//! A fingerprint is the observable shape of a browser on the network: the TLS
//! ClientHello, the HTTP/2 connection preface and the default HTTP headers.
//! Every structure here is immutable after construction and has a
//! mathematical view over sequences; list order is part of the value.

pub mod database;
pub mod types;

use vstd::prelude::*;
pub use types::CertificateCompressionAlgorithm;
pub use types::CipherSuite;
pub use types::ExtensionType;
pub use types::HpkeKemId;
pub use types::KeyExchangeGroup;
pub use types::SignatureAlgorithm;

verus! {

/// Initial flow-control window that HTTP/2 assumes when a peer sends no
/// setting for it.
pub const DEFAULT_WINDOW_SIZE: u32 = 65_535;

/// HPACK table size that HTTP/2 assumes when a peer sends no setting for it.
pub const DEFAULT_HEADER_TABLE_SIZE: u32 = 4_096;

/// Largest frame payload that HTTP/2 assumes when a peer sends no setting
/// for it.
pub const DEFAULT_MAX_FRAME_SIZE: u32 = 16_384;

/// Copies a list of plain values.
pub(crate) fn copy_list<T: Copy>(source: &[T]) -> (r: Vec<T>)
    ensures
        r@ == source@,
{
    let mut out: Vec<T> = Vec::new();
    let mut i: usize = 0;
    while i < source.len()
        invariant
            i <= source.len(),
            out@ == source@.take(i as int),
        decreases source.len() - i,
    {
        out.push(source[i]);
        assert(out@ =~= source@.take(i + 1));
        i += 1;
    }
    assert(source@.take(i as int) =~= source@);
    out
}

/// Copies a list of protocol names.
pub(crate) fn copy_protocols(source: &[Vec<u8>]) -> (r: Vec<Vec<u8>>)
    ensures
        r.deep_view() == Seq::new(source@.len(), |i: int| source@[i]@),
{
    let mut out: Vec<Vec<u8>> = Vec::new();
    let mut i: usize = 0;
    while i < source.len()
        invariant
            i <= source.len(),
            out.len() == i,
            forall|j: int| 0 <= j < i ==> (#[trigger] out@[j])@ == source@[j]@,
        decreases source.len() - i,
    {
        let name = copy_list(source[i].as_slice());
        out.push(name);
        i += 1;
    }
    assert forall|j: int| 0 <= j < out.len() implies #[trigger] out.deep_view()[j]
        == source@[j]@ by {
        assert(out@[j].deep_view() =~= out@[j]@);
    }
    assert(out.deep_view() =~= Seq::new(source@.len(), |i: int| source@[i]@));
    out
}

/// Copies a list of texts.
pub(crate) fn copy_texts(source: &[String]) -> (r: Vec<String>)
    ensures
        r.deep_view() == Seq::new(source@.len(), |i: int| source@[i]@),
{
    let mut out: Vec<String> = Vec::new();
    let mut i: usize = 0;
    while i < source.len()
        invariant
            i <= source.len(),
            out.len() == i,
            forall|j: int| 0 <= j < i ==> (#[trigger] out@[j])@ == source@[j]@,
        decreases source.len() - i,
    {
        out.push(source[i].clone());
        i += 1;
    }
    assert(out.deep_view() =~= Seq::new(source@.len(), |i: int| source@[i]@));
    out
}

/// Copies a list of headers.
pub(crate) fn copy_pairs(source: &[(String, String)]) -> (r: Vec<(String, String)>)
    ensures
        r.deep_view() == Seq::new(source@.len(), |i: int| (source@[i].0@, source@[i].1@)),
{
    let mut out: Vec<(String, String)> = Vec::new();
    let mut i: usize = 0;
    while i < source.len()
        invariant
            i <= source.len(),
            out.len() == i,
            forall|j: int|
                0 <= j < i ==> out.deep_view()[j] == (source@[j].0@, source@[j].1@),
        decreases source.len() - i,
    {
        let name = source[i].0.clone();
        let value = source[i].1.clone();
        let ghost before = out.deep_view();
        out.push((name, value));
        assert(out.deep_view() =~= before.push((source@[i as int].0@, source@[i as int].1@)));
        i += 1;
    }
    assert(out.deep_view() =~= Seq::new(
        source@.len(),
        |i: int| (source@[i].0@, source@[i].1@),
    ));
    out
}

/// ECH (Encrypted Client Hello) mode.
#[derive(Clone, Copy, Debug, PartialEq, Eq, Hash, Structural)]
pub enum EchMode {
    /// ECH is disabled
    Disabled,
    /// ECH GREASE mode with specified HPKE suite
    Grease { hpke_suite: HpkeKemId },
    /// Real ECH with actual configuration
    Real,
}

/// Model of an [`EchConfig`].
pub struct EchConfigView {
    pub mode: EchMode,
    pub config_list: Option<Seq<u8>>,
}

/// ECH (Encrypted Client Hello) configuration.
#[derive(Debug, PartialEq, Eq, Hash)]
pub struct EchConfig {
    mode: EchMode,
    config_list: Option<Vec<u8>>,
}

impl View for EchConfig {
    type V = EchConfigView;

    closed spec fn view(&self) -> EchConfigView {
        EchConfigView {
            mode: self.mode,
            config_list: match self.config_list {
                Some(list) => Some(list@),
                None => None,
            },
        }
    }
}

impl EchConfig {
    /// Creates a new ECH configuration.
    pub fn new(mode: EchMode, config_list: Option<Vec<u8>>) -> (r: Self)
        ensures
            r@.mode == mode,
            r@.config_list == (match config_list {
                Some(list) => Some(list@),
                None => None,
            }),
    {
        Self { mode, config_list }
    }

    /// Returns the ECH mode.
    pub fn mode(&self) -> (r: &EchMode)
        ensures
            *r == self@.mode,
    {
        &self.mode
    }

    /// Returns the ECH configuration list.
    pub fn config_list(&self) -> (r: Option<&[u8]>)
        ensures
            r.is_some() == self@.config_list.is_some(),
            r.is_some() ==> r.unwrap()@ == self@.config_list.unwrap(),
    {
        match &self.config_list {
            Some(list) => Some(list.as_slice()),
            None => None,
        }
    }

    /// Whether a real configuration list is to be sent; otherwise the client
    /// sends a placeholder extension.
    pub fn is_real(&self) -> (r: bool)
        ensures
            r == (self@.mode == EchMode::Real && self@.config_list.is_some()),
    {
        match self.mode {
            EchMode::Real => self.config_list.is_some(),
            _ => false,
        }
    }
}

/// Model of a [`TlsExtensions`].
pub struct TlsExtensionsView {
    pub server_name: bool,
    pub status_request: bool,
    pub supported_groups: bool,
    pub signature_algorithms: bool,
    pub application_layer_protocol_negotiation: bool,
    pub signed_certificate_timestamp: bool,
    pub key_share: bool,
    pub psk_key_exchange_modes: bool,
    pub supported_versions: bool,
    pub compress_certificate: Option<Seq<CertificateCompressionAlgorithm>>,
    pub application_settings: bool,
    pub new_alps_codepoint: bool,
    pub padding: bool,
    pub delegated_credentials: bool,
    pub record_size_limit: Option<u16>,
    pub extension_order: Seq<ExtensionType>,
}

/// TLS extensions configuration.
#[derive(Debug, PartialEq, Eq, Hash)]
pub struct TlsExtensions {
    server_name: bool,
    status_request: bool,
    supported_groups: bool,
    signature_algorithms: bool,
    application_layer_protocol_negotiation: bool,
    signed_certificate_timestamp: bool,
    key_share: bool,
    psk_key_exchange_modes: bool,
    supported_versions: bool,
    compress_certificate: Option<Vec<CertificateCompressionAlgorithm>>,
    application_settings: bool,
    /// Whether application settings travel under the newer codepoint
    new_alps_codepoint: bool,
    /// Whether the ClientHello is padded
    padding: bool,
    /// Delegated credentials extension (Firefox-specific)
    delegated_credentials: bool,
    /// Record size limit extension (Firefox-specific)
    record_size_limit: Option<u16>,
    /// Extension order matters for fingerprinting
    extension_order: Vec<ExtensionType>,
}

impl View for TlsExtensions {
    type V = TlsExtensionsView;

    closed spec fn view(&self) -> TlsExtensionsView {
        TlsExtensionsView {
            server_name: self.server_name,
            status_request: self.status_request,
            supported_groups: self.supported_groups,
            signature_algorithms: self.signature_algorithms,
            application_layer_protocol_negotiation: self.application_layer_protocol_negotiation,
            signed_certificate_timestamp: self.signed_certificate_timestamp,
            key_share: self.key_share,
            psk_key_exchange_modes: self.psk_key_exchange_modes,
            supported_versions: self.supported_versions,
            compress_certificate: match self.compress_certificate {
                Some(algorithms) => Some(algorithms@),
                None => None,
            },
            application_settings: self.application_settings,
            new_alps_codepoint: self.new_alps_codepoint,
            padding: self.padding,
            delegated_credentials: self.delegated_credentials,
            record_size_limit: self.record_size_limit,
            extension_order: self.extension_order@,
        }
    }
}

/// The flag that switches the given extension on, for the extensions that
/// have one; `None` for an extension that is sent whenever it is listed.
pub open spec fn extension_flag(ext: TlsExtensionsView, kind: ExtensionType) -> Option<bool> {
    match kind {
        ExtensionType::ServerName => Some(ext.server_name),
        ExtensionType::StatusRequest => Some(ext.status_request),
        ExtensionType::SupportedGroups => Some(ext.supported_groups),
        ExtensionType::SignatureAlgorithms => Some(ext.signature_algorithms),
        ExtensionType::ApplicationLayerProtocolNegotiation => Some(
            ext.application_layer_protocol_negotiation,
        ),
        ExtensionType::SignedCertificateTimestamp => Some(ext.signed_certificate_timestamp),
        ExtensionType::KeyShare => Some(ext.key_share),
        ExtensionType::PskKeyExchangeModes => Some(ext.psk_key_exchange_modes),
        ExtensionType::SupportedVersions => Some(ext.supported_versions),
        ExtensionType::CompressCertificate => Some(ext.compress_certificate.is_some()),
        ExtensionType::ApplicationSettings => Some(ext.application_settings),
        ExtensionType::Padding => Some(ext.padding),
        _ => None,
    }
}

/// The order list and the flags agree: no extension that is listed in the
/// send order is switched off by its flag.
pub open spec fn extensions_consistent(ext: TlsExtensionsView) -> bool {
    forall|i: int|
        0 <= i < ext.extension_order.len() ==> extension_flag(ext, #[trigger] ext.extension_order[i])
            != Some(false)
}

impl TlsExtensions {
    /// Creates a new TLS extensions configuration.
    #[allow(clippy::too_many_arguments)]
    pub fn new(
        server_name: bool,
        status_request: bool,
        supported_groups: bool,
        signature_algorithms: bool,
        application_layer_protocol_negotiation: bool,
        signed_certificate_timestamp: bool,
        key_share: bool,
        psk_key_exchange_modes: bool,
        supported_versions: bool,
        compress_certificate: Option<Vec<CertificateCompressionAlgorithm>>,
        application_settings: bool,
        delegated_credentials: bool,
        record_size_limit: Option<u16>,
        extension_order: Vec<ExtensionType>,
    ) -> (r: Self)
        ensures
            r@ == (TlsExtensionsView {
                server_name,
                status_request,
                supported_groups,
                signature_algorithms,
                application_layer_protocol_negotiation,
                signed_certificate_timestamp,
                key_share,
                psk_key_exchange_modes,
                supported_versions,
                compress_certificate: match compress_certificate {
                    Some(algorithms) => Some(algorithms@),
                    None => None,
                },
                application_settings,
                new_alps_codepoint: false,
                padding: false,
                delegated_credentials,
                record_size_limit,
                extension_order: extension_order@,
            }),
    {
        Self {
            server_name,
            status_request,
            supported_groups,
            signature_algorithms,
            application_layer_protocol_negotiation,
            signed_certificate_timestamp,
            key_share,
            psk_key_exchange_modes,
            supported_versions,
            compress_certificate,
            application_settings,
            new_alps_codepoint: false,
            padding: false,
            delegated_credentials,
            record_size_limit,
            extension_order,
        }
    }

    /// Selects the codepoint under which application settings are sent and
    /// leaves every other field as it was.
    pub fn with_new_alps_codepoint(self, enabled: bool) -> (r: Self)
        ensures
            r@ == (TlsExtensionsView { new_alps_codepoint: enabled, ..self@ }),
    {
        let mut this = self;
        this.new_alps_codepoint = enabled;
        this
    }

    /// Switches the padding of the ClientHello on or off and leaves every
    /// other field as it was.
    pub fn with_padding(self, enabled: bool) -> (r: Self)
        ensures
            r@ == (TlsExtensionsView { padding: enabled, ..self@ }),
    {
        let mut this = self;
        this.padding = enabled;
        this
    }

    /// Returns whether the ClientHello is padded.
    pub fn padding(&self) -> (r: bool)
        ensures
            r == self@.padding,
    {
        self.padding
    }

    /// Returns whether server_name extension is enabled.
    pub fn server_name(&self) -> (r: bool)
        ensures
            r == self@.server_name,
    {
        self.server_name
    }

    /// Returns whether status_request extension is enabled.
    pub fn status_request(&self) -> (r: bool)
        ensures
            r == self@.status_request,
    {
        self.status_request
    }

    /// Returns whether supported_groups extension is enabled.
    pub fn supported_groups(&self) -> (r: bool)
        ensures
            r == self@.supported_groups,
    {
        self.supported_groups
    }

    /// Returns whether signature_algorithms extension is enabled.
    pub fn signature_algorithms(&self) -> (r: bool)
        ensures
            r == self@.signature_algorithms,
    {
        self.signature_algorithms
    }

    /// Returns whether ALPN extension is enabled.
    pub fn application_layer_protocol_negotiation(&self) -> (r: bool)
        ensures
            r == self@.application_layer_protocol_negotiation,
    {
        self.application_layer_protocol_negotiation
    }

    /// Returns whether signed_certificate_timestamp extension is enabled.
    pub fn signed_certificate_timestamp(&self) -> (r: bool)
        ensures
            r == self@.signed_certificate_timestamp,
    {
        self.signed_certificate_timestamp
    }

    /// Returns whether key_share extension is enabled.
    pub fn key_share(&self) -> (r: bool)
        ensures
            r == self@.key_share,
    {
        self.key_share
    }

    /// Returns whether psk_key_exchange_modes extension is enabled.
    pub fn psk_key_exchange_modes(&self) -> (r: bool)
        ensures
            r == self@.psk_key_exchange_modes,
    {
        self.psk_key_exchange_modes
    }

    /// Returns whether supported_versions extension is enabled.
    pub fn supported_versions(&self) -> (r: bool)
        ensures
            r == self@.supported_versions,
    {
        self.supported_versions
    }

    /// Returns the certificate compression algorithms.
    pub fn compress_certificate(&self) -> (r: Option<&[CertificateCompressionAlgorithm]>)
        ensures
            r.is_some() == self@.compress_certificate.is_some(),
            r.is_some() ==> r.unwrap()@ == self@.compress_certificate.unwrap(),
    {
        match &self.compress_certificate {
            Some(algorithms) => Some(algorithms.as_slice()),
            None => None,
        }
    }

    /// Returns whether application_settings extension is enabled.
    pub fn application_settings(&self) -> (r: bool)
        ensures
            r == self@.application_settings,
    {
        self.application_settings
    }

    /// Returns whether application settings use the newer codepoint.
    pub fn new_alps_codepoint(&self) -> (r: bool)
        ensures
            r == self@.new_alps_codepoint,
    {
        self.new_alps_codepoint
    }

    /// Returns whether delegated_credentials extension is enabled.
    pub fn delegated_credentials(&self) -> (r: bool)
        ensures
            r == self@.delegated_credentials,
    {
        self.delegated_credentials
    }

    /// Returns the record size limit if set.
    pub fn record_size_limit(&self) -> (r: Option<u16>)
        ensures
            r == self@.record_size_limit,
    {
        self.record_size_limit
    }

    /// Returns the extension order.
    pub fn extension_order(&self) -> (r: &[ExtensionType])
        ensures
            r@ == self@.extension_order,
    {
        self.extension_order.as_slice()
    }

    /// The flag of one extension kind, for the kinds that have a flag.
    fn flag_of(&self, kind: ExtensionType) -> (r: Option<bool>)
        ensures
            r == extension_flag(self@, kind),
    {
        match kind {
            ExtensionType::ServerName => Some(self.server_name),
            ExtensionType::StatusRequest => Some(self.status_request),
            ExtensionType::SupportedGroups => Some(self.supported_groups),
            ExtensionType::SignatureAlgorithms => Some(self.signature_algorithms),
            ExtensionType::ApplicationLayerProtocolNegotiation => Some(
                self.application_layer_protocol_negotiation,
            ),
            ExtensionType::SignedCertificateTimestamp => Some(self.signed_certificate_timestamp),
            ExtensionType::KeyShare => Some(self.key_share),
            ExtensionType::PskKeyExchangeModes => Some(self.psk_key_exchange_modes),
            ExtensionType::SupportedVersions => Some(self.supported_versions),
            ExtensionType::CompressCertificate => Some(self.compress_certificate.is_some()),
            ExtensionType::ApplicationSettings => Some(self.application_settings),
            ExtensionType::Padding => Some(self.padding),
            _ => None,
        }
    }

    /// Checks that the send order lists no extension whose flag is off.
    pub fn is_consistent(&self) -> (r: bool)
        ensures
            r == extensions_consistent(self@),
    {
        let mut i: usize = 0;
        while i < self.extension_order.len()
            invariant
                i <= self.extension_order.len(),
                forall|j: int|
                    0 <= j < i ==> extension_flag(self@, #[trigger] self@.extension_order[j])
                        != Some(false),
            decreases self.extension_order.len() - i,
        {
            let flag = self.flag_of(self.extension_order[i]);
            match flag {
                Some(false) => {
                    return false;
                },
                _ => {},
            }
            i += 1;
        }
        true
    }
}

/// Model of a [`TlsFingerprint`].
pub struct TlsFingerprintView {
    pub cipher_suites: Seq<CipherSuite>,
    pub key_exchange_groups: Seq<KeyExchangeGroup>,
    pub signature_algorithms: Seq<SignatureAlgorithm>,
    pub extensions: TlsExtensionsView,
    pub ech_config: Option<EchConfigView>,
    pub alpn_protocols: Seq<Seq<u8>>,
}

/// TLS fingerprint configuration.
#[derive(Debug, PartialEq, Eq, Hash)]
pub struct TlsFingerprint {
    /// Cipher suites in preference order
    cipher_suites: Vec<CipherSuite>,
    /// Supported key exchange groups in preference order
    key_exchange_groups: Vec<KeyExchangeGroup>,
    /// Signature algorithms in preference order
    signature_algorithms: Vec<SignatureAlgorithm>,
    /// TLS extensions configuration
    extensions: TlsExtensions,
    /// ECH (Encrypted Client Hello) configuration
    ech_config: Option<EchConfig>,
    /// ALPN protocols in preference order
    alpn_protocols: Vec<Vec<u8>>,
}

impl View for TlsFingerprint {
    type V = TlsFingerprintView;

    closed spec fn view(&self) -> TlsFingerprintView {
        TlsFingerprintView {
            cipher_suites: self.cipher_suites@,
            key_exchange_groups: self.key_exchange_groups@,
            signature_algorithms: self.signature_algorithms@,
            extensions: self.extensions@,
            ech_config: match self.ech_config {
                Some(ech) => Some(ech@),
                None => None,
            },
            alpn_protocols: self.alpn_protocols.deep_view(),
        }
    }
}

impl TlsFingerprint {
    /// Creates a new TLS fingerprint.
    pub fn new(
        cipher_suites: Vec<CipherSuite>,
        key_exchange_groups: Vec<KeyExchangeGroup>,
        signature_algorithms: Vec<SignatureAlgorithm>,
        extensions: TlsExtensions,
        ech_config: Option<EchConfig>,
        alpn_protocols: Vec<Vec<u8>>,
    ) -> (r: Self)
        ensures
            r@ == (TlsFingerprintView {
                cipher_suites: cipher_suites@,
                key_exchange_groups: key_exchange_groups@,
                signature_algorithms: signature_algorithms@,
                extensions: extensions@,
                ech_config: match ech_config {
                    Some(ech) => Some(ech@),
                    None => None,
                },
                alpn_protocols: alpn_protocols.deep_view(),
            }),
    {
        Self {
            cipher_suites,
            key_exchange_groups,
            signature_algorithms,
            extensions,
            ech_config,
            alpn_protocols,
        }
    }

    /// Returns the cipher suites.
    pub fn cipher_suites(&self) -> (r: &[CipherSuite])
        ensures
            r@ == self@.cipher_suites,
    {
        self.cipher_suites.as_slice()
    }

    /// Returns the key exchange groups.
    pub fn key_exchange_groups(&self) -> (r: &[KeyExchangeGroup])
        ensures
            r@ == self@.key_exchange_groups,
    {
        self.key_exchange_groups.as_slice()
    }

    /// Returns the signature algorithms.
    pub fn signature_algorithms(&self) -> (r: &[SignatureAlgorithm])
        ensures
            r@ == self@.signature_algorithms,
    {
        self.signature_algorithms.as_slice()
    }

    /// Returns the TLS extensions configuration.
    pub fn extensions(&self) -> (r: &TlsExtensions)
        ensures
            r@ == self@.extensions,
    {
        &self.extensions
    }

    /// Returns the ECH configuration.
    pub fn ech_config(&self) -> (r: Option<&EchConfig>)
        ensures
            r.is_some() == self@.ech_config.is_some(),
            r.is_some() ==> r.unwrap()@ == self@.ech_config.unwrap(),
    {
        self.ech_config.as_ref()
    }

    /// Returns the ALPN protocols.
    pub fn alpn_protocols(&self) -> (r: &[Vec<u8>])
        ensures
            r@.len() == self@.alpn_protocols.len(),
            forall|i: int| 0 <= i < r@.len() ==> (#[trigger] r@[i])@ == self@.alpn_protocols[i],
    {
        self.alpn_protocols.as_slice()
    }
}

/// Model of an [`Http2Settings`].
pub struct Http2SettingsView {
    pub header_table_size: Option<u32>,
    pub enable_push: Option<bool>,
    pub max_concurrent_streams: Option<u32>,
    pub initial_window_size: Option<u32>,
    pub max_frame_size: Option<u32>,
    pub max_header_list_size: Option<u32>,
    pub custom: Seq<(u16, u32)>,
}

/// HTTP/2 SETTINGS frame configuration.
#[derive(Debug, PartialEq, Eq, Hash)]
pub struct Http2Settings {
    header_table_size: Option<u32>,
    enable_push: Option<bool>,
    max_concurrent_streams: Option<u32>,
    initial_window_size: Option<u32>,
    max_frame_size: Option<u32>,
    max_header_list_size: Option<u32>,
    /// Custom settings (non-standard settings IDs)
    custom: Vec<(u16, u32)>,
}

impl View for Http2Settings {
    type V = Http2SettingsView;

    closed spec fn view(&self) -> Http2SettingsView {
        Http2SettingsView {
            header_table_size: self.header_table_size,
            enable_push: self.enable_push,
            max_concurrent_streams: self.max_concurrent_streams,
            initial_window_size: self.initial_window_size,
            max_frame_size: self.max_frame_size,
            max_header_list_size: self.max_header_list_size,
            custom: self.custom@,
        }
    }
}

impl Http2Settings {
    /// Creates a new HTTP/2 settings configuration.
    pub fn new(
        header_table_size: Option<u32>,
        enable_push: Option<bool>,
        max_concurrent_streams: Option<u32>,
        initial_window_size: Option<u32>,
        max_frame_size: Option<u32>,
        max_header_list_size: Option<u32>,
        custom: Vec<(u16, u32)>,
    ) -> (r: Self)
        ensures
            r@ == (Http2SettingsView {
                header_table_size,
                enable_push,
                max_concurrent_streams,
                initial_window_size,
                max_frame_size,
                max_header_list_size,
                custom: custom@,
            }),
    {
        Self {
            header_table_size,
            enable_push,
            max_concurrent_streams,
            initial_window_size,
            max_frame_size,
            max_header_list_size,
            custom,
        }
    }

    /// Returns the header table size.
    pub fn header_table_size(&self) -> (r: Option<u32>)
        ensures
            r == self@.header_table_size,
    {
        self.header_table_size
    }

    /// Returns whether push is enabled.
    pub fn enable_push(&self) -> (r: Option<bool>)
        ensures
            r == self@.enable_push,
    {
        self.enable_push
    }

    /// Returns the maximum concurrent streams.
    pub fn max_concurrent_streams(&self) -> (r: Option<u32>)
        ensures
            r == self@.max_concurrent_streams,
    {
        self.max_concurrent_streams
    }

    /// Returns the initial window size.
    pub fn initial_window_size(&self) -> (r: Option<u32>)
        ensures
            r == self@.initial_window_size,
    {
        self.initial_window_size
    }

    /// Returns the maximum frame size.
    pub fn max_frame_size(&self) -> (r: Option<u32>)
        ensures
            r == self@.max_frame_size,
    {
        self.max_frame_size
    }

    /// Returns the maximum header list size.
    pub fn max_header_list_size(&self) -> (r: Option<u32>)
        ensures
            r == self@.max_header_list_size,
    {
        self.max_header_list_size
    }

    /// Returns the custom settings.
    pub fn custom(&self) -> (r: &[(u16, u32)])
        ensures
            r@ == self@.custom,
    {
        self.custom.as_slice()
    }
}

/// Model of an [`Http2WindowSize`].
pub struct Http2WindowSizeView {
    pub connection_window_size: u32,
    pub stream_window_size: u32,
}

/// HTTP/2 window size configuration.
#[derive(Clone, Copy, Debug, PartialEq, Eq, Hash)]
pub struct Http2WindowSize {
    connection_window_size: u32,
    stream_window_size: u32,
}

impl View for Http2WindowSize {
    type V = Http2WindowSizeView;

    closed spec fn view(&self) -> Http2WindowSizeView {
        Http2WindowSizeView {
            connection_window_size: self.connection_window_size,
            stream_window_size: self.stream_window_size,
        }
    }
}

impl Http2WindowSize {
    /// Creates a new window size configuration.
    pub fn new(connection_window_size: u32, stream_window_size: u32) -> (r: Self)
        ensures
            r@ == (Http2WindowSizeView { connection_window_size, stream_window_size }),
    {
        Self { connection_window_size, stream_window_size }
    }

    /// Returns the connection window size.
    pub fn connection_window_size(&self) -> (r: u32)
        ensures
            r == self@.connection_window_size,
    {
        self.connection_window_size
    }

    /// Returns the stream window size.
    pub fn stream_window_size(&self) -> (r: u32)
        ensures
            r == self@.stream_window_size,
    {
        self.stream_window_size
    }
}

/// Model of an [`Http2Priority`].
pub struct Http2PriorityView {
    pub weight: u8,
    pub depends_on: u32,
    pub exclusive: bool,
}

/// HTTP/2 priority configuration.
#[derive(Clone, Copy, Debug, PartialEq, Eq, Hash)]
pub struct Http2Priority {
    weight: u8,
    depends_on: u32,
    exclusive: bool,
}

impl View for Http2Priority {
    type V = Http2PriorityView;

    closed spec fn view(&self) -> Http2PriorityView {
        Http2PriorityView {
            weight: self.weight,
            depends_on: self.depends_on,
            exclusive: self.exclusive,
        }
    }
}

impl Http2Priority {
    /// Creates a new priority configuration.
    pub fn new(weight: u8, depends_on: u32, exclusive: bool) -> (r: Self)
        ensures
            r@ == (Http2PriorityView { weight, depends_on, exclusive }),
    {
        Self { weight, depends_on, exclusive }
    }

    /// Returns the priority weight.
    pub fn weight(&self) -> (r: u8)
        ensures
            r == self@.weight,
    {
        self.weight
    }

    /// Returns the stream this depends on.
    pub fn depends_on(&self) -> (r: u32)
        ensures
            r == self@.depends_on,
    {
        self.depends_on
    }

    /// Returns whether this dependency is exclusive.
    pub fn exclusive(&self) -> (r: bool)
        ensures
            r == self@.exclusive,
    {
        self.exclusive
    }
}

/// Model of an [`Http2Fingerprint`].
pub struct Http2FingerprintView {
    pub pseudo_header_order: Seq<Seq<char>>,
    pub settings: Http2SettingsView,
    pub window_size: Http2WindowSizeView,
    pub priority: Option<Http2PriorityView>,
}

/// HTTP/2 fingerprint configuration.
#[derive(Debug, PartialEq, Eq, Hash)]
pub struct Http2Fingerprint {
    /// Pseudo-header ordering
    pseudo_header_order: Vec<String>,
    /// SETTINGS frame values
    settings: Http2Settings,
    /// Initial window sizes
    window_size: Http2WindowSize,
    /// Priority configuration
    priority: Option<Http2Priority>,
}

impl View for Http2Fingerprint {
    type V = Http2FingerprintView;

    closed spec fn view(&self) -> Http2FingerprintView {
        Http2FingerprintView {
            pseudo_header_order: self.pseudo_header_order.deep_view(),
            settings: self.settings@,
            window_size: self.window_size@,
            priority: match self.priority {
                Some(priority) => Some(priority@),
                None => None,
            },
        }
    }
}

/// The values that the HTTP/2 layer is configured with at connection
/// establishment: every optional setting resolved.
#[derive(Clone, Copy, Debug, PartialEq, Eq, Structural)]
pub struct Http2Parameters {
    pub header_table_size: u32,
    pub enable_push: bool,
    /// `None` places no limit.
    pub max_concurrent_streams: Option<u32>,
    pub initial_stream_window_size: u32,
    pub initial_connection_window_size: u32,
    pub max_frame_size: u32,
    /// `None` places no limit.
    pub max_header_list_size: Option<u32>,
}

/// What [`Http2Fingerprint::parameters`] computes: a value that the
/// fingerprint sets is taken as it is, and one that it leaves unset is the
/// protocol's default. The initial stream window is the setting where it is
/// given and the fingerprint's stream window otherwise.
pub open spec fn resolved_parameters(fp: Http2FingerprintView) -> Http2Parameters {
    Http2Parameters {
        header_table_size: match fp.settings.header_table_size {
            Some(v) => v,
            None => DEFAULT_HEADER_TABLE_SIZE,
        },
        enable_push: match fp.settings.enable_push {
            Some(v) => v,
            None => true,
        },
        max_concurrent_streams: fp.settings.max_concurrent_streams,
        initial_stream_window_size: match fp.settings.initial_window_size {
            Some(v) => v,
            None => fp.window_size.stream_window_size,
        },
        initial_connection_window_size: fp.window_size.connection_window_size,
        max_frame_size: match fp.settings.max_frame_size {
            Some(v) => v,
            None => DEFAULT_MAX_FRAME_SIZE,
        },
        max_header_list_size: fp.settings.max_header_list_size,
    }
}

impl Http2Fingerprint {
    /// Creates a new HTTP/2 fingerprint.
    pub fn new(
        pseudo_header_order: Vec<String>,
        settings: Http2Settings,
        window_size: Http2WindowSize,
        priority: Option<Http2Priority>,
    ) -> (r: Self)
        ensures
            r@ == (Http2FingerprintView {
                pseudo_header_order: pseudo_header_order.deep_view(),
                settings: settings@,
                window_size: window_size@,
                priority: match priority {
                    Some(p) => Some(p@),
                    None => None,
                },
            }),
    {
        Self { pseudo_header_order, settings, window_size, priority }
    }

    /// Returns the pseudo-header order.
    pub fn pseudo_header_order(&self) -> (r: &[String])
        ensures
            r@.len() == self@.pseudo_header_order.len(),
            forall|i: int|
                0 <= i < r@.len() ==> (#[trigger] r@[i])@ == self@.pseudo_header_order[i],
    {
        self.pseudo_header_order.as_slice()
    }

    /// Returns the SETTINGS frame values.
    pub fn settings(&self) -> (r: &Http2Settings)
        ensures
            r@ == self@.settings,
    {
        &self.settings
    }

    /// Returns the window sizes.
    pub fn window_size(&self) -> (r: &Http2WindowSize)
        ensures
            r@ == self@.window_size,
    {
        &self.window_size
    }

    /// Returns the priority configuration.
    pub fn priority(&self) -> (r: Option<&Http2Priority>)
        ensures
            r.is_some() == self@.priority.is_some(),
            r.is_some() ==> r.unwrap()@ == self@.priority.unwrap(),
    {
        self.priority.as_ref()
    }

    /// Resolves every optional setting, so that the connection is opened
    /// with a definite value for each parameter.
    pub fn parameters(&self) -> (r: Http2Parameters)
        ensures
            r == resolved_parameters(self@),
    {
        Http2Parameters {
            header_table_size: match self.settings.header_table_size {
                Some(v) => v,
                None => DEFAULT_HEADER_TABLE_SIZE,
            },
            enable_push: match self.settings.enable_push {
                Some(v) => v,
                None => true,
            },
            max_concurrent_streams: self.settings.max_concurrent_streams,
            initial_stream_window_size: match self.settings.initial_window_size {
                Some(v) => v,
                None => self.window_size.stream_window_size,
            },
            initial_connection_window_size: self.window_size.connection_window_size,
            max_frame_size: match self.settings.max_frame_size {
                Some(v) => v,
                None => DEFAULT_MAX_FRAME_SIZE,
            },
            max_header_list_size: self.settings.max_header_list_size,
        }
    }
}

/// Model of a [`BrowserFingerprint`].
pub struct BrowserFingerprintView {
    pub name: Seq<char>,
    pub version: Seq<char>,
    pub tls: TlsFingerprintView,
    pub http2: Http2FingerprintView,
    pub headers: Seq<(Seq<char>, Seq<char>)>,
}

/// A complete browser fingerprint containing TLS, HTTP/2, and HTTP header configurations.
///
/// The value is immutable after creation: it owns its parts, and the only
/// access to them is through shared references.
#[derive(Debug)]
pub struct BrowserFingerprint {
    name: String,
    version: String,
    tls: TlsFingerprint,
    http2: Http2Fingerprint,
    headers: Vec<(String, String)>,
}

impl View for BrowserFingerprint {
    type V = BrowserFingerprintView;

    closed spec fn view(&self) -> BrowserFingerprintView {
        BrowserFingerprintView {
            name: self.name@,
            version: self.version@,
            tls: self.tls@,
            http2: self.http2@,
            headers: self.headers.deep_view(),
        }
    }
}

impl BrowserFingerprint {
    /// Creates a new browser fingerprint.
    pub fn new(
        name: &str,
        version: &str,
        tls: TlsFingerprint,
        http2: Http2Fingerprint,
        headers: Vec<(String, String)>,
    ) -> (r: Self)
        ensures
            r@ == (BrowserFingerprintView {
                name: name@,
                version: version@,
                tls: tls@,
                http2: http2@,
                headers: headers.deep_view(),
            }),
    {
        Self { name: name.to_owned(), version: version.to_owned(), tls, http2, headers }
    }

    /// Returns the browser name.
    pub fn name(&self) -> (r: &str)
        ensures
            r@ == self@.name,
    {
        self.name.as_str()
    }

    /// Returns the browser version.
    pub fn version(&self) -> (r: &str)
        ensures
            r@ == self@.version,
    {
        self.version.as_str()
    }

    /// Returns the TLS fingerprint.
    pub fn tls(&self) -> (r: &TlsFingerprint)
        ensures
            r@ == self@.tls,
    {
        &self.tls
    }

    /// Returns the HTTP/2 fingerprint.
    pub fn http2(&self) -> (r: &Http2Fingerprint)
        ensures
            r@ == self@.http2,
    {
        &self.http2
    }

    /// Returns the HTTP headers.
    pub fn headers(&self) -> (r: &[(String, String)])
        ensures
            r@.len() == self@.headers.len(),
            forall|i: int|
                0 <= i < r@.len() ==> ((#[trigger] r@[i]).0@, r@[i].1@) == self@.headers[i],
    {
        self.headers.as_slice()
    }
}

impl Clone for EchConfig {
    /// A copy that is equal to the value and shares nothing with it.
    fn clone(&self) -> (r: Self)
        ensures
            r@ == self@,
    {
        EchConfig {
            mode: self.mode,
            config_list: match &self.config_list {
                Some(list) => Some(copy_list(list.as_slice())),
                None => None,
            },
        }
    }
}

impl Clone for TlsExtensions {
    /// A copy that is equal to the value and shares nothing with it.
    fn clone(&self) -> (r: Self)
        ensures
            r@ == self@,
    {
        TlsExtensions {
            server_name: self.server_name,
            status_request: self.status_request,
            supported_groups: self.supported_groups,
            signature_algorithms: self.signature_algorithms,
            application_layer_protocol_negotiation: self.application_layer_protocol_negotiation,
            signed_certificate_timestamp: self.signed_certificate_timestamp,
            key_share: self.key_share,
            psk_key_exchange_modes: self.psk_key_exchange_modes,
            supported_versions: self.supported_versions,
            compress_certificate: match &self.compress_certificate {
                Some(list) => Some(copy_list(list.as_slice())),
                None => None,
            },
            application_settings: self.application_settings,
            new_alps_codepoint: self.new_alps_codepoint,
            padding: self.padding,
            delegated_credentials: self.delegated_credentials,
            record_size_limit: self.record_size_limit,
            extension_order: copy_list(self.extension_order.as_slice()),
        }
    }
}

impl Clone for TlsFingerprint {
    /// A copy that is equal to the value and shares nothing with it.
    fn clone(&self) -> (r: Self)
        ensures
            r@ == self@,
    {
        let alpn_protocols = copy_protocols(self.alpn_protocols.as_slice());
        assert forall|i: int| 0 <= i < self.alpn_protocols.len() implies #[trigger] self
            .alpn_protocols.deep_view()[i] == self.alpn_protocols@[i]@ by {
            assert(self.alpn_protocols@[i].deep_view() =~= self.alpn_protocols@[i]@);
        }
        assert(alpn_protocols.deep_view() =~= self.alpn_protocols.deep_view());
        TlsFingerprint {
            cipher_suites: copy_list(self.cipher_suites.as_slice()),
            key_exchange_groups: copy_list(self.key_exchange_groups.as_slice()),
            signature_algorithms: copy_list(self.signature_algorithms.as_slice()),
            extensions: self.extensions.clone(),
            ech_config: match &self.ech_config {
                Some(ech) => Some(ech.clone()),
                None => None,
            },
            alpn_protocols,
        }
    }
}

impl Clone for Http2Settings {
    /// A copy that is equal to the value and shares nothing with it.
    fn clone(&self) -> (r: Self)
        ensures
            r@ == self@,
    {
        Http2Settings {
            header_table_size: self.header_table_size,
            enable_push: self.enable_push,
            max_concurrent_streams: self.max_concurrent_streams,
            initial_window_size: self.initial_window_size,
            max_frame_size: self.max_frame_size,
            max_header_list_size: self.max_header_list_size,
            custom: copy_list(self.custom.as_slice()),
        }
    }
}

impl Clone for Http2Fingerprint {
    /// A copy that is equal to the value and shares nothing with it.
    fn clone(&self) -> (r: Self)
        ensures
            r@ == self@,
    {
        let pseudo_header_order = copy_texts(self.pseudo_header_order.as_slice());
        assert(pseudo_header_order.deep_view() =~= self.pseudo_header_order.deep_view());
        Http2Fingerprint {
            pseudo_header_order,
            settings: self.settings.clone(),
            window_size: self.window_size,
            priority: self.priority,
        }
    }
}

impl Clone for BrowserFingerprint {
    /// A copy that is equal to the value and shares nothing with it.
    fn clone(&self) -> (r: Self)
        ensures
            r@ == self@,
    {
        let headers = copy_pairs(self.headers.as_slice());
        assert(headers.deep_view() =~= self.headers.deep_view());
        BrowserFingerprint {
            name: self.name.clone(),
            version: self.version.clone(),
            tls: self.tls.clone(),
            http2: self.http2.clone(),
            headers,
        }
    }
}

} // verus!
