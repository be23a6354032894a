//! The table that remembers which fingerprints the expensive parts of a
//! TLS configuration were built for.
//!
//! Building a crypto provider and a certificate verifier is costly, so they
//! are built once for each fingerprint and kept. The table holds the
//! fingerprints; the slot of a fingerprint is where the caller keeps what it
//! built for it. Two fingerprints share a slot exactly when they are equal
//! field by field.

use crate::fingerprint::CertificateCompressionAlgorithm;
use crate::fingerprint::CipherSuite;
use crate::fingerprint::EchConfig;
use crate::fingerprint::ExtensionType;
use crate::fingerprint::KeyExchangeGroup;
use crate::fingerprint::SignatureAlgorithm;
use crate::fingerprint::TlsExtensions;
use crate::fingerprint::TlsFingerprint;
use crate::fingerprint::TlsFingerprintView;
use vstd::prelude::*;

verus! {

/// Whether two lists of cipher suites hold the same items in the same order.
fn same_ciphers(a: &[CipherSuite], b: &[CipherSuite]) -> (r: bool)
    ensures
        r == (a@ == b@),
{
    if a.len() != b.len() {
        return false;
    }
    let mut i: usize = 0;
    while i < a.len()
        invariant
            i <= a.len(),
            a.len() == b.len(),
            forall|j: int| 0 <= j < i ==> a@[j] == b@[j],
        decreases a.len() - i,
    {
        if !(a[i] == b[i]) {
            return false;
        }
        i += 1;
    }
    assert(a@ =~= b@);
    true
}

/// Whether two lists of key exchange groups hold the same items in the same order.
fn same_groups(a: &[KeyExchangeGroup], b: &[KeyExchangeGroup]) -> (r: bool)
    ensures
        r == (a@ == b@),
{
    if a.len() != b.len() {
        return false;
    }
    let mut i: usize = 0;
    while i < a.len()
        invariant
            i <= a.len(),
            a.len() == b.len(),
            forall|j: int| 0 <= j < i ==> a@[j] == b@[j],
        decreases a.len() - i,
    {
        if !(a[i] == b[i]) {
            return false;
        }
        i += 1;
    }
    assert(a@ =~= b@);
    true
}

/// Whether two lists of signature algorithms hold the same items in the same order.
fn same_signatures(a: &[SignatureAlgorithm], b: &[SignatureAlgorithm]) -> (r: bool)
    ensures
        r == (a@ == b@),
{
    if a.len() != b.len() {
        return false;
    }
    let mut i: usize = 0;
    while i < a.len()
        invariant
            i <= a.len(),
            a.len() == b.len(),
            forall|j: int| 0 <= j < i ==> a@[j] == b@[j],
        decreases a.len() - i,
    {
        if !(a[i] == b[i]) {
            return false;
        }
        i += 1;
    }
    assert(a@ =~= b@);
    true
}

/// Whether two lists of extensions hold the same items in the same order.
fn same_order(a: &[ExtensionType], b: &[ExtensionType]) -> (r: bool)
    ensures
        r == (a@ == b@),
{
    if a.len() != b.len() {
        return false;
    }
    let mut i: usize = 0;
    while i < a.len()
        invariant
            i <= a.len(),
            a.len() == b.len(),
            forall|j: int| 0 <= j < i ==> a@[j] == b@[j],
        decreases a.len() - i,
    {
        if !(a[i] == b[i]) {
            return false;
        }
        i += 1;
    }
    assert(a@ =~= b@);
    true
}

/// Whether two lists of compression algorithms hold the same items in the same order.
fn same_compression(a: &[CertificateCompressionAlgorithm], b: &[CertificateCompressionAlgorithm]) -> (r: bool)
    ensures
        r == (a@ == b@),
{
    if a.len() != b.len() {
        return false;
    }
    let mut i: usize = 0;
    while i < a.len()
        invariant
            i <= a.len(),
            a.len() == b.len(),
            forall|j: int| 0 <= j < i ==> a@[j] == b@[j],
        decreases a.len() - i,
    {
        if !(a[i] == b[i]) {
            return false;
        }
        i += 1;
    }
    assert(a@ =~= b@);
    true
}

/// Whether two lists of bytes hold the same items in the same order.
fn same_bytes(a: &[u8], b: &[u8]) -> (r: bool)
    ensures
        r == (a@ == b@),
{
    if a.len() != b.len() {
        return false;
    }
    let mut i: usize = 0;
    while i < a.len()
        invariant
            i <= a.len(),
            a.len() == b.len(),
            forall|j: int| 0 <= j < i ==> a@[j] == b@[j],
        decreases a.len() - i,
    {
        if !(a[i] == b[i]) {
            return false;
        }
        i += 1;
    }
    assert(a@ =~= b@);
    true
}

/// Whether two lists of protocol names hold the same names in the same
/// order.
fn same_protocols(a: &[Vec<u8>], b: &[Vec<u8>]) -> (r: bool)
    ensures
        r == (Seq::new(a@.len(), |i: int| a@[i]@) == Seq::new(b@.len(), |i: int| b@[i]@)),
{
    let ghost left = Seq::new(a@.len(), |i: int| a@[i]@);
    let ghost right = Seq::new(b@.len(), |i: int| b@[i]@);
    if a.len() != b.len() {
        assert(left.len() != right.len());
        return false;
    }
    let mut i: usize = 0;
    while i < a.len()
        invariant
            i <= a.len(),
            a.len() == b.len(),
            left == Seq::new(a@.len(), |i: int| a@[i]@),
            right == Seq::new(b@.len(), |i: int| b@[i]@),
            forall|j: int| 0 <= j < i ==> a@[j]@ == b@[j]@,
        decreases a.len() - i,
    {
        if !same_bytes(a[i].as_slice(), b[i].as_slice()) {
            assert(left[i as int] != right[i as int]);
            return false;
        }
        i += 1;
    }
    assert(left =~= right);
    true
}

/// Whether two extension configurations are equal field by field.
fn same_extensions(a: &TlsExtensions, b: &TlsExtensions) -> (r: bool)
    ensures
        r == (a@ == b@),
{
    let compression = match (a.compress_certificate(), b.compress_certificate()) {
        (Some(x), Some(y)) => same_compression(x, y),
        (None, None) => true,
        _ => false,
    };
    let limit = match (a.record_size_limit(), b.record_size_limit()) {
        (Some(x), Some(y)) => x == y,
        (None, None) => true,
        _ => false,
    };
    a.server_name() == b.server_name() && a.status_request() == b.status_request()
        && a.supported_groups() == b.supported_groups() && a.signature_algorithms()
        == b.signature_algorithms() && a.application_layer_protocol_negotiation()
        == b.application_layer_protocol_negotiation() && a.signed_certificate_timestamp()
        == b.signed_certificate_timestamp() && a.key_share() == b.key_share()
        && a.psk_key_exchange_modes() == b.psk_key_exchange_modes() && a.supported_versions()
        == b.supported_versions() && compression && a.application_settings()
        == b.application_settings() && a.new_alps_codepoint() == b.new_alps_codepoint()
        && a.padding() == b.padding() && a.delegated_credentials() == b.delegated_credentials()
        && limit && same_order(a.extension_order(), b.extension_order())
}

/// Whether two optional ECH configurations are equal field by field.
fn same_ech(a: Option<&EchConfig>, b: Option<&EchConfig>) -> (r: bool)
    ensures
        r == ((match a {
            Some(x) => Some(x@),
            None => None,
        }) == (match b {
            Some(y) => Some(y@),
            None => None,
        })),
{
    match (a, b) {
        (Some(x), Some(y)) => {
            let lists = match (x.config_list(), y.config_list()) {
                (Some(p), Some(q)) => same_bytes(p, q),
                (None, None) => true,
                _ => false,
            };
            *x.mode() == *y.mode() && lists
        },
        (None, None) => true,
        _ => false,
    }
}

/// Whether two fingerprints are equal field by field, list orders
/// included.
pub fn same_fingerprint(a: &TlsFingerprint, b: &TlsFingerprint) -> (r: bool)
    ensures
        r == (a@ == b@),
{
    let names_a = a.alpn_protocols();
    let names_b = b.alpn_protocols();
    let protocols = same_protocols(names_a, names_b);
    proof {
        let left = names_a@;
        let right = names_b@;
        assert(Seq::new(left.len(), |i: int| left[i]@) =~= a@.alpn_protocols);
        assert(Seq::new(right.len(), |i: int| right[i]@) =~= b@.alpn_protocols);
    }
    same_ciphers(a.cipher_suites(), b.cipher_suites()) && same_groups(
        a.key_exchange_groups(),
        b.key_exchange_groups(),
    ) && same_signatures(a.signature_algorithms(), b.signature_algorithms()) && same_extensions(
        a.extensions(),
        b.extensions(),
    ) && same_ech(a.ech_config(), b.ech_config()) && protocols
}

/// The fingerprints that something was built for, each in its slot.
#[derive(Debug)]
pub struct ProviderCache {
    keys: Vec<TlsFingerprint>,
}

impl View for ProviderCache {
    type V = Seq<TlsFingerprintView>;

    closed spec fn view(&self) -> Seq<TlsFingerprintView> {
        Seq::new(self.keys@.len(), |i: int| self.keys@[i]@)
    }
}

/// No fingerprint has two slots.
pub open spec fn distinct(keys: Seq<TlsFingerprintView>) -> bool {
    forall|i: int, j: int| 0 <= i < j < keys.len() ==> keys[i] != keys[j]
}

impl ProviderCache {
    /// The invariant of the table: no fingerprint has two slots.
    pub open spec fn well_formed(&self) -> bool {
        distinct(self@)
    }

    /// A table without slots.
    pub fn new() -> (r: Self)
        ensures
            r@ == Seq::<TlsFingerprintView>::empty(),
            r.well_formed(),
    {
        let r = ProviderCache { keys: Vec::new() };
        assert(r@ =~= Seq::<TlsFingerprintView>::empty());
        r
    }

    /// The number of slots.
    pub fn len(&self) -> (r: usize)
        ensures
            r == self@.len(),
    {
        self.keys.len()
    }

    /// The slot of a fingerprint, where it has one.
    pub fn find(&self, fingerprint: &TlsFingerprint) -> (r: Option<usize>)
        ensures
            match r {
                Some(slot) => slot < self@.len() && self@[slot as int] == fingerprint@ && forall|
                    j: int,
                | 0 <= j < slot ==> self@[j] != fingerprint@,
                None => !self@.contains(fingerprint@),
            },
    {
        let mut i: usize = 0;
        while i < self.keys.len()
            invariant
                i <= self.keys.len(),
                forall|j: int| 0 <= j < i ==> self@[j] != fingerprint@,
            decreases self.keys.len() - i,
        {
            if same_fingerprint(&self.keys[i], fingerprint) {
                return Some(i);
            }
            i += 1;
        }
        None
    }

    /// The slot of a fingerprint, with a new slot made for a fingerprint
    /// that had none. The second part of the result says whether the slot
    /// is new, that is, whether the caller has to build what belongs into
    /// it. The slots of all other fingerprints stay where they are.
    pub fn slot_for(&mut self, fingerprint: TlsFingerprint) -> (r: (usize, bool))
        requires
            old(self).well_formed(),
        ensures
            final(self).well_formed(),
            r.0 < final(self)@.len(),
            final(self)@[r.0 as int] == fingerprint@,
            r.1 == !old(self)@.contains(fingerprint@),
            final(self)@ == (if r.1 {
                old(self)@.push(fingerprint@)
            } else {
                old(self)@
            }),
    {
        match self.find(&fingerprint) {
            Some(slot) => (slot, false),
            None => {
                let slot = self.keys.len();
                let ghost before = self@;
                self.keys.push(fingerprint);
                assert(self@ =~= before.push(fingerprint@));
                assert forall|i: int, j: int| 0 <= i < j < self@.len() implies self@[i]
                    != self@[j] by {
                    if j == before.len() {
                        assert(before[i] != fingerprint@) by {
                            if before[i] == fingerprint@ {
                                assert(before.contains(fingerprint@));
                            }
                        }
                    } else {
                        assert(before[i] != before[j]);
                    }
                }
                (slot, true)
            },
        }
    }
}

/// Equal fingerprints share a slot: after a fingerprint got its slot, an
/// equal fingerprint is found in that slot, and no second slot is made for
/// it.
pub proof fn lemma_built_once(keys: Seq<TlsFingerprintView>, fingerprint: TlsFingerprintView)
    requires
        distinct(keys),
    ensures
        keys.contains(fingerprint) ==> exists|slot: int|
            0 <= slot < keys.len() && keys[slot] == fingerprint && forall|other: int|
                0 <= other < keys.len() && keys[other] == fingerprint ==> other == slot,
        !keys.contains(fingerprint) ==> distinct(keys.push(fingerprint)) && keys.push(
            fingerprint,
        ).contains(fingerprint),
{
    if keys.contains(fingerprint) {
        let slot = choose|slot: int| 0 <= slot < keys.len() && keys[slot] == fingerprint;
        assert forall|other: int|
            0 <= other < keys.len() && keys[other] == fingerprint implies other == slot by {
            if other < slot {
                assert(keys[other] != keys[slot]);
            }
            if slot < other {
                assert(keys[slot] != keys[other]);
            }
        }
    } else {
        let grown = keys.push(fingerprint);
        assert(grown[keys.len() as int] == fingerprint);
        assert forall|i: int, j: int| 0 <= i < j < grown.len() implies grown[i] != grown[j] by {
            if j == keys.len() {
                if grown[i] == fingerprint {
                    assert(keys[i] == fingerprint);
                    assert(keys.contains(fingerprint));
                }
            } else {
                assert(keys[i] != keys[j]);
            }
        }
    }
}

} // verus!
