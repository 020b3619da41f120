//! The trust store: the root certificates a TLS connection is checked
//! against, read from a PEM file.

use vstd::prelude::*;
use vstd::string::StringExecFns;

use crate::error::{BootstrapError, ErrorModel};

verus! {

#[verifier::external_type_specification]
#[verifier::external_body]
pub struct ExRootCertStore(rustls::RootCertStore);

#[verifier::external_type_specification]
#[verifier::external_body]
pub struct ExTlsError(rustls::Error);

#[verifier::external_type_specification]
#[verifier::external_body]
pub struct ExIoError(std::io::Error);

/// What a root certificate store keeps of one certificate: the subject
/// name, the public key information and the name constraints, each in
/// DER.
pub struct TrustAnchorModel {
    pub subject: Seq<u8>,
    pub public_key_info: Seq<u8>,
    pub name_constraints: Option<Seq<u8>>,
}

/// The certificates of a PEM text, each as its DER bytes, in the order in
/// which they stand; nothing where the text holds a section that cannot
/// be read. Sections of other kinds are passed over.
pub uninterp spec fn pem_certificates(bytes: Seq<u8>) -> Option<Seq<Seq<u8>>>;

/// The trust anchor that a certificate in DER yields; nothing where the
/// certificate cannot be read as one.
pub uninterp spec fn trust_anchor(der: Seq<u8>) -> Option<TrustAnchorModel>;

/// The trust anchors a root certificate store holds, oldest first.
pub uninterp spec fn trust_anchors(store: rustls::RootCertStore) -> Seq<TrustAnchorModel>;

/// The byte sequences of a list of byte vectors.
pub open spec fn der_views(certs: Seq<Vec<u8>>) -> Seq<Seq<u8>> {
    Seq::new(certs.len(), |i: int| certs[i]@)
}

/// Whether a list of certificates can make a trust store: there is at
/// least one, and every one yields a trust anchor.
pub open spec fn usable_roots(certs: Seq<Seq<u8>>) -> bool {
    certs.len() > 0 && forall|i: int| 0 <= i < certs.len() ==> (#[trigger] trust_anchor(certs[i])) is Some
}

/// The trust anchors of a list of certificates, one for one.
pub open spec fn anchors_of(certs: Seq<Seq<u8>>) -> Seq<TrustAnchorModel> {
    Seq::new(certs.len(), |i: int| trust_anchor(certs[i])->0)
}

/// The certificates that a PEM text contributes to a trust store; nothing
/// where the text is malformed, holds no certificate, or holds one that
/// yields no trust anchor.
pub open spec fn trusted_certificates(bytes: Seq<u8>) -> Option<Seq<Seq<u8>>> {
    match pem_certificates(bytes) {
        Some(certs) => if usable_roots(certs) {
            Some(certs)
        } else {
            None
        },
        None => None,
    }
}

/// Calls `rustls_pemfile::certs` on the bytes and gathers what it yields
/// up to the first failure. The certificates returned are the ones named
/// by [`pem_certificates`]; a failure is returned exactly where that is
/// nothing.
#[verifier::external_body]
fn read_pem_certificates(bytes: &[u8]) -> (r: Result<Vec<Vec<u8>>, std::io::Error>)
    ensures
        r is Ok <==> pem_certificates(bytes@) is Some,
        r matches Ok(certs) ==> pem_certificates(bytes@) == Some(der_views(certs@)),
{
    let mut reader = bytes;
    rustls_pemfile::certs(&mut reader).map(|cert| cert.map(|der| der.to_vec())).collect()
}

/// `rustls::RootCertStore::empty` returns a store without trust anchors.
pub assume_specification[ rustls::RootCertStore::empty ]() -> (store: rustls::RootCertStore)
    ensures
        trust_anchors(store) == Seq::<TrustAnchorModel>::empty(),
;

/// Calls `rustls::RootCertStore::add`. Where the certificate yields a
/// trust anchor, the call succeeds and the anchor is appended to the
/// store; where it yields none, the call fails and the store is left as
/// it was.
#[verifier::external_body]
fn add_root(store: &mut rustls::RootCertStore, der: &Vec<u8>) -> (r: Result<(), rustls::Error>)
    ensures
        r is Ok <==> trust_anchor(der@) is Some,
        r is Ok ==> trust_anchors(*final(store)) == trust_anchors(*old(store)).push(trust_anchor(der@)->0),
        r is Err ==> trust_anchors(*final(store)) == trust_anchors(*old(store)),
{
    store.add(rustls::pki_types::CertificateDer::from(der.as_slice()))
}

/// A non-empty set of trusted root certificates.
///
/// A trust store is built whole or not at all: it always holds at least
/// one certificate, and one trust anchor for each of its certificates.
pub struct TrustStore {
    certs: Vec<Vec<u8>>,
    roots: rustls::RootCertStore,
}

impl View for TrustStore {
    type V = Seq<Seq<u8>>;

    /// The certificates of the store, each as its DER bytes, in the order
    /// of the file.
    closed spec fn view(&self) -> Seq<Seq<u8>> {
        der_views(self.certs@)
    }
}

/// The outcome of building a trust store, as mathematical values.
pub open spec fn build_view(outcome: Result<TrustStore, BootstrapError>) -> Result<Seq<Seq<u8>>, ErrorModel> {
    match outcome {
        Ok(store) => Ok(store@),
        Err(error) => Err(error@),
    }
}

impl TrustStore {
    #[verifier::type_invariant]
    spec fn well_formed(self) -> bool {
        self.wf()
    }

    /// The trust anchors that the store hands to TLS.
    pub closed spec fn anchors(self) -> Seq<TrustAnchorModel> {
        trust_anchors(self.roots)
    }

    /// What holds of every trust store: it is not empty, every
    /// certificate yields a trust anchor, and the anchors held are those
    /// of the certificates, one for one.
    pub open spec fn wf(self) -> bool {
        &&& usable_roots(self@)
        &&& self.anchors() == anchors_of(self@)
    }

    /// Builds a trust store from the certificates of a PEM file.
    ///
    /// `certs` holds each certificate in DER. The store is built where
    /// there is at least one certificate and every one is accepted as a
    /// root; otherwise the build fails as a whole, with an error that
    /// names `path`.
    pub fn from_certificates(path: &str, certs: Vec<Vec<u8>>) -> (r: Result<TrustStore, BootstrapError>)
        ensures
            usable_roots(der_views(certs@)) ==> build_view(r) == Ok::<Seq<Seq<u8>>, ErrorModel>(
                der_views(certs@),
            ),
            !usable_roots(der_views(certs@)) ==> build_view(r) == Err::<Seq<Seq<u8>>, ErrorModel>(
                ErrorModel::CertificateParse { path: path@ },
            ),
            r matches Ok(store) ==> store.wf(),
    {
        let ghost ders = der_views(certs@);
        if certs.len() == 0 {
            return Err(BootstrapError::CertificateParse { path: String::from_str(path) });
        }
        let mut roots = rustls::RootCertStore::empty();
        let mut i: usize = 0;
        while i < certs.len()
            invariant
                0 <= i <= certs.len(),
                ders == der_views(certs@),
                forall|k: int| 0 <= k < i ==> (#[trigger] trust_anchor(ders[k])) is Some,
                trust_anchors(roots) == anchors_of(ders.subrange(0, i as int)),
            decreases certs.len() - i,
        {
            let added = add_root(&mut roots, &certs[i]);
            if added.is_err() {
                assert(trust_anchor(ders[i as int]) is None);
                return Err(BootstrapError::CertificateParse { path: String::from_str(path) });
            }
            proof {
                assert(anchors_of(ders.subrange(0, i + 1)) =~= anchors_of(ders.subrange(0, i as int)).push(
                    trust_anchor(ders[i as int])->0,
                ));
            }
            i = i + 1;
        }
        proof {
            assert(ders.subrange(0, i as int) =~= ders);
        }
        Ok(TrustStore { certs, roots })
    }

    /// Builds a trust store from the bytes of a PEM file.
    ///
    /// The store holds exactly the certificates of the file. The build
    /// fails, naming `path`, where the file has a malformed section, no
    /// certificate, or a certificate that is not accepted as a root.
    pub fn from_pem(path: &str, bytes: &[u8]) -> (r: Result<TrustStore, BootstrapError>)
        ensures
            build_view(r) == match trusted_certificates(bytes@) {
                Some(certs) => Ok::<Seq<Seq<u8>>, ErrorModel>(certs),
                None => Err(ErrorModel::CertificateParse { path: path@ }),
            },
            r matches Ok(store) ==> store.wf(),
    {
        match read_pem_certificates(bytes) {
            Ok(certs) => TrustStore::from_certificates(path, certs),
            Err(_) => Err(BootstrapError::CertificateParse { path: String::from_str(path) }),
        }
    }

    /// The number of certificates in the store; never zero.
    pub fn len(&self) -> (n: usize)
        ensures
            n == self@.len(),
            n > 0,
    {
        proof {
            use_type_invariant(self);
        }
        self.certs.len()
    }

    /// The certificates of the store, each in DER, in the order of the
    /// file.
    pub fn certificates(&self) -> (certs: &Vec<Vec<u8>>)
        ensures
            der_views(certs@) == self@,
    {
        &self.certs
    }

    /// The trust anchors, as TLS takes them.
    pub fn roots(&self) -> (roots: &rustls::RootCertStore)
        ensures
            trust_anchors(*roots) == self.anchors(),
    {
        &self.roots
    }

    /// Takes the store apart into its certificates and its trust anchors.
    pub fn into_parts(self) -> (parts: (Vec<Vec<u8>>, rustls::RootCertStore))
        ensures
            der_views(parts.0@) == self@,
            trust_anchors(parts.1) == self.anchors(),
            self.wf(),
    {
        proof {
            use_type_invariant(&self);
        }
        (self.certs, self.roots)
    }
}

/// A trust store holds one trust anchor for each of its certificates, in
/// the same order, and each anchor is the one its certificate yields.
pub proof fn one_anchor_per_certificate(store: TrustStore)
    requires
        store.wf(),
    ensures
        store@.len() > 0,
        store.anchors().len() == store@.len(),
        forall|i: int|
            0 <= i < store@.len() ==> trust_anchor(store@[i]) == Some(#[trigger] store.anchors()[i]),
{
}

} // verus!
