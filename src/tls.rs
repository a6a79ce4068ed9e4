//! The trust store and client identity of a verified TLS context, from the
//! PEM files that a TLS plan names.
use vstd::prelude::*;
use vstd::string::*;
use rustls::pki_types::{CertificateDer, PrivateKeyDer};
use rustls::RootCertStore;
use crate::error::KafkaError;

verus! {

#[verifier::external_type_specification]
#[verifier::external_body]
pub struct ExPrivateKeyDer<'a>(PrivateKeyDer<'a>);

#[verifier::external_type_specification]
#[verifier::external_body]
pub struct ExRootCertStore(RootCertStore);

/// The certificate sections of PEM bytes, in order: the DER bytes of each,
/// or `None` for one that could not be read.
pub uninterp spec fn pem_cert_sections(pem: Seq<u8>) -> Seq<Option<Seq<u8>>>;

/// What reading a private key from PEM bytes gives: `None` for a read
/// error, else whether a key section was found.
pub uninterp spec fn pem_key_outcome(pem: Seq<u8>) -> Option<bool>;

/// The trust anchor that the DER certificate `der` gives, or `None` when
/// it cannot serve as one.
pub uninterp spec fn anchor_of(der: Seq<u8>) -> Option<Seq<u8>>;

/// The trust anchors that a store holds, in the order they were added.
pub uninterp spec fn store_anchors(s: RootCertStore) -> Seq<Seq<u8>>;

/// The sections that reading certificates gave, as optional DER bytes.
pub open spec fn section_views(v: Seq<Result<Vec<u8>, String>>) -> Seq<Option<Seq<u8>>> {
    v.map_values(
        |x: Result<Vec<u8>, String>|
            match x {
                Ok(d) => Some(d@),
                Err(_) => None,
            },
    )
}

/// Relies on rustls's `RootCertStore::empty`: a store with no trust anchor.
pub assume_specification[ RootCertStore::empty ]() -> (r: RootCertStore)
    ensures
        store_anchors(r) == Seq::<Seq<u8>>::empty(),
;

/// Relies on rustls's `RootCertStore::add`: the anchor that the certificate
/// gives is appended to the store; a certificate that gives none leaves the
/// store as it was and is reported with the error's message.
#[verifier::external_body]
fn add_anchor(store: &mut RootCertStore, der: &Vec<u8>) -> (r: Result<(), String>)
    ensures
        r is Ok <==> anchor_of(der@) is Some,
        anchor_of(der@) is Some ==> store_anchors(*final(store)) == store_anchors(*old(store)).push(
            anchor_of(der@)->Some_0,
        ),
        anchor_of(der@) is None ==> store_anchors(*final(store)) == store_anchors(*old(store)),
{
    store.add(CertificateDer::from(der.as_slice())).map_err(|e| e.to_string())
}

/// Relies on `rustls_pemfile::certs`: each certificate section of the PEM
/// bytes in order, as DER bytes, or the message of the error met reading
/// it; bytes with no PEM section give none.
#[verifier::external_body]
fn pem_certificates(pem: &[u8]) -> (r: Vec<Result<Vec<u8>, String>>)
    ensures
        section_views(r@) == pem_cert_sections(pem@),
        pem@.len() == 0 ==> r@.len() == 0,
{
    let mut reader = pem;
    rustls_pemfile::certs(&mut reader).map(|c| c.map(|d| d.to_vec()).map_err(|e| e.to_string())).collect()
}

/// Relies on `rustls_pemfile::private_key`: the first private key section
/// of the PEM bytes, none if there is none, or the message of the error met
/// reading them; bytes with no PEM section hold no key.
#[verifier::external_body]
fn pem_private_key(pem: &[u8]) -> (r: Result<Option<PrivateKeyDer<'static>>, String>)
    ensures
        r is Err ==> pem_key_outcome(pem@) is None,
        r is Ok ==> pem_key_outcome(pem@) == Some(r->Ok_0 is Some),
        pem@.len() == 0 ==> (r is Ok && r->Ok_0 is None),
{
    let mut reader = pem;
    rustls_pemfile::private_key(&mut reader).map_err(|e| e.to_string())
}

/// `e` is an invalid-configuration error whose reason starts with `prefix`.
pub open spec fn invalid_with_prefix(e: KafkaError, prefix: Seq<char>) -> bool {
    e is InvalidConfig && prefix.len() <= e->InvalidConfig_0@.len()
        && e->InvalidConfig_0@.take(prefix.len() as int) == prefix
}

fn invalid_config(prefix: &str, detail: String) -> (r: KafkaError)
    ensures
        invalid_with_prefix(r, prefix@),
        r->InvalidConfig_0@ == prefix@ + detail@,
{
    let m = String::from_str(prefix).concat(detail.as_str());
    proof {
        assert((prefix@ + detail@).take(prefix@.len() as int) =~= prefix@);
    }
    KafkaError::InvalidConfig(m)
}

/// The PEM files of a TLS set-up.
#[derive(Clone, Copy, Debug, PartialEq, Eq, Structural)]
pub enum PemFile {
    CaCert,
    ClientCert,
    ClientKey,
}

/// The reason given when `f` cannot be read.
pub open spec fn read_failure_prefix(f: PemFile) -> Seq<char> {
    match f {
        PemFile::CaCert => "Failed to read CA cert: "@,
        PemFile::ClientCert => "Failed to read client cert: "@,
        PemFile::ClientKey => "Failed to read client key: "@,
    }
}

/// The error for a file `f` that could not be read, with the reason `detail`.
pub fn read_failed(f: PemFile, detail: String) -> (r: KafkaError)
    ensures
        r is InvalidConfig,
        r->InvalidConfig_0@ == read_failure_prefix(f) + detail@,
{
    match f {
        PemFile::CaCert => invalid_config("Failed to read CA cert: ", detail),
        PemFile::ClientCert => invalid_config("Failed to read client cert: ", detail),
        PemFile::ClientKey => invalid_config("Failed to read client key: ", detail),
    }
}

/// Every section of a CA file is a certificate that can be a trust anchor.
pub open spec fn ca_sections_usable(secs: Seq<Option<Seq<u8>>>) -> bool {
    forall|i: int| 0 <= i < secs.len() ==> #[trigger] secs[i] is Some && anchor_of(secs[i]->Some_0) is Some
}

/// The trust anchors of usable CA sections, in order.
pub open spec fn ca_anchors(secs: Seq<Option<Seq<u8>>>) -> Seq<Seq<u8>> {
    secs.map_values(|x: Option<Seq<u8>>| anchor_of(x->Some_0)->Some_0)
}

/// A trust store of the certificates in the CA file `pem`. It is built
/// exactly when every section of the file is a certificate that can be a
/// trust anchor, and then holds their anchors in order. A section that
/// cannot be read fails with "Failed to parse CA cert: ", one that cannot be
/// an anchor with "Failed to add CA cert: ".
pub fn ca_root_store(pem: &Vec<u8>) -> (r: Result<RootCertStore, KafkaError>)
    ensures
        r is Ok <==> ca_sections_usable(pem_cert_sections(pem@)),
        r is Ok ==> store_anchors(r->Ok_0) == ca_anchors(pem_cert_sections(pem@)),
        r is Err ==> invalid_with_prefix(r->Err_0, "Failed to parse CA cert: "@)
            || invalid_with_prefix(r->Err_0, "Failed to add CA cert: "@),
        pem@.len() == 0 ==> r is Ok,
{
    let sections = pem_certificates(pem.as_slice());
    let ghost secs = pem_cert_sections(pem@);
    let mut store = RootCertStore::empty();
    let mut i: usize = 0;
    proof {
        assert(ca_anchors(secs.take(0)) =~= store_anchors(store));
    }
    while i < sections.len()
        invariant
            i <= sections@.len(),
            section_views(sections@) == secs,
            secs == pem_cert_sections(pem@),
            pem@.len() == 0 ==> sections@.len() == 0,
            secs.len() == sections@.len(),
            ca_sections_usable(secs.take(i as int)),
            store_anchors(store) == ca_anchors(secs.take(i as int)),
        decreases sections@.len() - i,
    {
        assert(secs[i as int] == match sections@[i as int] {
            Ok(d) => Some(d@),
            Err(_) => None::<Seq<u8>>,
        });
        match &sections[i] {
            Ok(der) => {
                match add_anchor(&mut store, der) {
                    Ok(()) => {},
                    Err(d) => {
                        proof {
                            assert(!ca_sections_usable(secs));
                        }
                        return Err(invalid_config("Failed to add CA cert: ", d));
                    },
                }
            },
            Err(d) => {
                proof {
                    assert(!ca_sections_usable(secs));
                }
                return Err(invalid_config("Failed to parse CA cert: ", d.clone()));
            },
        }
        proof {
            assert(secs.take(i + 1) =~= secs.take(i as int).push(secs[i as int]));
            assert(ca_anchors(secs.take(i + 1)) =~= ca_anchors(secs.take(i as int)).push(
                anchor_of(secs[i as int]->Some_0)->Some_0,
            ));
        }
        i = i + 1;
    }
    proof {
        assert(secs.take(i as int) =~= secs);
    }
    Ok(store)
}

/// The anchors that the certificates `ders` give, in order, those that give
/// none passed over.
pub open spec fn accepted_anchors(ders: Seq<Seq<u8>>) -> Seq<Seq<u8>>
    decreases ders.len(),
{
    if ders.len() == 0 {
        Seq::empty()
    } else {
        let rest = accepted_anchors(ders.drop_last());
        match anchor_of(ders.last()) {
            Some(a) => rest.push(a),
            None => rest,
        }
    }
}

/// A trust store of the system's certificates `certs` (DER bytes), each
/// added where it can be an anchor and passed over where it cannot.
pub fn native_root_store(certs: &Vec<Vec<u8>>) -> (r: RootCertStore)
    ensures
        store_anchors(r) == accepted_anchors(views_of_bytes(certs@)),
{
    let mut store = RootCertStore::empty();
    let mut i: usize = 0;
    while i < certs.len()
        invariant
            i <= certs@.len(),
            store_anchors(store) == accepted_anchors(views_of_bytes(certs@).take(i as int)),
        decreases certs@.len() - i,
    {
        let _ = add_anchor(&mut store, &certs[i]);
        proof {
            let d = views_of_bytes(certs@);
            assert(d.take(i + 1).drop_last() =~= d.take(i as int));
        }
        i = i + 1;
    }
    proof {
        assert(views_of_bytes(certs@).take(certs@.len() as int) =~= views_of_bytes(certs@));
    }
    store
}

/// The views of a list of byte vectors.
pub open spec fn views_of_bytes(v: Seq<Vec<u8>>) -> Seq<Seq<u8>> {
    v.map_values(|x: Vec<u8>| x@)
}

/// The sections that could be read, in order.
pub open spec fn readable_sections(secs: Seq<Option<Seq<u8>>>) -> Seq<Seq<u8>>
    decreases secs.len(),
{
    if secs.len() == 0 {
        Seq::empty()
    } else {
        let rest = readable_sections(secs.drop_last());
        match secs.last() {
            Some(d) => rest.push(d),
            None => rest,
        }
    }
}

/// The certificate chain of the client certificate file `pem`, as DER
/// bytes: its certificate sections in order, those that cannot be read
/// passed over.
pub fn client_chain(pem: &Vec<u8>) -> (r: Vec<Vec<u8>>)
    ensures
        views_of_bytes(r@) == readable_sections(pem_cert_sections(pem@)),
{
    let sections = pem_certificates(pem.as_slice());
    let ghost secs = pem_cert_sections(pem@);
    let mut chain: Vec<Vec<u8>> = Vec::new();
    let mut i: usize = 0;
    proof {
        assert(views_of_bytes(chain@) =~= readable_sections(secs.take(0)));
    }
    while i < sections.len()
        invariant
            i <= sections@.len(),
            section_views(sections@) == secs,
            secs == pem_cert_sections(pem@),
            pem@.len() == 0 ==> sections@.len() == 0,
            secs.len() == sections@.len(),
            views_of_bytes(chain@) == readable_sections(secs.take(i as int)),
        decreases sections@.len() - i,
    {
        assert(secs[i as int] == match sections@[i as int] {
            Ok(d) => Some(d@),
            Err(_) => None::<Seq<u8>>,
        });
        proof {
            assert(secs.take(i + 1).drop_last() =~= secs.take(i as int));
        }
        if let Ok(der) = &sections[i] {
            chain.push(der.clone());
            proof {
                assert(views_of_bytes(chain@) =~= readable_sections(secs.take(i as int)).push(der@));
            }
        }
        i = i + 1;
    }
    proof {
        assert(secs.take(i as int) =~= secs);
    }
    chain
}

/// The reason given when the key file holds no private key.
pub open spec fn no_key_text() -> Seq<char> {
    "No private key found in key file"@
}

/// The client's private key, from what reading the key file gave: a key,
/// none, or the message of a read error.
pub fn key_from(parsed: Result<Option<PrivateKeyDer<'static>>, String>) -> (r: Result<
    PrivateKeyDer<'static>,
    KafkaError,
>)
    ensures
        match parsed {
            Ok(Some(k)) => r == Ok::<PrivateKeyDer<'static>, KafkaError>(k),
            Ok(None) => r is Err && r->Err_0 is InvalidConfig && r->Err_0->InvalidConfig_0@
                == no_key_text(),
            Err(d) => r is Err && r->Err_0 is InvalidConfig && r->Err_0->InvalidConfig_0@
                == "Failed to parse client key: "@ + d@,
        },
{
    match parsed {
        Ok(Some(k)) => Ok(k),
        Ok(None) => Err(KafkaError::InvalidConfig(String::from_str("No private key found in key file"))),
        Err(d) => Err(invalid_config("Failed to parse client key: ", d)),
    }
}

/// The private key of the client key file `pem`: found exactly when the
/// file holds a key section and reads without error.
pub fn client_key(pem: &Vec<u8>) -> (r: Result<PrivateKeyDer<'static>, KafkaError>)
    ensures
        r is Ok <==> pem_key_outcome(pem@) == Some(true),
        pem_key_outcome(pem@) == Some(false) ==> r is Err && r->Err_0 is InvalidConfig
            && r->Err_0->InvalidConfig_0@ == no_key_text(),
        pem_key_outcome(pem@) is None ==> r is Err && invalid_with_prefix(
            r->Err_0,
            "Failed to parse client key: "@,
        ),
        pem@.len() == 0 ==> r is Err && r->Err_0->InvalidConfig_0@ == no_key_text(),
{
    let parsed = pem_private_key(pem.as_slice());
    proof {
        if parsed is Err {
            assert(("Failed to parse client key: "@ + parsed->Err_0@).take(
                "Failed to parse client key: "@.len() as int,
            ) =~= "Failed to parse client key: "@);
        }
    }
    key_from(parsed)
}

/// The error for a client certificate and key that rustls would not take,
/// with rustls's message `detail`.
pub fn client_auth_failed(detail: String) -> (r: KafkaError)
    ensures
        r is InvalidConfig,
        r->InvalidConfig_0@ == "Failed to configure client auth: "@ + detail@,
{
    invalid_config("Failed to configure client auth: ", detail)
}

} // verus!
