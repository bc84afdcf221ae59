//! Role bootstrap: the server's certificate chain and key, decoded from PEM
//! text and handed to the engine's configuration builder, and the client's
//! trust anchors.
use vstd::prelude::*;
use rustls::pki_types::{CertificateDer, PrivateKeyDer};
use rustls::{ClientConfig, RootCertStore, ServerConfig};
use crate::driver::{ConfigFault, SessionError};

verus! {

#[verifier::external_type_specification]
#[verifier::external_body]
pub struct ExServerConfig(ServerConfig);

#[verifier::external_type_specification]
#[verifier::external_body]
pub struct ExClientConfig(ClientConfig);

#[verifier::external_type_specification]
#[verifier::external_body]
pub struct ExRootCertStore(RootCertStore);

#[verifier::external_type_specification]
#[verifier::external_body]
pub struct ExPrivateKeyDer<'a>(PrivateKeyDer<'a>);

#[verifier::external_type_specification]
#[verifier::external_body]
pub struct ExTlsError(rustls::Error);

/// The entries that the PEM decoder finds among the certificate sections of
/// `pem`, in order: the DER bytes of each, or `None` for one it could not
/// decode.
pub uninterp spec fn pem_cert_entries(pem: Seq<u8>) -> Seq<Option<Seq<u8>>>;

/// What the PEM decoder makes of the first private-key section of `pem`:
/// `None` when the text cannot be decoded, `Some(None)` when it holds no
/// private key, `Some(Some((format, der)))` for the key it found.
pub uninterp spec fn pem_private_key_of(pem: Seq<u8>) -> Option<Option<(KeyFormat, Seq<u8>)>>;

/// Whether the engine's configuration builder accepts the certificate chain
/// `chain` (DER, leaf first) with the private key `key` in the given format.
/// It refuses a key it cannot load, an empty chain, and a key whose public
/// key does not match the leaf certificate's.
pub uninterp spec fn single_cert_accepts(chain: Seq<Seq<u8>>, format: KeyFormat, key: Seq<u8>) -> bool;

/// Whether `der` can be parsed as a trust anchor.
pub uninterp spec fn trust_anchor_ok(der: Seq<u8>) -> bool;

/// The encoding of a private key.
#[derive(Clone, Copy, Debug, PartialEq, Eq, Structural)]
pub enum KeyFormat {
    /// An RSA key (PKCS#1).
    Pkcs1,
    /// An elliptic-curve key (SEC1).
    Sec1,
    /// A key of any algorithm (PKCS#8).
    Pkcs8,
}

/// A private key as DER bytes, with its encoding.
pub struct KeyDer {
    pub format: KeyFormat,
    pub der: Vec<u8>,
}

/// Relies on `rustls_pemfile::certs`: it yields, in order, one result per
/// certificate section of the text, and depends on the text alone.
#[verifier::external_body]
fn pem_certificates(pem: &[u8]) -> (r: Vec<Option<Vec<u8>>>)
    ensures
        r.deep_view() == pem_cert_entries(pem@),
{
    let mut rd: &[u8] = pem;
    rustls_pemfile::certs(&mut rd).map(|c| c.ok().map(|c| c.to_vec())).collect()
}

/// Relies on `rustls_pemfile::private_key`: it returns the first private key
/// of the text, `None` where there is none, or an error where the text cannot
/// be decoded; the outcome depends on the text alone. Each of the key types
/// it yields is carried over with its bytes.
#[verifier::external_body]
fn pem_private_key(pem: &[u8]) -> (r: Result<Option<KeyDer>, ()>)
    ensures
        match pem_private_key_of(pem@) {
            None => r is Err,
            Some(None) => r is Ok && r->Ok_0 is None,
            Some(Some((format, der))) => r is Ok && r->Ok_0 is Some && r->Ok_0->Some_0.format
                == format && r->Ok_0->Some_0.der@ == der,
        },
{
    let mut rd: &[u8] = pem;
    match rustls_pemfile::private_key(&mut rd) {
        Err(_) => Err(()),
        Ok(None) => Ok(None),
        Ok(Some(PrivateKeyDer::Pkcs1(k))) => Ok(Some(KeyDer { format: KeyFormat::Pkcs1, der: k.secret_pkcs1_der().to_vec() })),
        Ok(Some(PrivateKeyDer::Sec1(k))) => Ok(Some(KeyDer { format: KeyFormat::Sec1, der: k.secret_sec1_der().to_vec() })),
        Ok(Some(PrivateKeyDer::Pkcs8(k))) => Ok(Some(KeyDer { format: KeyFormat::Pkcs8, der: k.secret_pkcs8_der().to_vec() })),
        Ok(Some(_)) => Err(()),
    }
}

/// Relies on `ServerConfig::builder().with_no_client_auth().with_single_cert`:
/// a configuration for one certificate chain and its key, refused where the
/// key is invalid or does not match the leaf certificate; the verdict depends
/// on the chain and the key alone.
#[verifier::external_body]
fn single_cert_config(chain: Vec<Vec<u8>>, key: KeyDer) -> (r: Result<ServerConfig, rustls::Error>)
    ensures
        r is Ok <==> single_cert_accepts(chain.deep_view(), key.format, key.der@),
{
    let chain: Vec<CertificateDer<'static>> = chain.into_iter().map(CertificateDer::from).collect();
    let key = match key.format {
        KeyFormat::Pkcs1 => PrivateKeyDer::Pkcs1(key.der.into()),
        KeyFormat::Sec1 => PrivateKeyDer::Sec1(key.der.into()),
        KeyFormat::Pkcs8 => PrivateKeyDer::Pkcs8(key.der.into()),
    };
    ServerConfig::builder().with_no_client_auth().with_single_cert(chain, key)
}

/// Relies on `webpki_roots::TLS_SERVER_ROOTS`: the Mozilla root bundle as a
/// trust-anchor store.
#[verifier::external_body]
fn web_trust_anchors() -> (r: RootCertStore) {
    RootCertStore { roots: webpki_roots::TLS_SERVER_ROOTS.into() }
}

/// Relies on `RootCertStore::empty`: a store with no trust anchors.
#[verifier::external_body]
fn empty_trust_anchors() -> (r: RootCertStore) {
    RootCertStore::empty()
}

/// Relies on `RootCertStore::add`: adds the certificate `der` as a trust
/// anchor, or refuses it where it cannot be parsed as one; the verdict
/// depends on the bytes alone.
#[verifier::external_body]
fn add_trust_anchor(store: &mut RootCertStore, der: &[u8]) -> (r: Result<(), rustls::Error>)
    ensures
        r is Ok <==> trust_anchor_ok(der@),
{
    store.add(CertificateDer::from(der))
}

/// Relies on `ClientConfig::builder().with_root_certificates(..).with_no_client_auth()`:
/// a client configuration that verifies servers against `roots`.
#[verifier::external_body]
fn client_config_with(roots: RootCertStore) -> (r: ClientConfig) {
    ClientConfig::builder().with_root_certificates(roots).with_no_client_auth()
}

/// Whether some entry of the decoded chain could not be decoded.
pub open spec fn has_bad_entry(entries: Seq<Option<Seq<u8>>>) -> bool {
    exists|i: int| 0 <= i < entries.len() && (#[trigger] entries[i]) is None
}

/// The certificates of a chain in which every entry decoded.
pub open spec fn chain_of(entries: Seq<Option<Seq<u8>>>) -> Seq<Seq<u8>> {
    entries.map_values(|e: Option<Seq<u8>>| e->Some_0)
}

/// The whole chain, or a configuration error if any entry is malformed. The
/// chain is scanned to its end either way, and never repaired by dropping
/// the bad entries.
pub fn collect_chain(entries: Vec<Option<Vec<u8>>>) -> (r: Result<Vec<Vec<u8>>, SessionError>)
    ensures
        r is Err <==> has_bad_entry(entries.deep_view()),
        r is Err ==> r == Err::<Vec<Vec<u8>>, SessionError>(
            SessionError::Config(ConfigFault::MalformedCertificate),
        ),
        r is Ok ==> r->Ok_0.deep_view() == chain_of(entries.deep_view()),
        r is Ok ==> r->Ok_0.deep_view().len() == entries.deep_view().len() && forall|i: int|
            0 <= i < entries.deep_view().len() ==> entries.deep_view()[i] == Some(
                #[trigger] r->Ok_0.deep_view()[i],
            ),
{
    let mut certs: Vec<Vec<u8>> = Vec::new();
    let mut bad: bool = false;
    let mut i: usize = 0;
    while i < entries.len()
        invariant
            i <= entries@.len(),
            bad <==> exists|j: int| 0 <= j < i && (#[trigger] entries.deep_view()[j]) is None,
            !bad ==> certs.deep_view().len() == i && forall|j: int|
                0 <= j < i ==> entries.deep_view()[j] == Some(#[trigger] certs.deep_view()[j]),
        decreases entries@.len() - i,
    {
        match &entries[i] {
            Some(der) => {
                let copy = der.clone();
                assert(copy@ == der@);
                let ghost before = certs.deep_view();
                certs.push(copy);
                proof {
                    assert(copy.deep_view() =~= der.deep_view());
                    assert(certs.deep_view() =~= before.push(der.deep_view()));
                }
            },
            None => {
                bad = true;
            },
        }
        proof {
            assert(entries.deep_view()[i as int] == entries@[i as int].deep_view());
            if !bad {
                assert(certs.deep_view()[i as int] == certs@[i as int].deep_view());
            }
        }
        i = i + 1;
    }
    if bad {
        Err(SessionError::Config(ConfigFault::MalformedCertificate))
    } else {
        assert(certs.deep_view() =~= chain_of(entries.deep_view()));
        Ok(certs)
    }
}

/// Builds the server's configuration from the PEM text of its certificate
/// chain and of its private key. Any malformed certificate entry rejects the
/// whole chain; then the key must decode and be present; then the engine must
/// accept the pair, which it refuses where the key does not match the leaf
/// certificate.
pub fn load_server_config(cert_pem: &[u8], key_pem: &[u8]) -> (r: Result<ServerConfig, SessionError>)
    ensures
        has_bad_entry(pem_cert_entries(cert_pem@)) <==> r == Err::<ServerConfig, SessionError>(
            SessionError::Config(ConfigFault::MalformedCertificate),
        ),
        r == Err::<ServerConfig, SessionError>(SessionError::Config(ConfigFault::MalformedKey)) <==> (
        !has_bad_entry(pem_cert_entries(cert_pem@)) && pem_private_key_of(key_pem@) is None),
        r == Err::<ServerConfig, SessionError>(SessionError::Config(ConfigFault::MissingKey)) <==> (
        !has_bad_entry(pem_cert_entries(cert_pem@)) && pem_private_key_of(key_pem@) == Some(
            None::<(KeyFormat, Seq<u8>)>,
        )),
        !has_bad_entry(pem_cert_entries(cert_pem@)) && pem_private_key_of(key_pem@) is Some
            && pem_private_key_of(key_pem@)->Some_0 is Some ==> ({
            let (format, der) = pem_private_key_of(key_pem@)->Some_0->Some_0;
            &&& r is Ok <==> single_cert_accepts(chain_of(pem_cert_entries(cert_pem@)), format, der)
            &&& r is Err ==> r == Err::<ServerConfig, SessionError>(
                SessionError::Config(ConfigFault::Rejected),
            )
        }),
        r is Err ==> r->Err_0 is Config,
{
    let entries = pem_certificates(cert_pem);
    let chain = match collect_chain(entries) {
        Ok(chain) => chain,
        Err(e) => {
            return Err(e);
        },
    };
    let key = match pem_private_key(key_pem) {
        Err(()) => {
            return Err(SessionError::Config(ConfigFault::MalformedKey));
        },
        Ok(None) => {
            return Err(SessionError::Config(ConfigFault::MissingKey));
        },
        Ok(Some(key)) => key,
    };
    match single_cert_config(chain, key) {
        Ok(config) => Ok(config),
        Err(_) => Err(SessionError::Config(ConfigFault::Rejected)),
    }
}

/// A client configuration that trusts the public web's root authorities and
/// presents no client certificate.
pub fn web_client_config() -> (r: ClientConfig) {
    client_config_with(web_trust_anchors())
}

/// A client configuration that trusts exactly the certificates of the PEM
/// bundle `roots_pem`. As with a server chain, one malformed entry rejects
/// the whole bundle; an entry that decodes but is no usable trust anchor is a
/// configuration error too.
pub fn client_config_from_roots(roots_pem: &[u8]) -> (r: Result<ClientConfig, SessionError>)
    ensures
        has_bad_entry(pem_cert_entries(roots_pem@)) <==> r == Err::<ClientConfig, SessionError>(
            SessionError::Config(ConfigFault::MalformedCertificate),
        ),
        !has_bad_entry(pem_cert_entries(roots_pem@)) ==> (r is Ok <==> forall|i: int|
            0 <= i < pem_cert_entries(roots_pem@).len() ==> trust_anchor_ok(
                #[trigger] chain_of(pem_cert_entries(roots_pem@))[i],
            )),
        !has_bad_entry(pem_cert_entries(roots_pem@)) && r is Err ==> r
            == Err::<ClientConfig, SessionError>(SessionError::Config(ConfigFault::Rejected)),
{
    let roots = match collect_chain(pem_certificates(roots_pem)) {
        Ok(roots) => roots,
        Err(e) => {
            return Err(e);
        },
    };
    let ghost chain = chain_of(pem_cert_entries(roots_pem@));
    let mut store = empty_trust_anchors();
    let mut i: usize = 0;
    while i < roots.len()
        invariant
            i <= roots@.len(),
            !has_bad_entry(pem_cert_entries(roots_pem@)),
            chain == chain_of(pem_cert_entries(roots_pem@)),
            roots.deep_view() == chain,
            chain.len() == pem_cert_entries(roots_pem@).len(),
            forall|j: int| 0 <= j < i ==> trust_anchor_ok(#[trigger] chain[j]),
        decreases roots@.len() - i,
    {
        let cert: &Vec<u8> = &roots[i];
        assert(roots.deep_view()[i as int] == cert.deep_view());
        assert(cert@ =~= cert.deep_view());
        let der = cert.as_slice();
        if add_trust_anchor(&mut store, der).is_err() {
            assert(!trust_anchor_ok(chain_of(pem_cert_entries(roots_pem@))[i as int]));
            return Err(SessionError::Config(ConfigFault::Rejected));
        }
        i = i + 1;
    }
    Ok(client_config_with(store))
}

} // verus!
