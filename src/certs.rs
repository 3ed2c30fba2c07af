use vstd::prelude::*;

verus! {

/// The public key, as PEM, of the X.509 certificate that `pem` encodes;
/// `None` when no key can be read from it.
pub uninterp spec fn cert_key_pem(pem: Seq<u8>) -> Option<Seq<u8>>;

/// The public key, as DER, of the X.509 certificate that `pem` encodes.
pub uninterp spec fn cert_key_der(pem: Seq<u8>) -> Option<Seq<u8>>;

/// The DER form of the X.509 certificate that `pem` encodes.
pub uninterp spec fn cert_der_of(pem: Seq<u8>) -> Option<Seq<u8>>;

/// The longest PEM input, in bytes, that openssl reads (it takes the length
/// as a C `int`).
pub const MAX_CERT_PEM_LEN: usize = 2147483647;

pub open spec fn opt_seq(o: Option<Vec<u8>>) -> Option<Seq<u8>> {
    match o {
        Some(v) => Some(v@),
        None => None,
    }
}

/// The provider's signing key in the three forms the store keeps.
#[derive(Debug, Clone)]
pub struct KeyMaterial {
    pub public_key_pem: Vec<u8>,
    pub public_key_der: Vec<u8>,
    pub cert_der: Vec<u8>,
}

/// Relies on openssl's X509::from_pem, X509Ref::public_key and
/// PKeyRef::public_key_to_pem: the certificate's public key as PEM.
#[verifier::external_body]
fn certificate_key_pem(pem: &[u8]) -> (r: Option<Vec<u8>>)
    requires
        pem@.len() <= MAX_CERT_PEM_LEN,
    ensures
        opt_seq(r) == cert_key_pem(pem@),
{
    openssl::x509::X509::from_pem(pem).ok()?.public_key().ok()?.public_key_to_pem().ok()
}

/// Relies on openssl's X509::from_pem, X509Ref::public_key and
/// PKeyRef::public_key_to_der: the certificate's public key as DER.
#[verifier::external_body]
fn certificate_key_der(pem: &[u8]) -> (r: Option<Vec<u8>>)
    requires
        pem@.len() <= MAX_CERT_PEM_LEN,
    ensures
        opt_seq(r) == cert_key_der(pem@),
{
    openssl::x509::X509::from_pem(pem).ok()?.public_key().ok()?.public_key_to_der().ok()
}

/// Relies on openssl's X509::from_pem and X509Ref::to_der: the certificate
/// as DER.
#[verifier::external_body]
fn certificate_der(pem: &[u8]) -> (r: Option<Vec<u8>>)
    requires
        pem@.len() <= MAX_CERT_PEM_LEN,
    ensures
        opt_seq(r) == cert_der_of(pem@),
{
    openssl::x509::X509::from_pem(pem).ok()?.to_der().ok()
}

/// Parses the provider's PEM-encoded signing certificate and extracts its
/// public key as PEM and DER, with the certificate as DER. `None` when the
/// input is too long for openssl, or the certificate or its key cannot be
/// read.
pub fn key_material_from_pem(pem_cert: &[u8]) -> (r: Option<KeyMaterial>)
    ensures
        pem_cert@.len() > MAX_CERT_PEM_LEN ==> r is None,
        pem_cert@.len() <= MAX_CERT_PEM_LEN ==> (r is Some <==> (cert_key_pem(pem_cert@) is Some
            && cert_key_der(pem_cert@) is Some && cert_der_of(pem_cert@) is Some)),
        r matches Some(m) ==> Some(m.public_key_pem@) == cert_key_pem(pem_cert@) && Some(
            m.public_key_der@,
        ) == cert_key_der(pem_cert@) && Some(m.cert_der@) == cert_der_of(pem_cert@),
{
    if pem_cert.len() > MAX_CERT_PEM_LEN {
        return None;
    }
    let public_key_pem = certificate_key_pem(pem_cert)?;
    let public_key_der = certificate_key_der(pem_cert)?;
    let cert_der = certificate_der(pem_cert)?;
    Some(KeyMaterial { public_key_pem, public_key_der, cert_der })
}

pub open spec fn pub_key_pem_key() -> Seq<char> {
    "jwt_pub_key_pem"@
}

pub open spec fn pub_key_der_key() -> Seq<char> {
    "jwt_pub_key_der"@
}

pub open spec fn cert_der_key() -> Seq<char> {
    "jwt_cert_der"@
}

impl KeyMaterial {
    /// The store entries that provisioning writes, each form under its fixed
    /// key; writing them replaces any earlier key material.
    pub fn store_entries(self) -> (r: Vec<(String, Vec<u8>)>)
        ensures
            r@.len() == 3,
            r@[0].0@ == pub_key_pem_key() && r@[0].1 == self.public_key_pem,
            r@[1].0@ == pub_key_der_key() && r@[1].1 == self.public_key_der,
            r@[2].0@ == cert_der_key() && r@[2].1 == self.cert_der,
    {
        proof {
            reveal_strlit("jwt_pub_key_pem");
            reveal_strlit("jwt_pub_key_der");
            reveal_strlit("jwt_cert_der");
        }
        let mut r: Vec<(String, Vec<u8>)> = Vec::new();
        r.push((String::from_str("jwt_pub_key_pem"), self.public_key_pem));
        r.push((String::from_str("jwt_pub_key_der"), self.public_key_der));
        r.push((String::from_str("jwt_cert_der"), self.cert_der));
        r
    }
}

/// The store key under which the PEM public key is kept.
pub fn pub_key_pem_store_key() -> (r: String)
    ensures
        r@ == pub_key_pem_key(),
{
    proof {
        reveal_strlit("jwt_pub_key_pem");
    }
    String::from_str("jwt_pub_key_pem")
}

} // verus!
