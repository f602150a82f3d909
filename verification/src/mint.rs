//! Minting certificates with `rcgen`: the root CA and per-domain leaf certificates.
use vstd::prelude::*;
use rcgen::{Certificate, CertificateParams, Issuer, KeyPair};
use crate::text::owned;

verus! {

#[verifier::external_type_specification]
#[verifier::external_body]
pub struct ExKeyPair(KeyPair);

#[verifier::external_type_specification]
#[verifier::external_body]
pub struct ExCertificate(Certificate);

#[verifier::external_type_specification]
#[verifier::external_body]
pub struct ExCertificateParams(CertificateParams);

#[verifier::external_type_specification]
#[verifier::external_body]
pub struct ExRcgenError(rcgen::Error);

#[verifier::external_type_specification]
#[verifier::external_body]
#[verifier::reject_recursive_types(S)]
pub struct ExIssuer<'a, S>(Issuer<'a, S>);

/// A key usage that a certificate allows.
#[derive(Clone, Copy, Debug, PartialEq, Eq, Structural)]
pub enum KeyUse {
    DigitalSignature,
    KeyCertSign,
    CrlSign,
}

/// What a certificate is to say: its subject alternative names, its common
/// name, whether it is an unconstrained CA, its key usages, and whether it
/// is for server authentication.
#[derive(Debug)]
pub struct CertPlan {
    pub subject_alt_names: Vec<String>,
    pub common_name: String,
    pub is_ca: bool,
    pub key_usages: Vec<KeyUse>,
    pub server_auth: bool,
}

/// The mathematical value of a certificate plan.
pub struct CertPlanView {
    pub subject_alt_names: Seq<Seq<char>>,
    pub common_name: Seq<char>,
    pub is_ca: bool,
    pub key_usages: Seq<KeyUse>,
    pub server_auth: bool,
}

impl View for CertPlan {
    type V = CertPlanView;

    open spec fn view(&self) -> CertPlanView {
        CertPlanView {
            subject_alt_names: self.subject_alt_names@.map_values(|s: String| s@),
            common_name: self.common_name@,
            is_ca: self.is_ca,
            key_usages: self.key_usages@,
            server_auth: self.server_auth,
        }
    }
}

/// The root CA's plan: common name `GisoNet CA`, an unconstrained CA, no
/// alternative names, not for server authentication; a freshly generated CA
/// also allows digital signature, certificate signing and CRL signing.
pub open spec fn root_ca_plan_view(generated: bool) -> CertPlanView {
    CertPlanView {
        subject_alt_names: Seq::empty(),
        common_name: "GisoNet CA"@,
        is_ca: true,
        key_usages: if generated {
            seq![KeyUse::DigitalSignature, KeyUse::KeyCertSign, KeyUse::CrlSign]
        } else {
            Seq::empty()
        },
        server_auth: false,
    }
}

/// The leaf plan for `domain`: the domain as sole alternative name and as
/// common name, not a CA, no key usages, for server authentication.
pub open spec fn leaf_plan_view(domain: Seq<char>) -> CertPlanView {
    CertPlanView {
        subject_alt_names: seq![domain],
        common_name: domain,
        is_ca: false,
        key_usages: Seq::empty(),
        server_auth: true,
    }
}

/// The plan of the issuer that signs leaf certificates: common name `Dynamic CA`, nothing else.
pub open spec fn issuer_plan_view() -> CertPlanView {
    CertPlanView {
        subject_alt_names: Seq::empty(),
        common_name: "Dynamic CA"@,
        is_ca: false,
        key_usages: Seq::empty(),
        server_auth: false,
    }
}

/// What certificate parameters say: the subject alternative names (as text),
/// the subject's common name if set, whether the subject is an unconstrained
/// CA, the key usages, and whether the extended key usage is server
/// authentication alone. Everything else keeps rcgen's defaults.
pub struct ParamsView {
    pub subject_alt_names: Seq<Seq<char>>,
    pub common_name: Option<Seq<char>>,
    pub is_ca: bool,
    pub key_usages: Seq<KeyUse>,
    pub server_auth: bool,
}

/// The parameters that carry out a plan.
pub open spec fn plan_params(p: CertPlanView) -> ParamsView {
    ParamsView {
        subject_alt_names: p.subject_alt_names,
        common_name: Some(p.common_name),
        is_ca: p.is_ca,
        key_usages: p.key_usages,
        server_auth: p.server_auth,
    }
}

/// rcgen's certificate parameters, with what they say.
pub struct Params {
    inner: CertificateParams,
    model: Ghost<ParamsView>,
}

impl View for Params {
    type V = ParamsView;

    closed spec fn view(&self) -> ParamsView {
        self.model@
    }
}

/// What a key pair is: its PKCS#8 DER serialization, and whether it is an
/// ECDSA P-256 key.
pub struct KeyView {
    pub der: Seq<u8>,
    pub p256: bool,
}

/// An rcgen key pair, with what it is.
pub struct Key {
    inner: KeyPair,
    model: Ghost<KeyView>,
}

impl View for Key {
    type V = KeyView;

    closed spec fn view(&self) -> KeyView {
        self.model@
    }
}

/// The text that `KeyPair::from_pem` reads a key from gives the key whose
/// DER serialization is the PEM block's contents: this names those contents.
pub uninterp spec fn pem_key_der(pem: Seq<char>) -> Seq<u8>;

/// What `KeyPair::serialize_pem` gives for a key with this DER serialization:
/// a PEM block labelled `PRIVATE KEY` holding it.
pub uninterp spec fn key_pem_text(der: Seq<u8>) -> Seq<char>;

/// What `Certificate::pem` gives for a certificate with this DER encoding: a
/// PEM block labelled `CERTIFICATE` holding it.
pub uninterp spec fn certificate_pem_text(der: Seq<u8>) -> Seq<char>;

/// What a certificate says: its subject (from the parameters it was made
/// from), its issuer's subject, the key it certifies, the key it was signed
/// with, and its DER encoding.
pub struct CertView {
    pub subject: ParamsView,
    pub issuer: ParamsView,
    pub subject_key: KeyView,
    pub signing_key: KeyView,
    pub der: Seq<u8>,
}

/// An rcgen certificate, with what it says.
pub struct Cert {
    inner: Certificate,
    model: Ghost<CertView>,
}

impl View for Cert {
    type V = CertView;

    closed spec fn view(&self) -> CertView {
        self.model@
    }
}

/// An rcgen issuer that signs with a borrowed key, with the parameters and key it stands for.
pub struct IssuerRef<'a> {
    inner: Issuer<'a, &'a KeyPair>,
    params: Ghost<ParamsView>,
    key: Ghost<KeyView>,
}

impl<'a> View for IssuerRef<'a> {
    type V = (ParamsView, KeyView);

    closed spec fn view(&self) -> (ParamsView, KeyView) {
        (self.params@, self.key@)
    }
}

/// Why minting failed.
#[derive(Clone, Copy, Debug, PartialEq, Eq, Structural)]
pub enum MintError {
    /// A subject alternative name could not be encoded.
    InvalidName,
    /// The stored key could not be read.
    KeyLoad,
    /// A new key could not be generated.
    KeyGeneration,
    /// The certificate could not be signed.
    Signing,
}

/// A leaf certificate and its key, both in PEM form, with what the
/// certificate says.
pub struct LeafPem {
    pub cert_pem: String,
    pub key_pem: String,
    pub issued: Ghost<CertView>,
}

/// Whether every character of `s` is ASCII.
pub open spec fn all_ascii(s: Seq<char>) -> bool {
    forall|i: int| 0 <= i < s.len() ==> (s[i] as u32) < 128
}

/// Whether every name in `names` is ASCII.
pub open spec fn all_names_ascii(names: Seq<Seq<char>>) -> bool {
    forall|i: int| 0 <= i < names.len() ==> all_ascii(#[trigger] names[i])
}

/// The root CA's plan (see `root_ca_plan_view`).
pub fn root_ca_plan(generated: bool) -> (p: CertPlan)
    ensures
        p@ == root_ca_plan_view(generated),
{
    let mut usages: Vec<KeyUse> = Vec::new();
    if generated {
        usages.push(KeyUse::DigitalSignature);
        usages.push(KeyUse::KeyCertSign);
        usages.push(KeyUse::CrlSign);
    }
    let p = CertPlan {
        subject_alt_names: Vec::new(),
        common_name: owned("GisoNet CA"),
        is_ca: true,
        key_usages: usages,
        server_auth: false,
    };
    assert(p@.key_usages =~= root_ca_plan_view(generated).key_usages);
    assert(p@.subject_alt_names =~= Seq::<Seq<char>>::empty());
    p
}

/// The leaf plan for `domain` (see `leaf_plan_view`).
pub fn leaf_plan(domain: &str) -> (p: CertPlan)
    ensures
        p@ == leaf_plan_view(domain@),
{
    let mut names: Vec<String> = Vec::new();
    names.push(owned(domain));
    let p = CertPlan {
        subject_alt_names: names,
        common_name: owned(domain),
        is_ca: false,
        key_usages: Vec::new(),
        server_auth: true,
    };
    assert(p@.subject_alt_names =~= seq![domain@]);
    assert(p@.key_usages =~= Seq::<KeyUse>::empty());
    p
}

/// The plan of the issuer that signs leaf certificates (see `issuer_plan_view`).
pub fn issuer_plan() -> (p: CertPlan)
    ensures
        p@ == issuer_plan_view(),
{
    let p = CertPlan {
        subject_alt_names: Vec::new(),
        common_name: owned("Dynamic CA"),
        is_ca: false,
        key_usages: Vec::new(),
        server_auth: false,
    };
    assert(p@.subject_alt_names =~= Seq::<Seq<char>>::empty());
    assert(p@.key_usages =~= Seq::<KeyUse>::empty());
    p
}

/// The parameters that `CertificateParams::new` makes for these names: the
/// names as subject alternative names, everything else at its default (whose
/// subject has the common name `rcgen self signed cert`).
pub open spec fn default_params(names: Seq<Seq<char>>) -> ParamsView {
    ParamsView {
        subject_alt_names: names,
        common_name: Some("rcgen self signed cert"@),
        is_ca: false,
        key_usages: Seq::empty(),
        server_auth: false,
    }
}

/// `CertificateParams::new`: default parameters with these subject
/// alternative names (an IP address where the name parses as one, else a DNS
/// name). It fails exactly when a name is not ASCII.
#[verifier::external_body]
fn new_params(names: Vec<String>) -> (r: Result<Params, rcgen::Error>)
    ensures
        r is Ok <==> all_names_ascii(names@.map_values(|s: String| s@)),
        r is Ok ==> r->Ok_0@ == default_params(names@.map_values(|s: String| s@)),
{
    let model = Ghost(default_params(names@.map_values(|s: String| s@)));
    match CertificateParams::new(names) {
        Ok(inner) => Ok(Params { inner, model }),
        Err(e) => Err(e),
    }
}

/// `DistinguishedName::push` on the parameters' subject: sets its common name.
#[verifier::external_body]
fn set_common_name(params: &mut Params, name: &str)
    ensures
        final(params)@ == (ParamsView { common_name: Some(name@), ..old(params)@ }),
{
    params.inner.distinguished_name.push(rcgen::DnType::CommonName, name)
}

/// Makes the parameters those of an unconstrained CA (`IsCa::Ca(BasicConstraints::Unconstrained)`).
#[verifier::external_body]
fn set_unconstrained_ca(params: &mut Params)
    ensures
        final(params)@ == (ParamsView { is_ca: true, ..old(params)@ }),
{
    params.inner.is_ca = rcgen::IsCa::Ca(rcgen::BasicConstraints::Unconstrained)
}

/// Adds a key usage to the parameters (as the matching `KeyUsagePurpose`).
#[verifier::external_body]
fn add_key_usage(params: &mut Params, usage: KeyUse)
    ensures
        final(params)@ == (ParamsView { key_usages: old(params)@.key_usages.push(usage), ..old(params)@ }),
{
    params.inner.key_usages.push(
        match usage {
            KeyUse::DigitalSignature => rcgen::KeyUsagePurpose::DigitalSignature,
            KeyUse::KeyCertSign => rcgen::KeyUsagePurpose::KeyCertSign,
            KeyUse::CrlSign => rcgen::KeyUsagePurpose::CrlSign,
        },
    )
}

/// Sets the parameters' extended key usages to server authentication alone.
#[verifier::external_body]
fn set_server_auth(params: &mut Params)
    ensures
        final(params)@ == (ParamsView { server_auth: true, ..old(params)@ }),
{
    params.inner.extended_key_usages = vec![rcgen::ExtendedKeyUsagePurpose::ServerAuth]
}

/// `KeyPair::generate_for(&PKCS_ECDSA_P256_SHA256)`: a fresh random ECDSA
/// P-256 key. Its serialization is random and not stated.
#[verifier::external_body]
fn generate_p256_key() -> (r: Result<Key, rcgen::Error>)
    ensures
        r is Ok ==> r->Ok_0@.p256,
{
    match KeyPair::generate_for(&rcgen::PKCS_ECDSA_P256_SHA256) {
        Ok(inner) => Ok(Key { inner, model: Ghost(KeyView { der: arbitrary(), p256: true }) }),
        Err(e) => Err(e),
    }
}

/// `KeyPair::from_pem`: the key stored in PEM text, whose serialization is
/// the PEM block's contents.
#[verifier::external_body]
fn key_from_pem(pem: &str) -> (r: Result<Key, rcgen::Error>)
    ensures
        r is Ok ==> r->Ok_0@.der == pem_key_der(pem@),
{
    match KeyPair::from_pem(pem) {
        Ok(inner) => Ok(Key { inner, model: Ghost(KeyView { der: pem_key_der(pem@), p256: arbitrary() }) }),
        Err(e) => Err(e),
    }
}

/// `CertificateParams::self_signed`: a certificate for these parameters and
/// `key`, whose issuer is its own subject, signed with `key`. Its DER
/// encoding holds a signature and is not stated.
#[verifier::external_body]
fn self_signed(params: &Params, key: &Key) -> (r: Result<Cert, rcgen::Error>)
    ensures
        r is Ok ==> {
            let c = r->Ok_0@;
            &&& c.subject == params@
            &&& c.issuer == params@
            &&& c.subject_key == key@
            &&& c.signing_key == key@
        },
{
    let model = Ghost(
        CertView {
            subject: params@,
            issuer: params@,
            subject_key: key@,
            signing_key: key@,
            der: arbitrary(),
        },
    );
    match params.inner.self_signed(&key.inner) {
        Ok(inner) => Ok(Cert { inner, model }),
        Err(e) => Err(e),
    }
}

/// `Issuer::from_params`: an issuer with the subject of `params` that signs with `key`.
#[verifier::external_body]
fn issuer_from_params<'a>(params: &'a Params, key: &'a Key) -> (r: IssuerRef<'a>)
    ensures
        r@ == (params@, key@),
{
    IssuerRef {
        inner: Issuer::from_params(&params.inner, &key.inner),
        params: Ghost(params@),
        key: Ghost(key@),
    }
}

/// `CertificateParams::signed_by`: a certificate for `params` and the public
/// half of `key`, whose issuer is the issuer's subject, signed with the
/// issuer's key. Its DER encoding holds a signature and is not stated.
#[verifier::external_body]
fn signed_by(params: &Params, key: &Key, issuer: &IssuerRef<'_>) -> (r: Result<Cert, rcgen::Error>)
    ensures
        r is Ok ==> {
            let c = r->Ok_0@;
            &&& c.subject == params@
            &&& c.issuer == issuer@.0
            &&& c.subject_key == key@
            &&& c.signing_key == issuer@.1
        },
{
    let model = Ghost(
        CertView {
            subject: params@,
            issuer: issuer@.0,
            subject_key: key@,
            signing_key: issuer@.1,
            der: arbitrary(),
        },
    );
    match params.inner.signed_by(&key.inner, &issuer.inner) {
        Ok(inner) => Ok(Cert { inner, model }),
        Err(e) => Err(e),
    }
}

/// `Certificate::pem`: the certificate in PEM form.
#[verifier::external_body]
fn certificate_pem(cert: &Cert) -> (r: String)
    ensures
        r@ == certificate_pem_text(cert@.der),
{
    cert.inner.pem()
}

/// `KeyPair::serialize_pem`: the private key in PEM form.
#[verifier::external_body]
fn key_pem(key: &Key) -> (r: String)
    ensures
        r@ == key_pem_text(key@.der),
{
    key.inner.serialize_pem()
}

impl Key {
    /// The key in PEM form.
    pub fn pem(&self) -> (r: String)
        ensures
            r@ == key_pem_text(self@.der),
    {
        key_pem(self)
    }
}

impl Cert {
    /// The certificate in PEM form.
    pub fn pem(&self) -> (r: String)
        ensures
            r@ == certificate_pem_text(self@.der),
    {
        certificate_pem(self)
    }
}

/// Certificate parameters that say what `plan` says. Fails only when an
/// alternative name is not ASCII.
pub fn build_params(plan: &CertPlan) -> (r: Result<Params, MintError>)
    ensures
        r is Ok <==> all_names_ascii(plan@.subject_alt_names),
        r is Err ==> r->Err_0 == MintError::InvalidName,
        r is Ok ==> r->Ok_0@ == plan_params(plan@),
        r is Ok ==> r->Ok_0@.subject_alt_names == plan@.subject_alt_names,
        r is Ok ==> r->Ok_0@.common_name == Some(plan@.common_name),
        r is Ok ==> r->Ok_0@.is_ca == plan@.is_ca,
        r is Ok ==> r->Ok_0@.key_usages == plan@.key_usages,
        r is Ok ==> r->Ok_0@.server_auth == plan@.server_auth,
{
    let names = plan.subject_alt_names.clone();
    assert(names@.map_values(|s: String| s@) =~= plan@.subject_alt_names);
    let mut params = match new_params(names) {
        Ok(p) => p,
        Err(_) => return Err(MintError::InvalidName),
    };
    set_common_name(&mut params, plan.common_name.as_str());
    if plan.is_ca {
        set_unconstrained_ca(&mut params);
    }
    let mut i: usize = 0;
    assert(plan@.key_usages.take(0) =~= Seq::<KeyUse>::empty());
    while i < plan.key_usages.len()
        invariant
            i <= plan.key_usages@.len(),
            params@ == (ParamsView {
                subject_alt_names: plan@.subject_alt_names,
                common_name: Some(plan@.common_name),
                is_ca: plan@.is_ca,
                key_usages: plan@.key_usages.take(i as int),
                server_auth: false,
            }),
        decreases plan.key_usages@.len() - i,
    {
        add_key_usage(&mut params, plan.key_usages[i]);
        assert(plan@.key_usages.take(i as int).push(plan@.key_usages[i as int])
            =~= plan@.key_usages.take(i + 1));
        i = i + 1;
    }
    assert(plan@.key_usages.take(i as int) =~= plan@.key_usages);
    if plan.server_auth {
        set_server_auth(&mut params);
    }
    Ok(params)
}

/// The root CA certificate and key. With the PEM text of a stored key, the
/// certificate is made again for that key (`root_ca_plan(false)`); without
/// one, a new ECDSA P-256 key is generated (`root_ca_plan(true)`). Either way
/// the certificate is self-signed with the key it certifies. The plan's names
/// are never at fault, and each case fails only in its own steps.
pub fn root_ca(stored_key_pem: Option<&str>) -> (r: Result<(Cert, Key), MintError>)
    ensures
        r is Err ==> r->Err_0 != MintError::InvalidName,
        stored_key_pem is Some && r is Err ==> r->Err_0 != MintError::KeyGeneration,
        stored_key_pem is None && r is Err ==> r->Err_0 != MintError::KeyLoad,
        r is Ok ==> ({
            let (c, k) = r->Ok_0;
            &&& c@.subject == plan_params(root_ca_plan_view(stored_key_pem is None))
            &&& c@.subject.is_ca
            &&& c@.subject.common_name == Some("GisoNet CA"@)
            &&& c@.issuer == c@.subject
            &&& c@.subject_key == k@
            &&& c@.signing_key == k@
            &&& stored_key_pem matches Some(p) ==> k@.der == pem_key_der(p@)
            &&& stored_key_pem is None ==> k@.p256
        }),
{
    let generated = stored_key_pem.is_none();
    let key = match stored_key_pem {
        Some(pem) => match key_from_pem(pem) {
            Ok(k) => k,
            Err(_) => return Err(MintError::KeyLoad),
        },
        None => match generate_p256_key() {
            Ok(k) => k,
            Err(_) => return Err(MintError::KeyGeneration),
        },
    };
    let plan = root_ca_plan(generated);
    let params = match build_params(&plan) {
        Ok(p) => p,
        Err(e) => return Err(e),
    };
    match self_signed(&params, &key) {
        Ok(cert) => Ok((cert, key)),
        Err(_) => Err(MintError::Signing),
    }
}

/// A new leaf certificate for `domain` (`leaf_plan(domain)`), for a freshly
/// generated ECDSA P-256 key, issued under the `Dynamic CA` subject
/// (`issuer_plan()`) and signed with `ca_key`; with the certificate and the
/// new key in PEM form. A domain that is not ASCII always fails (on its
/// name, unless key generation failed first); a key is never loaded.
pub fn leaf_certificate(domain: &str, ca_key: &Key) -> (r: Result<LeafPem, MintError>)
    ensures
        r is Err ==> r->Err_0 != MintError::KeyLoad,
        r is Err && r->Err_0 == MintError::InvalidName ==> !all_ascii(domain@),
        !all_ascii(domain@) ==> r is Err && (r->Err_0 == MintError::InvalidName || r->Err_0
            == MintError::KeyGeneration),
        r is Ok ==> ({
            let c = r->Ok_0.issued@;
            &&& c.subject == plan_params(leaf_plan_view(domain@))
            &&& c.issuer == plan_params(issuer_plan_view())
            &&& c.signing_key == ca_key@
            &&& c.subject_key.p256
            &&& r->Ok_0.cert_pem@ == certificate_pem_text(c.der)
            &&& r->Ok_0.key_pem@ == key_pem_text(c.subject_key.der)
        }),
{
    let key = match generate_p256_key() {
        Ok(k) => k,
        Err(_) => return Err(MintError::KeyGeneration),
    };
    let plan = leaf_plan(domain);
    let params = match build_params(&plan) {
        Ok(p) => p,
        Err(e) => {
            assert(plan@.subject_alt_names[0] == domain@);
            return Err(e);
        },
    };
    assert(all_ascii(plan@.subject_alt_names[0]));
    let issuer_params = match build_params(&issuer_plan()) {
        Ok(p) => p,
        Err(e) => return Err(e),
    };
    let issuer = issuer_from_params(&issuer_params, ca_key);
    let cert = match signed_by(&params, &key, &issuer) {
        Ok(c) => c,
        Err(_) => return Err(MintError::Signing),
    };
    let issued = Ghost(cert@);
    Ok(LeafPem { cert_pem: certificate_pem(&cert), key_pem: key_pem(&key), issued })
}

/// The root CA is a CA named `GisoNet CA` with no alternative names and no
/// server-authentication usage, whether generated or reloaded; a generated
/// one also allows digital signature, certificate signing and CRL signing.
/// Leaf certificates are not CAs, are named after their domain, carry it as
/// their only alternative name and are for server authentication; they are
/// issued under the subject `Dynamic CA`.
pub proof fn law_certificate_subjects(generated: bool, domain: Seq<char>)
    ensures
        plan_params(root_ca_plan_view(generated)).is_ca,
        plan_params(root_ca_plan_view(generated)).common_name == Some("GisoNet CA"@),
        plan_params(root_ca_plan_view(generated)).subject_alt_names.len() == 0,
        !plan_params(root_ca_plan_view(generated)).server_auth,
        generated ==> plan_params(root_ca_plan_view(generated)).key_usages == seq![
            KeyUse::DigitalSignature,
            KeyUse::KeyCertSign,
            KeyUse::CrlSign,
        ],
        !plan_params(leaf_plan_view(domain)).is_ca,
        plan_params(leaf_plan_view(domain)).common_name == Some(domain),
        plan_params(leaf_plan_view(domain)).subject_alt_names == seq![domain],
        plan_params(leaf_plan_view(domain)).server_auth,
        plan_params(issuer_plan_view()).common_name == Some("Dynamic CA"@),
{
}

} // verus!
