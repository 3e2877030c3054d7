//! The certificate authority: one certificate and the private key behind it.

use crate::bytes::{fits_openssl, MAX_INPUT};
use crate::crypto::{
    asn1_days_from_now, asn1_time_as_ref, asn1_time_diff, certificate_digest, certificate_issuer,
    certificate_key, certificate_not_after, certificate_not_before, certificate_pem,
    certificate_subject, key_algorithm, parsed_certificate, parsed_private_key, pending_errors,
    pkey_public_eq, time_of, x509_issuer, x509_signature_algorithm, x509_subject,
    private_key_from_pem, private_key_pem, private_key_to_pem_pkcs8, public_components_equal,
    sha512, signature_verifies, time_difference, x509_build, x509_builder, x509_from_pem,
    x509_not_after, x509_not_before, x509_public_key, x509_set_not_after, x509_set_not_before,
    x509_set_pubkey, x509_sign, x509_to_pem, x509_verify,
};
use crate::error::{CAError, IoFailure};
use crate::crypto::key_bits;
use crate::key::{generate_key, KEY_BITS, RSA};
use openssl::asn1::Asn1Time;
use openssl::pkey::Public;
use crate::store::PersistedCredential;
use openssl::error::ErrorStack;
use openssl::pkey::{PKey, Private};
use openssl::x509::X509;
use vstd::prelude::*;

verus! {

/// A certificate authority: a certificate and its private key. The key
/// always belongs to the certificate, as far as OpenSSL can tell: see
/// [`CA::key_belongs`].
#[derive(Debug)]
pub struct CA {
    cert: X509,
    key: PKey<Private>,
}

/// Seconds in a day, by which OpenSSL counts a validity given in days.
pub const SECONDS_PER_DAY: u64 = 86400;

/// Whether OpenSSL can count a validity of `days` days: counted in seconds,
/// it fits the integer that OpenSSL is handed. It always does where that
/// integer has 64 bits.
pub open spec fn countable(days: u32) -> bool {
    days as int * SECONDS_PER_DAY as int <= isize::MAX
}

/// Decides whether OpenSSL can count a validity of `days` days.
pub fn is_countable(days: u32) -> (b: bool)
    ensures
        b == countable(days),
{
    days as u64 * SECONDS_PER_DAY <= isize::MAX as u64
}

/// OpenSSL's number for the signature algorithm RSA over SHA-512.
pub const SHA512_WITH_RSA: i32 = 670;

/// What OpenSSL reads off a certificate that was built as a root: how far
/// each end of its validity lies from the time handed over for it, in days
/// and seconds; issuer and subject in DER; the algorithm of the signature;
/// whether the signature verifies against the key that the certificate
/// carries; and whether the private key belongs to that key.
pub struct RootReading {
    pub started: (i32, i32),
    pub ended: (i32, i32),
    pub issuer: Vec<u8>,
    pub subject: Vec<u8>,
    pub digest: i32,
    pub verified: bool,
    pub belongs: bool,
}

impl RootReading {
    /// The reading is what OpenSSL reads off this certificate, for this key
    /// and these two times.
    pub open spec fn reads(
        self,
        cert: X509,
        key: PKey<Private>,
        not_before: Asn1Time,
        not_after: Asn1Time,
    ) -> bool {
        &&& self.started == time_difference(time_of(not_before), certificate_not_before(cert))
        &&& self.ended == time_difference(time_of(not_after), certificate_not_after(cert))
        &&& self.issuer@ == certificate_issuer(cert)
        &&& self.subject@ == certificate_subject(cert)
        &&& self.digest == certificate_digest(cert)
        &&& self.verified == signature_verifies(cert, certificate_key(cert))
        &&& self.belongs == CA::key_belongs(cert, key)
    }
}

/// Whether two byte strings are the same.
pub fn same_bytes(a: &Vec<u8>, b: &Vec<u8>) -> (same: bool)
    ensures
        same == (a@ == b@),
{
    if a.len() != b.len() {
        return false;
    }
    let mut i: usize = 0;
    while i < a.len()
        invariant
            i <= a@.len(),
            a@.len() == b@.len(),
            forall|j: int| 0 <= j < i ==> a@[j] == b@[j],
        decreases a@.len() - i,
    {
        if a[i] != b[i] {
            return false;
        }
        i += 1;
    }
    assert(a@ =~= b@);
    true
}

/// What an OpenSSL call returned, with its failure taken as a failure of the
/// certificate authority.
pub(crate) open spec fn crypto_outcome<T>(r: Result<T, ErrorStack>) -> Result<T, CAError> {
    match r {
        Ok(v) => Ok(v),
        Err(e) => Err(CAError::OpenSslError(e)),
    }
}

/// Takes the failure of an OpenSSL call as a failure of the certificate
/// authority.
pub(crate) fn crypto<T>(r: Result<T, ErrorStack>) -> (out: Result<T, CAError>)
    ensures
        out == crypto_outcome(r),
{
    match r {
        Ok(v) => Ok(v),
        Err(e) => Err(CAError::from(e)),
    }
}

/// How one file of the pair may come out of reading and parsing: a failed
/// read is reported as it is; what was read either parses or fails as a
/// crypto failure, and it fails if it is too long for OpenSSL to take.
pub open spec fn parse_outcome<T>(read: Result<Vec<u8>, IoFailure>, r: Result<T, CAError>) -> bool {
    match read {
        Err(f) => r == Err::<T, CAError>(CAError::IOError(f)),
        Ok(bytes) => {
            &&& r matches Err(e) ==> e.is_crypto()
            &&& !fits_openssl(bytes@.len()) ==> r is Err
        },
    }
}

/// Parses what was read of the certificate file. A certificate that is
/// returned is what OpenSSL reads out of these very bytes.
pub fn parse_certificate(read: Result<Vec<u8>, IoFailure>) -> (r: Result<X509, CAError>)
    ensures
        parse_outcome(read, r),
        read matches Ok(bytes) ==> (r matches Ok(cert) ==> cert == parsed_certificate(bytes@)),
{
    match read {
        Err(f) => Err(CAError::from(f)),
        Ok(bytes) => {
            if bytes.len() > MAX_INPUT {
                Err(CAError::from(pending_errors()))
            } else {
                crypto(x509_from_pem(bytes.as_slice()))
            }
        },
    }
}

/// Parses what was read of the key file. A key that is returned is what
/// OpenSSL reads out of these very bytes.
pub fn parse_private_key(read: Result<Vec<u8>, IoFailure>) -> (r: Result<PKey<Private>, CAError>)
    ensures
        parse_outcome(read, r),
        read matches Ok(bytes) ==> (r matches Ok(key) ==> key == parsed_private_key(bytes@)),
{
    match read {
        Err(f) => Err(CAError::from(f)),
        Ok(bytes) => {
            if bytes.len() > MAX_INPUT {
                Err(CAError::from(pending_errors()))
            } else {
                crypto(private_key_from_pem(bytes.as_slice()))
            }
        },
    }
}

impl CA {
    /// The private key belongs to the certificate: OpenSSL finds its public
    /// components equal to those of the key that the certificate carries.
    pub open spec fn key_belongs(cert: X509, key: PKey<Private>) -> bool {
        public_components_equal(key, certificate_key(cert))
    }

    #[verifier::type_invariant]
    spec fn consistent(self) -> bool {
        CA::key_belongs(self.cert, self.key)
    }

    /// The private key belongs to the certificate. This holds of every
    /// certificate authority.
    pub open spec fn wf(self) -> bool {
        CA::key_belongs(self.spec_cert(), self.spec_key())
    }

    /// The certificate is signed with the key that it carries itself.
    pub open spec fn self_signed(cert: X509) -> bool {
        signature_verifies(cert, certificate_key(cert))
    }

    /// The certificate is valid for `days` whole days, and perhaps for
    /// seconds beyond them.
    pub open spec fn valid_for(cert: X509, days: u32) -> bool {
        time_difference(certificate_not_before(cert), certificate_not_after(cert)).0 == days
    }

    /// The files are the PEM encodings of this certificate and of this key.
    pub open spec fn saved_as(self, files: PersistedCredential) -> bool {
        &&& files.cert@ == certificate_pem(self.spec_cert())
        &&& files.key@ == private_key_pem(self.spec_key())
    }

    /// The certificate.
    pub closed spec fn spec_cert(self) -> X509 {
        self.cert
    }

    /// The private key.
    pub closed spec fn spec_key(self) -> PKey<Private> {
        self.key
    }

    /// The certificate.
    pub fn cert(&self) -> (c: &X509)
        ensures
            *c == self.spec_cert(),
            self.wf(),
    {
        proof {
            use_type_invariant(self);
        }
        &self.cert
    }

    /// The private key.
    pub fn key(&self) -> (k: &PKey<Private>)
        ensures
            *k == self.spec_key(),
            self.wf(),
    {
        proof {
            use_type_invariant(self);
        }
        &self.key
    }

    /// What [`CA::join`] makes of two halves that were obtained
    /// independently: the first failure, the certificate's before the key's,
    /// or else the two.
    pub open spec fn joined(cert: Result<X509, CAError>, key: Result<PKey<Private>, CAError>) -> Result<
        (X509, PKey<Private>),
        CAError,
    > {
        match (cert, key) {
            (Err(e), _) => Err(e),
            (Ok(_), Err(e)) => Err(e),
            (Ok(c), Ok(k)) => Ok((c, k)),
        }
    }

    /// Joins a certificate and a key that were obtained independently: both
    /// are there exactly if neither failed.
    pub fn join(cert: Result<X509, CAError>, key: Result<PKey<Private>, CAError>) -> (r: Result<
        (X509, PKey<Private>),
        CAError,
    >)
        ensures
            r == CA::joined(cert, key),
    {
        let cert = cert?;
        let key = key?;
        Ok((cert, key))
    }

    /// What [`CA::from_parts`] may return: a certificate authority of
    /// exactly this certificate and this key, which then belongs to it, or
    /// a crypto failure, which it is bound to be where the key does not
    /// belong.
    pub open spec fn from_parts_outcome(cert: X509, key: PKey<Private>, r: Result<CA, CAError>) -> bool {
        &&& r matches Ok(ca) ==> ca.spec_cert() == cert && ca.spec_key() == key && ca.wf()
        &&& r matches Err(e) ==> e.is_crypto()
        &&& !CA::key_belongs(cert, key) ==> r is Err
    }

    /// Makes a certificate authority of a certificate and a private key,
    /// unless the key does not belong to the certificate.
    ///
    /// OpenSSL is asked for the key that the certificate carries and to
    /// compare the two. A key that does not belong is refused as a crypto
    /// failure, which then carries whatever OpenSSL's error queue held.
    pub fn from_parts(cert: X509, key: PKey<Private>) -> (r: Result<CA, CAError>)
        ensures
            CA::from_parts_outcome(cert, key, r),
    {
        let carried = crypto(x509_public_key(&cert))?;
        let belongs = pkey_public_eq(&key, &carried);
        CA::decided(cert, key, belongs)
    }

    /// Decides on a certificate and a key by what came of comparing the key
    /// with the one that the certificate carries: they become a certificate
    /// authority exactly if the key belongs.
    pub fn decided(cert: X509, key: PKey<Private>, belongs: bool) -> (r: Result<CA, CAError>)
        requires
            belongs == CA::key_belongs(cert, key),
        ensures
            r is Ok <==> belongs,
            r matches Ok(ca) ==> ca.spec_cert() == cert && ca.spec_key() == key && ca.wf(),
            r matches Err(e) ==> e.is_crypto(),
    {
        if belongs {
            Ok(CA { cert, key })
        } else {
            Err(CAError::from(pending_errors()))
        }
    }

    /// The certificate's validity starts at this time, to the second.
    pub open spec fn starts_at(cert: X509, time: Asn1Time) -> bool {
        time_difference(time_of(time), certificate_not_before(cert)) == (0i32, 0i32)
    }

    /// The certificate's validity ends at this time, to the second.
    pub open spec fn ends_at(cert: X509, time: Asn1Time) -> bool {
        time_difference(time_of(time), certificate_not_after(cert)) == (0i32, 0i32)
    }

    /// The certificate's signature is RSA over a SHA-512 digest.
    pub open spec fn signed_over_sha512(cert: X509) -> bool {
        certificate_digest(cert) == SHA512_WITH_RSA
    }

    /// The certificate names as its issuer the very subject it is for.
    pub open spec fn own_issuer(cert: X509) -> bool {
        certificate_issuer(cert) == certificate_subject(cert)
    }

    /// The certificate is a root for this key, valid from the one time to
    /// the other: it starts and ends at these times, it is its own issuer,
    /// its signature is RSA over SHA-512 and verifies against the key it
    /// carries, and the private key belongs to it.
    pub open spec fn root_of(
        cert: X509,
        key: PKey<Private>,
        not_before: Asn1Time,
        not_after: Asn1Time,
    ) -> bool {
        &&& CA::starts_at(cert, not_before)
        &&& CA::ends_at(cert, not_after)
        &&& CA::own_issuer(cert)
        &&& CA::signed_over_sha512(cert)
        &&& CA::self_signed(cert)
        &&& CA::key_belongs(cert, key)
    }

    /// Decides on a certificate that was built as a root by what OpenSSL
    /// reads off it: it becomes a certificate authority exactly if it is
    /// the root that was asked for.
    pub fn root_decided(
        cert: X509,
        key: PKey<Private>,
        not_before: &Asn1Time,
        not_after: &Asn1Time,
        reading: RootReading,
    ) -> (r: Result<CA, CAError>)
        requires
            reading.reads(cert, key, *not_before, *not_after),
        ensures
            r is Ok <==> CA::root_of(cert, key, *not_before, *not_after),
            r matches Ok(ca) ==> ca.spec_cert() == cert && ca.spec_key() == key && ca.wf(),
            r matches Err(e) ==> e.is_crypto(),
    {
        let same_name = same_bytes(&reading.issuer, &reading.subject);
        if reading.started.0 == 0 && reading.started.1 == 0 && reading.ended.0 == 0
            && reading.ended.1 == 0 && same_name && reading.digest == SHA512_WITH_RSA
            && reading.verified && reading.belongs {
            Ok(CA { cert, key })
        } else {
            Err(CAError::from(pending_errors()))
        }
    }

    /// Builds the root certificate for a key pair, valid from the one time
    /// to the other, and signs it with the private key over SHA-512.
    ///
    /// What is handed to OpenSSL is then read back off the certificate:
    /// both ends of the validity, issuer and subject, the algorithm of the
    /// signature, the key that the certificate carries, whether the
    /// signature verifies against that key and whether the private key
    /// belongs to it. [`CA::root_decided`] refuses a certificate that is not
    /// the root asked for.
    pub fn issue(
        private_key: PKey<Private>,
        public_key: PKey<Public>,
        not_before: Asn1Time,
        not_after: Asn1Time,
    ) -> (r: Result<CA, CAError>)
        ensures
            r matches Ok(ca) ==> ca.spec_key() == private_key && CA::root_of(
                ca.spec_cert(),
                private_key,
                not_before,
                not_after,
            ) && ca.wf(),
            r matches Err(e) ==> e.is_crypto(),
    {
        let mut builder = crypto(x509_builder())?;
        crypto(x509_set_not_before(&mut builder, &not_before))?;
        crypto(x509_set_not_after(&mut builder, &not_after))?;
        crypto(x509_set_pubkey(&mut builder, &public_key))?;
        crypto(x509_sign(&mut builder, &private_key, sha512()))?;
        let cert = x509_build(builder);

        let started = crypto(asn1_time_diff(asn1_time_as_ref(&not_before), x509_not_before(&cert)))?;
        let ended = crypto(asn1_time_diff(asn1_time_as_ref(&not_after), x509_not_after(&cert)))?;
        let issuer = crypto(x509_issuer(&cert))?;
        let subject = crypto(x509_subject(&cert))?;
        let carried = crypto(x509_public_key(&cert))?;
        let verified = crypto(x509_verify(&cert, &carried))?;
        let reading = RootReading {
            started,
            ended,
            issuer,
            subject,
            digest: x509_signature_algorithm(&cert),
            verified,
            belongs: pkey_public_eq(&private_key, &carried),
        };
        CA::root_decided(cert, private_key, &not_before, &not_after, reading)
    }

    /// Decides on a new root by the length of its validity as OpenSSL
    /// counts it: the root is handed out exactly if it is valid for the days
    /// asked for.
    pub fn lasting(self, days_valid: u32, days: i32) -> (r: Result<CA, CAError>)
        requires
            days == time_difference(
                certificate_not_before(self.spec_cert()),
                certificate_not_after(self.spec_cert()),
            ).0,
        ensures
            r is Ok <==> CA::valid_for(self.spec_cert(), days_valid),
            r matches Ok(ca) ==> ca == self,
            r matches Err(e) ==> e.is_crypto(),
    {
        if days >= 0 && days as u32 == days_valid {
            Ok(self)
        } else {
            Err(CAError::from(pending_errors()))
        }
    }

    /// What holds of every new root that is valid for `days_valid` days:
    /// it is its own issuer; its signature is RSA over SHA-512 and verifies
    /// against the key it carries; OpenSSL counts its validity as
    /// `days_valid` days long; and its private key belongs to it.
    pub open spec fn root_for(self, days_valid: u32) -> bool {
        &&& self.wf()
        &&& CA::self_signed(self.spec_cert())
        &&& CA::signed_over_sha512(self.spec_cert())
        &&& CA::own_issuer(self.spec_cert())
        &&& CA::valid_for(self.spec_cert(), days_valid)
    }

    /// What holds of every new root that the library makes: it is a root
    /// for the days asked for, and its private key is an RSA key of
    /// [`KEY_BITS`] bits.
    pub open spec fn new_root(self, days_valid: u32) -> bool {
        &&& self.root_for(days_valid)
        &&& key_bits(self.spec_key()) == KEY_BITS
        &&& key_algorithm(self.spec_key()) == RSA
    }

    /// Builds a new self-signed root: a fresh key pair and a certificate
    /// valid from now until `days_valid` days from now that carries the
    /// public key, signed with the private key of the same pair over
    /// SHA-512.
    ///
    /// The key pair is made and the clock is read here, for the start of
    /// the validity, and the rest is left to [`CA::new_at`], which also
    /// says that the validity starts at the time that was read. A failure
    /// of any step is a crypto failure and leaves nothing behind. A validity
    /// that OpenSSL cannot count is refused before OpenSSL is called.
    pub fn new(days_valid: u32) -> (r: Result<CA, CAError>)
        ensures
            r matches Ok(ca) ==> ca.new_root(days_valid),
            r matches Err(e) ==> e.is_crypto(),
            !countable(days_valid) ==> r is Err,
    {
        if !is_countable(days_valid) {
            return Err(CAError::from(pending_errors()));
        }
        let (private_key, public_key) = crypto(generate_key())?;
        let now = crypto(asn1_days_from_now(0))?;
        CA::new_at(days_valid, private_key, public_key, now)
    }

    /// Builds a self-signed root for a key pair whose validity starts at
    /// `now` and ends `days_valid` days from the moment of the call.
    ///
    /// The root is built by [`CA::issue`], which reads back what it handed
    /// to OpenSSL, and is handed out only if OpenSSL counts its validity as
    /// `days_valid` days long, by [`CA::lasting`].
    pub fn new_at(
        days_valid: u32,
        private_key: PKey<Private>,
        public_key: PKey<Public>,
        now: Asn1Time,
    ) -> (r: Result<CA, CAError>)
        ensures
            r matches Ok(ca) ==> {
                &&& ca.root_for(days_valid)
                &&& ca.spec_key() == private_key
                &&& CA::starts_at(ca.spec_cert(), now)
            },
            r matches Err(e) ==> e.is_crypto(),
            !countable(days_valid) ==> r is Err,
    {
        if !is_countable(days_valid) {
            return Err(CAError::from(pending_errors()));
        }
        let not_after = crypto(asn1_days_from_now(days_valid))?;
        let ca = CA::issue(private_key, public_key, now, not_after)?;
        let (days, _) = crypto(asn1_time_diff(x509_not_before(ca.cert()), x509_not_after(ca.cert())))?;
        ca.lasting(days_valid, days)
    }

    /// What was saved is what is read when it is loaded again: the
    /// certificate and the key that are loaded are those that OpenSSL
    /// reads out of its own encodings of the certificate and the key that
    /// were saved.
    pub proof fn law_reload_reads_what_was_saved(
        saved: CA,
        files: PersistedCredential,
        r: Result<CA, CAError>,
    )
        requires
            saved.saved_as(files),
            CA::load_outcome(Ok(files.cert), Ok(files.key), r),
        ensures
            r matches Ok(loaded) ==> {
                &&& loaded.spec_cert() == parsed_certificate(certificate_pem(saved.spec_cert()))
                &&& loaded.spec_key() == parsed_private_key(private_key_pem(saved.spec_key()))
                &&& loaded.wf()
            },
            r matches Err(e) ==> e.is_crypto(),
    {
    }

    /// What [`CA::load`] may return, given how the two reads ended.
    ///
    /// A failed read of the certificate is always the error returned. A failed
    /// read of the key is returned unless the certificate, which was read,
    /// fails to parse. Where both files were read the only failure is a
    /// crypto failure, and an input that OpenSSL cannot take is one. What
    /// is loaded is the certificate and the key that OpenSSL reads out of
    /// the two files, and the key belongs to the certificate.
    pub open spec fn load_outcome(
        cert: Result<Vec<u8>, IoFailure>,
        key: Result<Vec<u8>, IoFailure>,
        r: Result<CA, CAError>,
    ) -> bool {
        match (cert, key) {
            (Err(f), _) => r == Err::<CA, CAError>(CAError::IOError(f)),
            (Ok(c), Err(f)) => {
                &&& r matches Err(e) && (e.is_crypto() || e == CAError::IOError(f))
                &&& !fits_openssl(c@.len()) ==> (r matches Err(e) && e.is_crypto())
            },
            (Ok(c), Ok(k)) => {
                &&& r matches Ok(ca) ==> {
                    &&& ca.spec_cert() == parsed_certificate(c@)
                    &&& ca.spec_key() == parsed_private_key(k@)
                    &&& ca.wf()
                }
                &&& r matches Err(e) ==> e.is_crypto()
                &&& (!fits_openssl(c@.len()) || !fits_openssl(k@.len())) ==> r is Err
                &&& !CA::key_belongs(parsed_certificate(c@), parsed_private_key(k@)) ==> r is Err
            },
        }
    }

    /// Restores a certificate authority from what was read of its two files.
    ///
    /// Each argument is the outcome of reading one file: its bytes, or why
    /// it could not be read. The two are parsed independently, the
    /// certificate as PEM and the key as a PEM private key, and joined by
    /// [`CA::join`]. A key that parses but does not belong to the
    /// certificate is refused by [`CA::from_parts`].
    pub fn load(cert: Result<Vec<u8>, IoFailure>, key: Result<Vec<u8>, IoFailure>) -> (r: Result<
        CA,
        CAError,
    >)
        ensures
            CA::load_outcome(cert, key, r),
    {
        let (cert, key) = CA::join(parse_certificate(cert), parse_private_key(key))?;
        CA::from_parts(cert, key)
    }

    /// Serializes the certificate authority for its two files: the
    /// certificate as PEM, the private key as PEM-encoded PKCS#8. Writing
    /// them is left to the caller, who reports how it went to
    /// [`PersistedCredential::written`].
    pub fn save(&self) -> (r: Result<PersistedCredential, CAError>)
        ensures
            r matches Ok(files) ==> self.saved_as(files) && files.is_pem(),
            r matches Err(e) ==> e.is_crypto(),
    {
        let cert = crypto(x509_to_pem(&self.cert))?;
        let key = crypto(private_key_to_pem_pkcs8(&self.key))?;
        Ok(PersistedCredential { cert, key })
    }
}

} // verus!
