//! Certificate signing requests for leaf identities.

use crate::bytes::{lemma_zero_byte_iff_nul, text_pairs, MAX_INPUT};
use crate::ca::same_bytes;
use crate::der::{subject_alt_name_der, subject_alt_name_extension};
use crate::crypto::{
    extension_der, extension_stack_item_der, extension_stack_items, extension_stack_new,
    extension_stack_push, key_algorithm, key_bits,
    name_append_entry_by_text, pending_errors, pkey_public_eq, public_components_equal,
    request_extensions, request_key, request_subject, request_version, extension_stack_len,
    x509_req_extensions, x509_req_public_key, x509_req_subject, x509_req_version,
    req_add_extensions, req_set_pubkey, req_set_subject_name, req_set_version,
    req_x509v3_context, x509_extension_new, x509_name_build, x509_name_builder, x509_req_build,
    x509_req_builder,
};
use crate::key::{generate_key, KEY_BITS, RSA};
use openssl::error::ErrorStack;
use openssl::pkey::{PKey, Private};
use openssl::x509::X509Req;
use vstd::prelude::*;
use vstd::string::StringExecFns;
use vstd::utf8::encode_utf8;

verus! {

/// The number in the version field of every request: the marker that makes
/// validators honour the extensions.
pub const CSR_VERSION: i32 = 2;

/// The value of the Subject-Alternative-Name extension for a DNS name: the
/// prefix `DNS:` followed by the name as it is, nothing escaped.
pub open spec fn spec_subject_alt_name(dns_name: Seq<char>) -> Seq<char> {
    "DNS:"@ + dns_name
}

/// Whether OpenSSL's interface can be handed the name at all: it holds no
/// NUL character, which would end a C string early, and its UTF-8 encoding
/// is no longer than a C `int` can count.
pub open spec fn encodable(dns_name: Seq<char>) -> bool {
    &&& !dns_name.contains('\0')
    &&& encode_utf8(dns_name).len() <= MAX_INPUT
}

/// The value of the Subject-Alternative-Name extension for `dns_name`.
pub fn subject_alt_name(dns_name: &str) -> (value: String)
    ensures
        value@ == spec_subject_alt_name(dns_name@),
{
    String::from_str("DNS:").concat(dns_name)
}

/// Decides whether a name can be handed to OpenSSL.
pub fn is_encodable(dns_name: &str) -> (b: bool)
    ensures
        b == encodable(dns_name@),
{
    let bytes = dns_name.as_bytes();
    if bytes.len() > MAX_INPUT {
        return false;
    }
    let mut i: usize = 0;
    while i < bytes.len()
        invariant
            i <= bytes@.len(),
            bytes@ == encode_utf8(dns_name@),
            forall|j: int| 0 <= j < i ==> bytes@[j] != 0u8,
        decreases bytes@.len() - i,
    {
        if bytes[i] == 0 {
            proof {
                assert(bytes@.contains(bytes@[i as int]));
                lemma_zero_byte_iff_nul(dns_name@);
            }
            return false;
        }
        i += 1;
    }
    proof {
        lemma_zero_byte_iff_nul(dns_name@);
    }
    true
}

/// What a signing request is made from: the values that OpenSSL is handed
/// for the subject, for the extension and for the version field.
pub struct RequestFields {
    common_name: String,
    subject_alt_name: String,
    version: i32,
}

impl RequestFields {
    #[verifier::type_invariant]
    spec fn consistent(self) -> bool {
        &&& self.subject_alt_name@ == spec_subject_alt_name(self.common_name@)
        &&& self.version == CSR_VERSION
        &&& encodable(self.common_name@)
    }

    /// The name for the single common-name attribute of the subject.
    pub closed spec fn spec_common_name(self) -> Seq<char> {
        self.common_name@
    }

    /// The value for the one Subject-Alternative-Name extension.
    pub closed spec fn spec_subject_alt_name(self) -> Seq<char> {
        self.subject_alt_name@
    }

    /// The number for the version field.
    pub closed spec fn spec_version(self) -> i32 {
        self.version
    }

    /// The fields of a request for `dns_name`.
    pub open spec fn describes(self, dns_name: Seq<char>) -> bool {
        &&& self.spec_common_name() == dns_name
        &&& self.spec_subject_alt_name() == spec_subject_alt_name(dns_name)
        &&& self.spec_version() == CSR_VERSION
    }

    /// The fields of a request for `dns_name`, unless OpenSSL cannot be
    /// handed the name.
    pub fn for_name(dns_name: &str) -> (r: Option<RequestFields>)
        ensures
            r is Some <==> encodable(dns_name@),
            r matches Some(fields) ==> fields.describes(dns_name@),
    {
        if !is_encodable(dns_name) {
            return None;
        }
        Some(
            RequestFields {
                common_name: String::from_str(dns_name),
                subject_alt_name: subject_alt_name(dns_name),
                version: CSR_VERSION,
            },
        )
    }

    /// The name for the single common-name attribute of the subject.
    pub fn common_name(&self) -> (name: &str)
        ensures
            name@ == self.spec_common_name(),
            encodable(name@),
    {
        proof {
            use_type_invariant(self);
        }
        self.common_name.as_str()
    }

    /// Whether a subject, given as its attributes' short names and values,
    /// is the one these fields ask for: one attribute, the common name, with
    /// the name for its value.
    pub fn is_subject(&self, subject: &Vec<(String, String)>) -> (b: bool)
        ensures
            b == (text_pairs(subject@) == seq![("CN"@, self.spec_common_name())]),
    {
        let ghost expected: Seq<(Seq<char>, Seq<char>)> = seq![("CN"@, self.spec_common_name())];
        if subject.len() != 1 {
            assert(text_pairs(subject@).len() != expected.len());
            return false;
        }
        let short_name = String::from_str("CN");
        let b = subject[0].0 == short_name && subject[0].1 == self.common_name;
        proof {
            assert(text_pairs(subject@)[0] == (subject@[0].0@, subject@[0].1@));
            assert(expected[0] == ("CN"@, self.spec_common_name()));
            if b {
                assert(text_pairs(subject@) =~= expected);
            }
        }
        b
    }

    /// The value for the Subject-Alternative-Name extension: `DNS:` and the
    /// name.
    pub fn subject_alt_name(&self) -> (value: &str)
        ensures
            value@ == self.spec_subject_alt_name(),
            value@ == spec_subject_alt_name(self.spec_common_name()),
            encodable(self.spec_common_name()),
    {
        proof {
            use_type_invariant(self);
        }
        self.subject_alt_name.as_str()
    }

    /// The number for the version field, always [`CSR_VERSION`].
    pub fn version(&self) -> (v: i32)
        ensures
            v == self.spec_version(),
            v == CSR_VERSION,
    {
        proof {
            use_type_invariant(self);
        }
        self.version
    }
}

/// What OpenSSL reads off a request when asked: its version, the
/// attributes of its subject by short name and value, the number of its
/// extensions, and the first of them in DER where there is one.
pub struct RequestReading {
    pub version: i32,
    pub subject: Vec<(String, String)>,
    pub extensions: usize,
    pub extension: Option<Vec<u8>>,
}

impl RequestReading {
    /// The reading is what OpenSSL reads off this request.
    pub open spec fn reads(self, request: X509Req) -> bool {
        &&& self.version == request_version(request)
        &&& text_pairs(self.subject@) == request_subject(request)
        &&& self.extensions == request_extensions(request).len()
        &&& self.extensions > 0 ==> (self.extension matches Some(der) && der@ == extension_der(
            request_extensions(request)[0],
        ))
    }
}

/// A request to certify that a public key belongs to a DNS name: the
/// request as OpenSSL built it, and beside it the fields that OpenSSL was
/// handed to build it from.
///
/// Version, subject and extension of the request are read back from it and
/// agree with the fields: see [`SigningRequest::agrees`]. The value for the
/// extension that the fields hold is the text OpenSSL was handed; what the
/// request holds is the extension that names the name itself.
pub struct SigningRequest {
    request: X509Req,
    fields: RequestFields,
}

impl SigningRequest {
    /// What OpenSSL reads off the request agrees with the fields: the
    /// version is theirs; the subject holds one attribute, the common name,
    /// with their name for its value; and one extension is asked for, which
    /// names their name, byte for byte, as the one DNS name of the subject.
    pub open spec fn agrees(request: X509Req, fields: RequestFields) -> bool {
        &&& request_version(request) == fields.spec_version()
        &&& request_subject(request) == seq![("CN"@, fields.spec_common_name())]
        &&& request_extensions(request).len() == 1
        &&& extension_der(request_extensions(request)[0]) == subject_alt_name_der(
            encode_utf8(fields.spec_common_name()),
        )
    }

    #[verifier::type_invariant]
    spec fn consistent(self) -> bool {
        SigningRequest::agrees(self.request, self.fields)
    }

    /// The request agrees with the fields beside it. This holds of every
    /// signing request.
    pub open spec fn wf(self) -> bool {
        SigningRequest::agrees(self.spec_request(), self.spec_fields())
    }

    /// The fields that OpenSSL was handed.
    pub closed spec fn spec_fields(self) -> RequestFields {
        self.fields
    }

    /// What [`SigningRequest::from_parts`] may return: the request beside
    /// exactly these fields, with which it then agrees, or a failure, which
    /// it is bound to be where they do not agree.
    pub open spec fn from_parts_outcome(
        request: X509Req,
        fields: RequestFields,
        r: Result<SigningRequest, ErrorStack>,
    ) -> bool {
        &&& r matches Ok(signing) ==> {
            &&& signing.spec_request() == request
            &&& signing.spec_fields() == fields
            &&& signing.wf()
        }
        &&& !SigningRequest::agrees(request, fields) ==> r is Err
    }

    /// Puts a request beside the fields it was built from, unless OpenSSL
    /// reads other things off the request.
    ///
    /// OpenSSL is asked for the version of the request, for the attributes
    /// of its subject, for the number of its extensions and for the first
    /// of them in DER. [`SigningRequest::decided`] decides on what it
    /// answers.
    pub fn from_parts(request: X509Req, fields: RequestFields) -> (r: Result<
        SigningRequest,
        ErrorStack,
    >)
        ensures
            SigningRequest::from_parts_outcome(request, fields, r),
    {
        let version = x509_req_version(&request);
        let subject = x509_req_subject(&request)?;
        let stack = x509_req_extensions(&request)?;
        let extensions = extension_stack_len(&stack);
        let extension = if extensions > 0 {
            Some(extension_stack_item_der(&stack, 0)?)
        } else {
            None
        };
        let reading = RequestReading { version, subject, extensions, extension };
        SigningRequest::decided(request, fields, reading)
    }

    /// Decides on a request by what OpenSSL reads off it: the request is
    /// put beside the fields exactly if it agrees with them.
    pub fn decided(request: X509Req, fields: RequestFields, reading: RequestReading) -> (r: Result<
        SigningRequest,
        ErrorStack,
    >)
        requires
            reading.reads(request),
        ensures
            r is Ok <==> SigningRequest::agrees(request, fields),
            r matches Ok(signing) ==> {
                &&& signing.spec_request() == request
                &&& signing.spec_fields() == fields
                &&& signing.wf()
            },
    {
        let expected = subject_alt_name_extension(fields.common_name());
        let named = match &reading.extension {
            Some(extension) => same_bytes(extension, &expected),
            None => false,
        };
        if reading.version == fields.version() && fields.is_subject(&reading.subject)
            && reading.extensions == 1 && named {
            Ok(SigningRequest { request, fields })
        } else {
            Err(pending_errors())
        }
    }

    /// Decides on a request and the private key made for it by what came
    /// of comparing the key with the one that the request is for: the two
    /// are handed out exactly if the key is the request's.
    pub fn keyed(self, private_key: PKey<Private>, belongs: bool) -> (r: Result<
        (SigningRequest, PKey<Private>),
        ErrorStack,
    >)
        requires
            belongs == public_components_equal(private_key, request_key(self.spec_request())),
        ensures
            r is Ok <==> belongs,
            r matches Ok(pair) ==> pair == (self, private_key),
    {
        if belongs {
            Ok((self, private_key))
        } else {
            Err(pending_errors())
        }
    }

    /// The name that was handed over for the single common-name attribute
    /// of the subject, and that OpenSSL reads off it.
    pub closed spec fn spec_common_name(self) -> Seq<char> {
        self.fields.spec_common_name()
    }

    /// The value that was handed over for the one Subject-Alternative-Name
    /// extension.
    pub closed spec fn spec_subject_alt_name(self) -> Seq<char> {
        self.fields.spec_subject_alt_name()
    }

    /// The number that was handed over for the version field, and that
    /// OpenSSL reads off it.
    pub closed spec fn spec_version(self) -> i32 {
        self.fields.spec_version()
    }

    /// The request as OpenSSL holds it.
    pub closed spec fn spec_request(self) -> X509Req {
        self.request
    }

    /// The request as OpenSSL holds it.
    pub fn request(&self) -> (r: &X509Req)
        ensures
            *r == self.spec_request(),
    {
        &self.request
    }

    /// The name that was handed over for the subject.
    pub fn common_name(&self) -> (name: &str)
        ensures
            name@ == self.spec_common_name(),
            encodable(name@),
    {
        self.fields.common_name()
    }

    /// The value that was handed over for the Subject-Alternative-Name
    /// extension: `DNS:` and the name.
    pub fn subject_alt_name(&self) -> (value: &str)
        ensures
            value@ == self.spec_subject_alt_name(),
            value@ == spec_subject_alt_name(self.spec_common_name()),
    {
        self.fields.subject_alt_name()
    }

    /// The number that was handed over for the version field, always
    /// [`CSR_VERSION`].
    pub fn version(&self) -> (v: i32)
        ensures
            v == self.spec_version(),
            v == CSR_VERSION,
    {
        self.fields.version()
    }
}

/// Builds a signing request for `dns_name` together with a fresh key pair
/// made for it, and returns the request and the private key.
///
/// The fields of the request are settled first, by [`RequestFields::for_name`],
/// and OpenSSL is handed what they hold: the name for one common-name
/// attribute of the subject; the value [`spec_subject_alt_name`] for one
/// extension, Subject-Alternative-Name, in which OpenSSL reads the name by
/// the rules of its configuration syntax; and [`CSR_VERSION`] for the
/// version field. The public key is that of the new pair, whose private key
/// has [`KEY_BITS`] bits. The request is not signed.
///
/// Before the request is handed out OpenSSL is asked what it reads off it:
/// its version, its subject, the number of its extensions and its key. A
/// request of which these are not what was handed over is refused.
///
/// A name that is not [`encodable`] is refused before OpenSSL is called.
/// Whether OpenSSL accepts any other name, the empty one included, is for
/// OpenSSL to say.
pub fn generate_csr(dns_name: &str) -> (r: Result<(SigningRequest, PKey<Private>), ErrorStack>)
    ensures
        !encodable(dns_name@) ==> r is Err,
        r matches Ok((request, private_key)) ==> {
            &&& request.wf()
            &&& request.spec_fields().describes(dns_name@)
            &&& request.spec_common_name() == dns_name@
            &&& request.spec_subject_alt_name() == spec_subject_alt_name(dns_name@)
            &&& request.spec_version() == CSR_VERSION
            &&& request_version(request.spec_request()) == CSR_VERSION
            &&& request_subject(request.spec_request()) == seq![("CN"@, dns_name@)]
            &&& request_extensions(request.spec_request()).len() == 1
            &&& extension_der(request_extensions(request.spec_request())[0])
                == subject_alt_name_der(encode_utf8(dns_name@))
            &&& public_components_equal(private_key, request_key(request.spec_request()))
            &&& key_bits(private_key) == KEY_BITS
            &&& key_algorithm(private_key) == RSA
        },
{
    let fields = match RequestFields::for_name(dns_name) {
        Some(fields) => fields,
        None => return Err(pending_errors()),
    };
    let mut req = x509_req_builder()?;

    let mut name_builder = x509_name_builder()?;
    let common_name = fields.common_name();
    proof {
        reveal_strlit("CN");
        lemma_zero_byte_iff_nul("CN"@);
    }
    name_append_entry_by_text(&mut name_builder, "CN", common_name)?;
    let name = x509_name_build(name_builder);
    req_set_subject_name(&mut req, &name)?;

    let mut extensions = extension_stack_new()?;
    let value = fields.subject_alt_name();
    proof {
        reveal_strlit("DNS:");
        reveal_strlit("subjectAltName");
        lemma_zero_byte_iff_nul("subjectAltName"@);
        lemma_zero_byte_iff_nul(fields.spec_common_name());
        lemma_zero_byte_iff_nul(value@);
    }
    let context = req_x509v3_context(&req);
    let extension = x509_extension_new(&context, "subjectAltName", value)?;
    let ghost only = extension;
    extension_stack_push(&mut extensions, extension)?;
    assert(extension_stack_items(extensions) == seq![only]);
    req_add_extensions(&mut req, &extensions)?;
    req_set_version(&mut req, fields.version())?;

    let (private_key, public_key) = generate_key()?;
    req_set_pubkey(&mut req, &public_key)?;

    let request = SigningRequest::from_parts(x509_req_build(req), fields)?;
    let carried = x509_req_public_key(request.request())?;
    let belongs = pkey_public_eq(&private_key, &carried);
    request.keyed(private_key, belongs)
}

} // verus!
