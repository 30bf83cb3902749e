//! The peer identity carried by a DER-encoded X.509 certificate.

use vstd::prelude::*;
use x509_parser::prelude::FromDer;
use x509_parser::certificate::X509Certificate;

verus! {

/// The subject name, in x509-parser's textual form, of the certificate that
/// `der` begins with; `None` where x509-parser does not accept `der` as a
/// certificate.
pub uninterp spec fn x509_subject(der: Seq<u8>) -> Option<Seq<char>>;

/// Parses `der` with `X509Certificate::from_der` and renders the subject with
/// its `Display` form (`X509Name::to_string`). The claim is only that the
/// outcome is a function of the bytes, named `x509_subject`: the parse and
/// the rendering are x509-parser's and are not stated here.
#[verifier::external_body]
pub(crate) fn certificate_subject(der: &[u8]) -> (r: Option<String>)
    ensures
        match r {
            Some(s) => x509_subject(der@) == Some(s@),
            None => x509_subject(der@) is None,
        },
{
    match X509Certificate::from_der(der) {
        Ok((_, cert)) => Some(cert.subject().to_string()),
        Err(_) => None,
    }
}

} // verus!
