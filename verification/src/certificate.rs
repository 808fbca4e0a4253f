//! Certificates as DER bytes, and how one is described in a log line.

use rustls_pki_types::CertificateDer;
use vstd::prelude::*;
use x509_parser::prelude::{FromDer, X509Certificate};

verus! {

/// A certificate of `rustls_pki_types`: a container of the bytes of its DER
/// encoding.
#[verifier::external_type_specification]
#[verifier::external_body]
pub struct ExCertificateDer<'a>(CertificateDer<'a>);

/// The bytes that a certificate holds.
pub uninterp spec fn der_bytes(cert: CertificateDer<'static>) -> Seq<u8>;

/// Calls `CertificateDer::from` on a `Vec<u8>`: the certificate takes over the
/// vector, so it holds exactly its bytes.
#[verifier::external_body]
pub(crate) fn certificate_from_vec(bytes: Vec<u8>) -> (cert: CertificateDer<'static>)
    ensures
        der_bytes(cert) == bytes@,
{
    CertificateDer::from(bytes)
}

/// Calls `CertificateDer::as_ref`: the slice is of the bytes that the
/// certificate holds.
#[verifier::external_body]
fn certificate_as_slice<'a>(cert: &'a CertificateDer<'static>) -> (bytes: &'a [u8])
    ensures
        bytes@ == der_bytes(*cert),
{
    cert.as_ref()
}

/// What is told of a certificate: its subject, its issuer, and its serial
/// number in lower-case hexadecimal; or why its bytes are not a certificate.
pub type Fields = Result<(String, String, String), String>;

/// The characters of `Fields`.
pub open spec fn fields_view(fields: Fields) -> Result<
    (Seq<char>, Seq<char>, Seq<char>),
    Seq<char>,
> {
    match fields {
        Ok((subject, issuer, serial)) => Ok((subject@, issuer@, serial@)),
        Err(error) => Err(error@),
    }
}

/// What `X509Certificate::from_der` of `x509_parser` makes of the bytes, as
/// text: the subject and the issuer by their `Display`, the serial number by
/// its `LowerHex`, and an error by its `Debug`. The text also depends on the
/// width of `usize`: a length field that does not fit is another error.
pub uninterp spec fn parsed_fields(der: Seq<u8>, usize_bits: u32) -> Result<
    (Seq<char>, Seq<char>, Seq<char>),
    Seq<char>,
>;

/// Calls `X509Certificate::from_der` and turns what it returns into text. The
/// text depends on the bytes and the width of `usize` alone; what it is for
/// given bytes is not said.
#[verifier::external_body]
fn parse_fields(der: &[u8]) -> (fields: Fields)
    ensures
        fields_view(fields) == parsed_fields(der@, usize::BITS),
{
    match X509Certificate::from_der(der) {
        Ok((_, cert)) => Ok((
            format!("{}", cert.subject()),
            format!("{}", cert.issuer()),
            format!("{:x}", cert.serial),
        )),
        Err(error) => Err(format!("{error:?}")),
    }
}

/// The decimal digits of a number, without leading zeros.
pub open spec fn decimal(n: nat) -> Seq<char>
    decreases n,
{
    if n < 10 {
        seq!["0123456789"@[n as int]]
    } else {
        decimal(n / 10).push("0123456789"@[(n % 10) as int])
    }
}

/// A number of one digit is written as that digit. Writing a digit behind a
/// number multiplies the number by ten and adds the digit to it.
pub proof fn law_digits_are_decimal(n: nat, digit: nat)
    requires
        digit < 10,
    ensures
        decimal(digit).len() == 1,
        decimal(digit)[0] as int == '0' as int + digit,
        n > 0 ==> decimal(10 * n + digit) == decimal(n) + decimal(digit),
{
    reveal_strlit("0123456789");
    assert((10 * n + digit) / 10 == n && (10 * n + digit) % 10 == digit);
    assert(n > 0 ==> decimal(10 * n + digit) =~= decimal(n) + decimal(digit));
}

fn decimal_string(n: usize) -> (text: String)
    ensures
        text@ == decimal(n as nat),
    decreases n,
{
    proof {
        reveal_strlit("0123456789");
    }
    let digits = "0123456789";
    let digit: usize = n % 10;
    let last = digits.substring_char(digit, digit + 1);
    assert(last@ =~= seq![digits@[digit as int]]);
    if n < 10 {
        last.to_owned()
    } else {
        let mut text = decimal_string(n / 10);
        let ghost front = text@;
        text.append(last);
        assert(text@ =~= front.push(digits@[digit as int]));
        text
    }
}

/// The description of a certificate of `len` bytes.
pub open spec fn description(
    fields: Result<(Seq<char>, Seq<char>, Seq<char>), Seq<char>>,
    len: nat,
) -> Seq<char> {
    match fields {
        Ok((subject, issuer, serial)) => {
            "subject="@ + subject + " issuer="@ + issuer + " serial="@ + serial + " len="@
                + decimal(len)
        },
        Err(error) => "(unparseable: "@ + error + ") len="@ + decimal(len),
    }
}

/// The subject, the issuer, the serial number and the length can be read off a
/// description, each behind its label and whole; so can an error and the length.
pub proof fn law_description_tells_its_parts(
    subject: Seq<char>,
    issuer: Seq<char>,
    serial: Seq<char>,
    error: Seq<char>,
    len: nat,
)
    ensures
        ({
            let text = description(Ok((subject, issuer, serial)), len);
            let after_subject: int = 8 + subject.len() as int;
            let after_issuer: int = after_subject + 8 + issuer.len();
            let after_serial: int = after_issuer + 8 + serial.len();
            &&& text.len() == after_serial + 5 + decimal(len).len()
            &&& text.take(8) == "subject="@
            &&& text.subrange(8, after_subject) == subject
            &&& text.subrange(after_subject, after_subject + 8) == " issuer="@
            &&& text.subrange(after_subject + 8, after_issuer) == issuer
            &&& text.subrange(after_issuer, after_issuer + 8) == " serial="@
            &&& text.subrange(after_issuer + 8, after_serial) == serial
            &&& text.subrange(after_serial, after_serial + 5) == " len="@
            &&& text.skip(after_serial + 5) == decimal(len)
        }),
        ({
            let text = description(Err(error), len);
            let after_error: int = 14 + error.len() as int;
            &&& text.len() == after_error + 6 + decimal(len).len()
            &&& text.take(14) == "(unparseable: "@
            &&& text.subrange(14, after_error) == error
            &&& text.subrange(after_error, after_error + 6) == ") len="@
            &&& text.skip(after_error + 6) == decimal(len)
        }),
{
    reveal_strlit("subject=");
    reveal_strlit(" issuer=");
    reveal_strlit(" serial=");
    reveal_strlit(" len=");
    reveal_strlit("(unparseable: ");
    reveal_strlit(") len=");
}

/// Describes a certificate of `len` bytes of which `fields` is told.
pub fn describe_fields(fields: Fields, len: usize) -> (text: String)
    ensures
        text@ == description(fields_view(fields), len as nat),
        fields matches Ok((subject, issuer, serial)) ==> text@ == "subject="@ + subject@
            + " issuer="@ + issuer@ + " serial="@ + serial@ + " len="@ + decimal(len as nat),
        fields matches Err(error) ==> text@ == "(unparseable: "@ + error@ + ") len="@ + decimal(
            len as nat,
        ),
{
    let mut text = String::new();
    match fields {
        Ok((subject, issuer, serial)) => {
            text.append("subject=");
            text.append(subject.as_str());
            text.append(" issuer=");
            text.append(issuer.as_str());
            text.append(" serial=");
            text.append(serial.as_str());
            text.append(" len=");
        },
        Err(error) => {
            text.append("(unparseable: ");
            text.append(error.as_str());
            text.append(") len=");
        },
    }
    text.append(decimal_string(len).as_str());
    assert(text@ =~= description(fields_view(fields), len as nat));
    text
}

/// Produces a human-readable description of a certificate, for log lines.
pub fn describe_cert(cert: &CertificateDer<'static>) -> (text: String)
    ensures
        text@ == description(
            parsed_fields(der_bytes(*cert), usize::BITS),
            der_bytes(*cert).len(),
        ),
        parsed_fields(der_bytes(*cert), usize::BITS) matches Ok((subject, issuer, serial))
            ==> text@ == "subject="@ + subject + " issuer="@ + issuer + " serial="@ + serial
            + " len="@ + decimal(der_bytes(*cert).len()),
        parsed_fields(der_bytes(*cert), usize::BITS) matches Err(error) ==> text@
            == "(unparseable: "@ + error + ") len="@ + decimal(der_bytes(*cert).len()),
{
    let bytes = certificate_as_slice(cert);
    describe_fields(parse_fields(bytes), bytes.len())
}

} // verus!
