//! What OpenSSL's objects and error codes are to this library.

use vstd::prelude::*;

verus! {

/// The address of an object that belongs to OpenSSL or to upki. The library
/// compares addresses with `NULL` and hands them on; it never follows one.
pub type Address = usize;

/// The address of no object.
pub const NULL: Address = 0;

/// Why a chain is refused, as recorded in an `X509_STORE_CTX`.
#[derive(Clone, Copy, PartialEq, Eq, Structural, Debug)]
pub enum VerifyError {
    /// A certificate of the chain is revoked.
    CertRevoked,
    /// The revocation status could not be determined.
    ApplicationVerification,
}

impl VerifyError {
    /// OpenSSL's number for the error.
    pub open spec fn number(self) -> i32 {
        match self {
            VerifyError::CertRevoked => 23,
            VerifyError::ApplicationVerification => 50,
        }
    }

    /// OpenSSL's number for the error, as `X509_STORE_CTX_set_error` takes it.
    pub fn code(self) -> (code: i32)
        ensures
            code == self.number(),
            self is CertRevoked ==> code == 23,
            self is ApplicationVerification ==> code == 50,
    {
        match self {
            VerifyError::CertRevoked => x509_v_err_cert_revoked(),
            VerifyError::ApplicationVerification => x509_v_err_application_verification(),
        }
    }
}

/// Reads `openssl_sys::X509_V_ERR_CERT_REVOKED`, which is 23.
#[verifier::external_body]
fn x509_v_err_cert_revoked() -> (code: i32)
    ensures
        code == 23,
{
    openssl_sys::X509_V_ERR_CERT_REVOKED
}

/// Reads `openssl_sys::X509_V_ERR_APPLICATION_VERIFICATION`, which is 50.
#[verifier::external_body]
fn x509_v_err_application_verification() -> (code: i32)
    ensures
        code == 50,
{
    openssl_sys::X509_V_ERR_APPLICATION_VERIFICATION
}

} // verus!
