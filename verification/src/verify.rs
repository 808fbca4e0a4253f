//! The verification callback: which calls it makes of OpenSSL and upki, in
//! which order, and what it returns.

use rustls_pki_types::CertificateDer;
use vstd::prelude::*;

use crate::certificate::{certificate_from_vec, der_bytes};
use crate::config::UpkiConfig;
use crate::openssl::{Address, VerifyError, NULL};

verus! {

/// What `upki_check_revocation` found about a chain.
#[derive(Clone, Copy, PartialEq, Eq, Structural, Debug)]
pub enum RevocationStatus {
    /// A certificate of the chain is revoked.
    Revoked,
    /// The revocation data says nothing about the chain.
    NotCovered,
    /// No certificate of the chain is revoked.
    NotRevoked,
    /// Any other result, by its number: the status could not be determined.
    Undetermined(u32),
}

impl RevocationStatus {
    /// Whether the chain may pass.
    pub open spec fn allows(self) -> bool {
        self is NotCovered || self is NotRevoked
    }

    /// The error to record for the chain, if any.
    pub open spec fn error(self) -> Option<VerifyError> {
        match self {
            RevocationStatus::Revoked => Some(VerifyError::CertRevoked),
            RevocationStatus::NotCovered => None,
            RevocationStatus::NotRevoked => None,
            RevocationStatus::Undetermined(_) => Some(VerifyError::ApplicationVerification),
        }
    }

    /// The error to record for the chain; `None` where the chain may pass.
    pub fn verify_error(self) -> (error: Option<VerifyError>)
        ensures
            error == self.error(),
            error is None <==> self.allows(),
            self is Revoked ==> error == Some(VerifyError::CertRevoked),
            self is Undetermined ==> error == Some(VerifyError::ApplicationVerification),
            self is NotCovered || self is NotRevoked ==> error is None,
    {
        match self {
            RevocationStatus::Revoked => Some(VerifyError::CertRevoked),
            RevocationStatus::NotCovered => None,
            RevocationStatus::NotRevoked => None,
            RevocationStatus::Undetermined(_) => Some(VerifyError::ApplicationVerification),
        }
    }
}

/// Whether `i2d_X509` succeeded, where it returned `len` and left `buffer` as
/// its output.
pub open spec fn encoding_succeeded(len: i32, buffer: Address) -> bool {
    len > 0 && buffer != NULL
}

/// How many bytes `i2d_X509` wrote to the buffer that it allocated, where it
/// returned `len` and left `buffer` as its output; `None` where it failed.
pub fn encoded_len(len: i32, buffer: Address) -> (bytes: Option<usize>)
    ensures
        encoding_succeeded(len, buffer) ==> bytes == Some(len as usize) && len as usize == len,
        !encoding_succeeded(len, buffer) ==> bytes is None,
        len > 0 && buffer != NULL ==> bytes == Some(len as usize),
        len <= 0 || buffer == NULL ==> bytes is None,
{
    if len <= 0 || buffer == NULL {
        None
    } else {
        Some(len as usize)
    }
}

/// A place in a chain of certificates.
#[derive(Clone, Copy, PartialEq, Eq, Structural, Debug)]
pub struct Cursor {
    /// The chain, a stack of `X509`.
    pub stack: Address,
    /// Which certificate of the chain is meant.
    pub index: i32,
    /// How many certificates the chain has.
    pub count: i32,
}

impl Cursor {
    /// Whether the place is one in the chain.
    pub open spec fn wf(self) -> bool {
        &&& self.stack != NULL
        &&& 0 <= self.index < self.count
    }
}

/// What a verification does next. All addresses named here are those of
/// objects to hand to the call; `store_ctx` is the one of the verification.
#[derive(Clone, Copy, PartialEq, Eq, Structural, Debug)]
pub enum Step {
    /// Call `X509_STORE_CTX_get_error_depth(store_ctx)`.
    ErrorDepth,
    /// Call `X509_STORE_CTX_get0_chain(store_ctx)`.
    Chain,
    /// Call `OPENSSL_sk_num(stack)`.
    ChainLength { stack: Address },
    /// Call `OPENSSL_sk_value(cursor.stack, cursor.index)`.
    ChainItem { cursor: Cursor },
    /// Call `i2d_X509(x509, ..)` with an output that is `NULL`.
    Encode { cursor: Cursor, x509: Address },
    /// Copy `len` bytes out of `buffer`, then call `OPENSSL_free(buffer)`.
    TakeBuffer { cursor: Cursor, buffer: Address, len: usize },
    /// Call `SSL_get_ex_data_X509_STORE_CTX_idx()`.
    SslIndex,
    /// Call `X509_STORE_CTX_get_ex_data(store_ctx, index)`.
    Ssl { index: i32 },
    /// Call `SSL_get_SSL_CTX(ssl)`.
    SslCtx { ssl: Address },
    /// Get the `ex_data` index for configurations. `ssl_ctx` may be `NULL`.
    ConfigIndex { ssl_ctx: Address },
    /// Call `SSL_CTX_get_ex_data(ssl_ctx, index)`.
    StoredConfig { ssl_ctx: Address, index: i32 },
    /// Call `upki_config_new(NULL, ..)` with an output that is `NULL`.
    NewConfig,
    /// Call `upki_check_revocation` with `config` and the copied chain.
    CheckRevocation { config: UpkiConfig },
    /// Call `X509_STORE_CTX_set_error(store_ctx, error.code())`. `in_use`
    /// is the configuration, if there is one yet.
    SetError { error: VerifyError, in_use: Option<UpkiConfig> },
    /// Call `upki_config_free(owned)`.
    FreeConfig { owned: Address, result: i32 },
    /// Return `result` to OpenSSL.
    Return { result: i32 },
}

/// How far a verification has come.
pub struct Progress {
    /// The outcome of OpenSSL's own verification, 0 where it failed.
    pub preverify_ok: i32,
    /// The `X509_STORE_CTX` of the verification.
    pub store_ctx: Address,
    /// The certificates copied out of the chain, as DER bytes.
    pub certs: Seq<Seq<u8>>,
    /// What to do next.
    pub step: Step,
}

impl Progress {
    /// Whether what to do next can be done: no call that needs an object is
    /// given `NULL`, no place outside of the chain is asked for, the check gets
    /// a chain that is not empty, and a result that is returned is either 0 or
    /// the outcome of OpenSSL's own verification.
    pub open spec fn wf(self) -> bool {
        &&& self.step !is Return ==> self.preverify_ok != 0 && self.store_ctx != NULL
        &&& match self.step {
            Step::ErrorDepth => self.certs.len() == 0,
            Step::Chain => self.certs.len() == 0,
            Step::ChainLength { stack } => stack != NULL && self.certs.len() == 0,
            Step::ChainItem { cursor } => cursor.wf() && self.certs.len() == cursor.index,
            Step::Encode { cursor, x509 } => {
                cursor.wf() && self.certs.len() == cursor.index && x509 != NULL
            },
            Step::TakeBuffer { cursor, buffer, len } => {
                &&& cursor.wf() && self.certs.len() == cursor.index
                &&& buffer != NULL && 0 < len <= i32::MAX
            },
            Step::SslIndex => self.certs.len() > 0,
            Step::Ssl { .. } => self.certs.len() > 0,
            Step::SslCtx { ssl } => self.certs.len() > 0 && ssl != NULL,
            Step::ConfigIndex { .. } => self.certs.len() > 0,
            Step::StoredConfig { ssl_ctx, .. } => self.certs.len() > 0 && ssl_ctx != NULL,
            Step::NewConfig => self.certs.len() > 0,
            Step::CheckRevocation { config } => self.certs.len() > 0 && config.address() != NULL,
            Step::SetError { in_use, .. } => in_use is Some ==> in_use->0.address() != NULL,
            Step::FreeConfig { owned, result } => {
                owned != NULL && (result == 0 || result == self.preverify_ok)
            },
            Step::Return { result } => result == 0 || result == self.preverify_ok,
        }
    }

    /// Whether each of the copied certificates has a length that `i2d_X509` can
    /// return for one: none is empty.
    pub open spec fn certs_wf(self) -> bool {
        forall|i: int| 0 <= i < self.certs.len() ==> 0 < (#[trigger] self.certs[i]).len() <= i32::MAX
    }

    /// The same verification with `step` to do next.
    pub open spec fn to(self, step: Step) -> Progress {
        Progress { step, ..self }
    }

    /// At the start. A verification that has failed already is not looked at.
    pub open spec fn start(preverify_ok: i32, store_ctx: Address) -> Progress {
        Progress {
            preverify_ok,
            store_ctx,
            certs: Seq::empty(),
            step: if preverify_ok == 0 || store_ctx == NULL {
                Step::Return { result: 0 }
            } else {
                Step::ErrorDepth
            },
        }
    }

    /// The chain is looked at once, when it is the turn of its leaf.
    pub open spec fn after_error_depth(self, depth: i32) -> Progress {
        if depth != 0 {
            self.to(Step::Return { result: self.preverify_ok })
        } else {
            self.to(Step::Chain)
        }
    }

    /// Without a chain the verification fails.
    pub open spec fn after_chain(self, stack: Address) -> Progress {
        if stack == NULL {
            self.to(Step::Return { result: 0 })
        } else {
            self.to(Step::ChainLength { stack })
        }
    }

    /// With the first `index` of the certificates copied: the next one, or the
    /// configuration once all are there, or an error where there is none.
    pub open spec fn copied(self, stack: Address, index: int, count: i32) -> Progress {
        if index < count {
            self.to(Step::ChainItem { cursor: Cursor { stack, index: index as i32, count } })
        } else if self.certs.len() == 0 {
            self.to(Step::SetError { error: VerifyError::ApplicationVerification, in_use: None })
        } else {
            self.to(Step::SslIndex)
        }
    }

    /// A chain without a length fails the verification.
    pub open spec fn after_chain_length(self, count: i32) -> Progress {
        if count < 0 {
            self.to(Step::Return { result: 0 })
        } else {
            self.copied(self.step->ChainLength_stack, 0, count)
        }
    }

    /// A certificate that is missing in the chain fails the verification.
    pub open spec fn after_chain_item(self, x509: Address) -> Progress {
        if x509 == NULL {
            self.to(Step::Return { result: 0 })
        } else {
            self.to(Step::Encode { cursor: self.step->ChainItem_cursor, x509 })
        }
    }

    /// A certificate that cannot be encoded fails the verification.
    pub open spec fn after_encode(self, len: i32, buffer: Address) -> Progress {
        if encoding_succeeded(len, buffer) {
            let cursor = self.step->Encode_cursor;
            self.to(Step::TakeBuffer { cursor, buffer, len: len as usize })
        } else {
            self.to(Step::Return { result: 0 })
        }
    }

    /// The bytes are the next certificate of the copied chain.
    pub open spec fn after_take_buffer(self, bytes: Seq<u8>) -> Progress {
        let cursor = self.step->TakeBuffer_cursor;
        let copied = Progress { certs: self.certs.push(bytes), ..self };
        copied.copied(cursor.stack, cursor.index + 1, cursor.count)
    }

    /// The index is the one at which an `X509_STORE_CTX` keeps its `SSL`.
    pub open spec fn after_ssl_index(self, index: i32) -> Progress {
        self.to(Step::Ssl { index })
    }

    /// Without an `SSL` there is no `SSL_CTX`.
    pub open spec fn after_ssl(self, ssl: Address) -> Progress {
        if ssl == NULL {
            self.to(Step::ConfigIndex { ssl_ctx: NULL })
        } else {
            self.to(Step::SslCtx { ssl })
        }
    }

    /// The `SSL_CTX` of the `SSL`; without one nothing is stored.
    pub open spec fn after_ssl_ctx(self, ssl_ctx: Address) -> Progress {
        self.to(Step::ConfigIndex { ssl_ctx })
    }

    /// Without an `SSL_CTX` or an index no configuration can be stored, and
    /// one is made from the defaults.
    pub open spec fn after_config_index(self, index: Option<i32>) -> Progress {
        let ssl_ctx = self.step->ConfigIndex_ssl_ctx;
        match index {
            Some(index) if ssl_ctx != NULL => self.to(Step::StoredConfig { ssl_ctx, index }),
            _ => self.to(Step::NewConfig),
        }
    }

    /// A stored configuration is used; where there is none, one is made from
    /// the defaults.
    pub open spec fn after_stored_config(self, stored: Address) -> Progress {
        if stored == NULL {
            self.to(Step::NewConfig)
        } else {
            self.to(Step::CheckRevocation { config: UpkiConfig::FromContext(stored) })
        }
    }

    /// Without a configuration the status cannot be determined.
    pub open spec fn after_new_config(self, ptr: Address) -> Progress {
        if ptr == NULL {
            self.to(Step::SetError { error: VerifyError::ApplicationVerification, in_use: None })
        } else {
            self.to(Step::CheckRevocation { config: UpkiConfig::Owned(ptr) })
        }
    }

    /// What is left once the result is known: a configuration that the
    /// verification owns is freed before it returns.
    pub open spec fn finish(self, in_use: Option<UpkiConfig>, result: i32) -> Progress {
        match in_use {
            Some(UpkiConfig::Owned(owned)) => self.to(Step::FreeConfig { owned, result }),
            _ => self.to(Step::Return { result }),
        }
    }

    /// A chain that may pass leaves the outcome as it was; any other fails the
    /// verification with an error.
    pub open spec fn after_check_revocation(self, status: RevocationStatus) -> Progress {
        let in_use = Some(self.step->CheckRevocation_config);
        match status.error() {
            None => self.finish(in_use, self.preverify_ok),
            Some(error) => self.to(Step::SetError { error, in_use }),
        }
    }

    /// With an error recorded, the verification fails.
    pub open spec fn after_set_error(self) -> Progress {
        self.finish(self.step->SetError_in_use, 0)
    }

    /// With its configuration freed, the verification returns.
    pub open spec fn after_free_config(self) -> Progress {
        self.to(Step::Return { result: self.step->FreeConfig_result })
    }
}

/// A verification that is under way.
///
/// `step` tells the call to make next. Its outcome goes to the method of the
/// same name, which gives what comes after it.
pub struct Verification {
    preverify_ok: i32,
    store_ctx: Address,
    certs: Vec<CertificateDer<'static>>,
    step: Step,
}

impl View for Verification {
    type V = Progress;

    closed spec fn view(&self) -> Progress {
        Progress {
            preverify_ok: self.preverify_ok,
            store_ctx: self.store_ctx,
            certs: self.certs@.map_values(|cert: CertificateDer<'static>| der_bytes(cert)),
            step: self.step,
        }
    }
}

/// Checks certificate revocation using upki, as a callback for OpenSSL's
/// verification of a chain.
///
/// The result is 0 if `preverify_ok` is 0: a verification that has failed is
/// never made to pass. It is also 0, with an error recorded in `x509_ctx`, if
/// the chain is revoked or its status cannot be determined. Otherwise it is
/// `preverify_ok`.
pub fn upki_openssl_verify_callback(preverify_ok: i32, x509_ctx: Address) -> (verification:
    Verification)
    ensures
        verification@ == Progress::start(preverify_ok, x509_ctx),
        verification@.preverify_ok == preverify_ok,
        verification@.store_ctx == x509_ctx,
        verification@.certs == Seq::<Seq<u8>>::empty(),
        preverify_ok == 0 || x509_ctx == NULL ==> verification@.step == (Step::Return {
            result: 0,
        }),
        preverify_ok != 0 && x509_ctx != NULL ==> verification@.step is ErrorDepth,
{
    let step = if preverify_ok == 0 || x509_ctx == NULL {
        Step::Return { result: 0 }
    } else {
        Step::ErrorDepth
    };
    let certs: Vec<CertificateDer<'static>> = Vec::new();
    assert(certs@.map_values(|cert: CertificateDer<'static>| der_bytes(cert)) =~= Seq::empty());
    Verification { preverify_ok, store_ctx: x509_ctx, certs, step }
}

impl Verification {
    #[verifier::type_invariant]
    spec fn inv(self) -> bool {
        self@.wf() && self@.certs_wf()
    }

    /// The call to make next.
    pub fn step(&self) -> (step: Step)
        ensures
            step == self@.step,
            self@.wf(),
            self@.certs_wf(),
    {
        proof {
            use_type_invariant(self);
        }
        self.step
    }

    /// The `X509_STORE_CTX` of the verification.
    pub fn store_ctx(&self) -> (store_ctx: Address)
        ensures
            store_ctx == self@.store_ctx,
    {
        self.store_ctx
    }

    /// The certificates copied out of the chain.
    pub fn certs(&self) -> (certs: &Vec<CertificateDer<'static>>)
        ensures
            certs@.len() == self@.certs.len(),
            forall|i: int|
                0 <= i < certs@.len() ==> der_bytes(#[trigger] certs@[i]) == self@.certs[i],
            self@.certs_wf(),
    {
        proof {
            use_type_invariant(self);
        }
        &self.certs
    }

    /// The same verification with `step` to do next.
    fn to(self, step: Step) -> (next: Verification)
        requires
            self@.to(step).wf(),
        ensures
            next@ == self@.to(step),
    {
        proof {
            use_type_invariant(&self);
        }
        Verification { step, ..self }
    }

    /// Goes on with what `X509_STORE_CTX_get_error_depth` returned.
    pub fn error_depth(self, depth: i32) -> (next: Verification)
        requires
            self@.step is ErrorDepth,
        ensures
            next@ == self@.after_error_depth(depth),
            next@ == (Progress {
                step: if depth == 0 {
                    Step::Chain
                } else {
                    Step::Return { result: self@.preverify_ok }
                },
                ..self@
            }),
    {
        proof {
            use_type_invariant(&self);
        }
        let result = self.preverify_ok;
        if depth != 0 {
            self.to(Step::Return { result })
        } else {
            self.to(Step::Chain)
        }
    }

    /// Goes on with what `X509_STORE_CTX_get0_chain` returned.
    pub fn chain(self, stack: Address) -> (next: Verification)
        requires
            self@.step is Chain,
        ensures
            next@ == self@.after_chain(stack),
            next@ == (Progress {
                step: if stack != NULL {
                    Step::ChainLength { stack }
                } else {
                    Step::Return { result: 0 }
                },
                ..self@
            }),
    {
        proof {
            use_type_invariant(&self);
        }
        if stack == NULL {
            self.to(Step::Return { result: 0 })
        } else {
            self.to(Step::ChainLength { stack })
        }
    }

    /// Goes on with what `OPENSSL_sk_num` returned.
    pub fn chain_length(self, count: i32) -> (next: Verification)
        requires
            self@.step is ChainLength,
        ensures
            next@ == self@.after_chain_length(count),
            self@.step matches Step::ChainLength { stack } ==> next@ == (Progress {
                step: if count > 0 {
                    Step::ChainItem { cursor: Cursor { stack, index: 0, count } }
                } else if count == 0 {
                    Step::SetError { error: VerifyError::ApplicationVerification, in_use: None }
                } else {
                    Step::Return { result: 0 }
                },
                ..self@
            }),
    {
        proof {
            use_type_invariant(&self);
        }
        match self.step {
            Step::ChainLength { stack } => {
                if count < 0 {
                    self.to(Step::Return { result: 0 })
                } else if 0 < count {
                    self.to(Step::ChainItem { cursor: Cursor { stack, index: 0, count } })
                } else {
                    self.to(
                        Step::SetError {
                            error: VerifyError::ApplicationVerification,
                            in_use: None,
                        },
                    )
                }
            },
            _ => self,
        }
    }

    /// Goes on with what `OPENSSL_sk_value` returned.
    pub fn chain_item(self, x509: Address) -> (next: Verification)
        requires
            self@.step is ChainItem,
        ensures
            next@ == self@.after_chain_item(x509),
            self@.step matches Step::ChainItem { cursor } ==> next@ == (Progress {
                step: if x509 != NULL {
                    Step::Encode { cursor, x509 }
                } else {
                    Step::Return { result: 0 }
                },
                ..self@
            }),
    {
        proof {
            use_type_invariant(&self);
        }
        match self.step {
            Step::ChainItem { cursor } => {
                if x509 == NULL {
                    self.to(Step::Return { result: 0 })
                } else {
                    self.to(Step::Encode { cursor, x509 })
                }
            },
            _ => self,
        }
    }

    /// Goes on with what `i2d_X509` returned, and the buffer that it left as
    /// its output.
    pub fn encode(self, len: i32, buffer: Address) -> (next: Verification)
        requires
            self@.step is Encode,
        ensures
            next@ == self@.after_encode(len, buffer),
            self@.step matches Step::Encode { cursor, .. } ==> next@ == (Progress {
                step: if len > 0 && buffer != NULL {
                    Step::TakeBuffer { cursor, buffer, len: len as usize }
                } else {
                    Step::Return { result: 0 }
                },
                ..self@
            }),
    {
        proof {
            use_type_invariant(&self);
        }
        match self.step {
            Step::Encode { cursor, .. } => match encoded_len(len, buffer) {
                None => self.to(Step::Return { result: 0 }),
                Some(len) => self.to(Step::TakeBuffer { cursor, buffer, len }),
            },
            _ => self,
        }
    }

    /// Goes on with the bytes that were in the buffer, as many as the step
    /// names.
    pub fn take_buffer(self, bytes: Vec<u8>) -> (next: Verification)
        requires
            self@.step is TakeBuffer,
            bytes@.len() == self@.step->TakeBuffer_len,
        ensures
            next@ == self@.after_take_buffer(bytes@),
            self@.step matches Step::TakeBuffer { cursor, .. } ==> next@ == (Progress {
                certs: self@.certs.push(bytes@),
                step: if cursor.index + 1 < cursor.count {
                    Step::ChainItem {
                        cursor: Cursor {
                            stack: cursor.stack,
                            index: (cursor.index + 1) as i32,
                            count: cursor.count,
                        },
                    }
                } else {
                    Step::SslIndex
                },
                ..self@
            }),
    {
        proof {
            use_type_invariant(&self);
        }
        match self.step {
            Step::TakeBuffer { cursor, .. } => {
                let Verification { preverify_ok, store_ctx, certs, .. } = self;
                let mut certs: Vec<CertificateDer<'static>> = certs;
                let ghost before = certs@;
                certs.push(certificate_from_vec(bytes));
                assert(certs@.map_values(|cert: CertificateDer<'static>| der_bytes(cert))
                    =~= before.map_values(|cert: CertificateDer<'static>| der_bytes(cert)).push(
                    bytes@,
                ));
                let index: i32 = cursor.index + 1;
                let step = if index < cursor.count {
                    Step::ChainItem { cursor: Cursor { index, ..cursor } }
                } else {
                    Step::SslIndex
                };
                Verification { preverify_ok, store_ctx, certs, step }
            },
            _ => self,
        }
    }

    /// Goes on with what `SSL_get_ex_data_X509_STORE_CTX_idx` returned.
    pub fn ssl_index(self, index: i32) -> (next: Verification)
        requires
            self@.step is SslIndex,
        ensures
            next@ == self@.after_ssl_index(index),
            next@ == (Progress { step: Step::Ssl { index }, ..self@ }),
    {
        proof {
            use_type_invariant(&self);
        }
        self.to(Step::Ssl { index })
    }

    /// Goes on with what `X509_STORE_CTX_get_ex_data` returned.
    pub fn ssl(self, ssl: Address) -> (next: Verification)
        requires
            self@.step is Ssl,
        ensures
            next@ == self@.after_ssl(ssl),
            next@ == (Progress {
                step: if ssl != NULL {
                    Step::SslCtx { ssl }
                } else {
                    Step::ConfigIndex { ssl_ctx: NULL }
                },
                ..self@
            }),
    {
        proof {
            use_type_invariant(&self);
        }
        if ssl == NULL {
            self.to(Step::ConfigIndex { ssl_ctx: NULL })
        } else {
            self.to(Step::SslCtx { ssl })
        }
    }

    /// Goes on with what `SSL_get_SSL_CTX` returned.
    pub fn ssl_ctx(self, ssl_ctx: Address) -> (next: Verification)
        requires
            self@.step is SslCtx,
        ensures
            next@ == self@.after_ssl_ctx(ssl_ctx),
            next@ == (Progress { step: Step::ConfigIndex { ssl_ctx }, ..self@ }),
    {
        proof {
            use_type_invariant(&self);
        }
        self.to(Step::ConfigIndex { ssl_ctx })
    }

    /// Goes on with the index for configurations, if there is one.
    pub fn config_index(self, index: Option<i32>) -> (next: Verification)
        requires
            self@.step is ConfigIndex,
        ensures
            next@ == self@.after_config_index(index),
            self@.step matches Step::ConfigIndex { ssl_ctx } ==> next@ == (Progress {
                step: if ssl_ctx != NULL && index is Some {
                    Step::StoredConfig { ssl_ctx, index: index->0 }
                } else {
                    Step::NewConfig
                },
                ..self@
            }),
    {
        proof {
            use_type_invariant(&self);
        }
        match (self.step, index) {
            (Step::ConfigIndex { ssl_ctx }, Some(index)) => {
                if ssl_ctx == NULL {
                    self.to(Step::NewConfig)
                } else {
                    self.to(Step::StoredConfig { ssl_ctx, index })
                }
            },
            _ => self.to(Step::NewConfig),
        }
    }

    /// Goes on with what `SSL_CTX_get_ex_data` returned.
    pub fn stored_config(self, stored: Address) -> (next: Verification)
        requires
            self@.step is StoredConfig,
        ensures
            next@ == self@.after_stored_config(stored),
            next@ == (Progress {
                step: if stored != NULL {
                    Step::CheckRevocation { config: UpkiConfig::FromContext(stored) }
                } else {
                    Step::NewConfig
                },
                ..self@
            }),
    {
        proof {
            use_type_invariant(&self);
        }
        match UpkiConfig::from_context(stored) {
            None => self.to(Step::NewConfig),
            Some(config) => self.to(Step::CheckRevocation { config }),
        }
    }

    /// Goes on with what `upki_config_new` returned, and the configuration
    /// that it left as its output.
    pub fn new_config(self, code: u32, ptr: Address) -> (next: Verification)
        requires
            self@.step is NewConfig,
        ensures
            next@ == self@.after_new_config(ptr),
            next@ == (Progress {
                step: if ptr != NULL {
                    Step::CheckRevocation { config: UpkiConfig::Owned(ptr) }
                } else {
                    Step::SetError { error: VerifyError::ApplicationVerification, in_use: None }
                },
                ..self@
            }),
    {
        proof {
            use_type_invariant(&self);
        }
        match UpkiConfig::from_defaults(code, ptr) {
            Err(_) => self.to(
                Step::SetError { error: VerifyError::ApplicationVerification, in_use: None },
            ),
            Ok(config) => self.to(Step::CheckRevocation { config }),
        }
    }

    /// What is left once the result is known.
    fn finish(self, in_use: Option<UpkiConfig>, result: i32) -> (next: Verification)
        requires
            self@.finish(in_use, result).wf(),
        ensures
            next@ == self@.finish(in_use, result),
    {
        match in_use {
            Some(config) => match config.owned() {
                Some(owned) => self.to(Step::FreeConfig { owned, result }),
                None => self.to(Step::Return { result }),
            },
            None => self.to(Step::Return { result }),
        }
    }

    /// Goes on with what `upki_check_revocation` found.
    pub fn check_revocation(self, status: RevocationStatus) -> (next: Verification)
        requires
            self@.step is CheckRevocation,
        ensures
            next@ == self@.after_check_revocation(status),
            self@.step matches Step::CheckRevocation { config } ==> next@ == (Progress {
                step: match (status, config) {
                    (RevocationStatus::Revoked, _) => Step::SetError {
                        error: VerifyError::CertRevoked,
                        in_use: Some(config),
                    },
                    (RevocationStatus::Undetermined(_), _) => Step::SetError {
                        error: VerifyError::ApplicationVerification,
                        in_use: Some(config),
                    },
                    (_, UpkiConfig::Owned(owned)) => Step::FreeConfig {
                        owned,
                        result: self@.preverify_ok,
                    },
                    (_, UpkiConfig::FromContext(_)) => Step::Return {
                        result: self@.preverify_ok,
                    },
                },
                ..self@
            }),
    {
        proof {
            use_type_invariant(&self);
        }
        let result = self.preverify_ok;
        match self.step {
            Step::CheckRevocation { config } => match status.verify_error() {
                None => self.finish(Some(config), result),
                Some(error) => self.to(Step::SetError { error, in_use: Some(config) }),
            },
            _ => self,
        }
    }

    /// Goes on after `X509_STORE_CTX_set_error`.
    pub fn set_error(self) -> (next: Verification)
        requires
            self@.step is SetError,
        ensures
            next@ == self@.after_set_error(),
            self@.step matches Step::SetError { in_use, .. } ==> next@ == (Progress {
                step: match in_use {
                    Some(UpkiConfig::Owned(owned)) => Step::FreeConfig { owned, result: 0 },
                    _ => Step::Return { result: 0 },
                },
                ..self@
            }),
    {
        proof {
            use_type_invariant(&self);
        }
        match self.step {
            Step::SetError { in_use, .. } => self.finish(in_use, 0),
            _ => self,
        }
    }

    /// Goes on after `upki_config_free`.
    pub fn free_config(self) -> (next: Verification)
        requires
            self@.step is FreeConfig,
        ensures
            next@ == self@.after_free_config(),
            self@.step matches Step::FreeConfig { result, .. } ==> next@ == (Progress {
                step: Step::Return { result },
                ..self@
            }),
    {
        proof {
            use_type_invariant(&self);
        }
        match self.step {
            Step::FreeConfig { result, .. } => self.to(Step::Return { result }),
            _ => self,
        }
    }
}

} // verus!
