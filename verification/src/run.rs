//! Whole verifications: what one does and returns, given the answers of
//! OpenSSL and upki to all of its calls.

use vstd::prelude::*;

use crate::config::UpkiConfig;
use crate::openssl::{Address, VerifyError, NULL};
use crate::verify::{encoding_succeeded, Progress, RevocationStatus, Step};

verus! {

/// What OpenSSL answers about one certificate of the chain.
pub struct CertAnswers {
    /// From `OPENSSL_sk_value`.
    pub x509: Address,
    /// The return value of `i2d_X509`.
    pub len: i32,
    /// The output of `i2d_X509`.
    pub buffer: Address,
    /// What is in the buffer.
    pub bytes: Seq<u8>,
}

impl CertAnswers {
    /// Whether a buffer that `i2d_X509` left holds as many bytes as it returned.
    pub open spec fn wf(self) -> bool {
        encoding_succeeded(self.len, self.buffer) ==> self.bytes.len() == self.len
    }
}

/// What OpenSSL and upki answer to the calls of one verification, which makes
/// each of them at most once.
pub struct Answers {
    /// From `X509_STORE_CTX_get_error_depth`.
    pub error_depth: i32,
    /// From `X509_STORE_CTX_get0_chain`.
    pub chain: Address,
    /// From `OPENSSL_sk_num`.
    pub count: i32,
    /// Of each certificate of the chain.
    pub certs: Seq<CertAnswers>,
    /// From `SSL_get_ex_data_X509_STORE_CTX_idx`.
    pub ssl_index: i32,
    /// From `X509_STORE_CTX_get_ex_data`.
    pub ssl: Address,
    /// From `SSL_get_SSL_CTX`.
    pub ssl_ctx: Address,
    /// The `ex_data` index for configurations.
    pub config_index: Option<i32>,
    /// From `SSL_CTX_get_ex_data`.
    pub stored_config: Address,
    /// The output of `upki_config_new`.
    pub new_config: Address,
    /// From `upki_check_revocation`.
    pub status: RevocationStatus,
}

/// What a verification does to the objects of OpenSSL and upki.
pub enum Effect {
    /// Copies `len` bytes out of a buffer of OpenSSL's and frees it.
    TakeBuffer { buffer: Address, len: usize },
    /// Asks for a configuration made from the defaults.
    NewConfig,
    /// Checks a chain against a configuration.
    CheckRevocation { config: Address, certs: Seq<Seq<u8>> },
    /// Records an error in the `X509_STORE_CTX`.
    SetError { store_ctx: Address, error: VerifyError },
    /// Frees a configuration.
    FreeConfig { config: Address },
}

/// What doing the next step of a verification does.
pub open spec fn step_effects(at: Progress) -> Seq<Effect> {
    match at.step {
        Step::TakeBuffer { buffer, len, .. } => seq![Effect::TakeBuffer { buffer, len }],
        Step::NewConfig => seq![Effect::NewConfig],
        Step::CheckRevocation { config } => {
            seq![Effect::CheckRevocation { config: config.address(), certs: at.certs }]
        },
        Step::SetError { error, .. } => {
            seq![Effect::SetError { store_ctx: at.store_ctx, error }]
        },
        Step::FreeConfig { owned, .. } => seq![Effect::FreeConfig { config: owned }],
        _ => Seq::empty(),
    }
}

/// Where a verification is once the next step was answered.
pub open spec fn advance(at: Progress, a: Answers) -> Progress {
    match at.step {
        Step::ErrorDepth => at.after_error_depth(a.error_depth),
        Step::Chain => at.after_chain(a.chain),
        Step::ChainLength { .. } => at.after_chain_length(a.count),
        Step::ChainItem { cursor } => at.after_chain_item(a.certs[cursor.index as int].x509),
        Step::Encode { cursor, .. } => {
            let cert = a.certs[cursor.index as int];
            at.after_encode(cert.len, cert.buffer)
        },
        Step::TakeBuffer { cursor, .. } => {
            at.after_take_buffer(a.certs[cursor.index as int].bytes)
        },
        Step::SslIndex => at.after_ssl_index(a.ssl_index),
        Step::Ssl { .. } => at.after_ssl(a.ssl),
        Step::SslCtx { .. } => at.after_ssl_ctx(a.ssl_ctx),
        Step::ConfigIndex { .. } => at.after_config_index(a.config_index),
        Step::StoredConfig { .. } => at.after_stored_config(a.stored_config),
        Step::NewConfig => at.after_new_config(a.new_config),
        Step::CheckRevocation { .. } => at.after_check_revocation(a.status),
        Step::SetError { .. } => at.after_set_error(),
        Step::FreeConfig { .. } => at.after_free_config(),
        Step::Return { .. } => at,
    }
}

/// A verification, with what it has done so far.
pub struct Run {
    pub at: Progress,
    pub effects: Seq<Effect>,
}

impl Run {
    /// Before the first step.
    pub open spec fn start(preverify_ok: i32, store_ctx: Address) -> Run {
        Run { at: Progress::start(preverify_ok, store_ctx), effects: Seq::empty() }
    }

    /// After `n` more steps; a verification that has returned stays as it is.
    pub open spec fn after(self, a: Answers, n: nat) -> Run
        decreases n,
    {
        if n == 0 {
            self
        } else {
            let next = Run {
                at: advance(self.at, a),
                effects: self.effects + step_effects(self.at),
            };
            next.after(a, (n - 1) as nat)
        }
    }
}

/// A number of steps within which every verification returns.
pub open spec fn step_bound(a: Answers) -> nat {
    if a.count > 0 {
        (3 * a.count + 12) as nat
    } else {
        12
    }
}

/// The verification once it has returned.
pub open spec fn completed(preverify_ok: i32, store_ctx: Address, a: Answers) -> Run {
    Run::start(preverify_ok, store_ctx).after(a, step_bound(a))
}

/// Whether a certificate of the chain can be copied.
pub open spec fn readable(cert: CertAnswers) -> bool {
    cert.x509 != NULL && encoding_succeeded(cert.len, cert.buffer)
}

/// The place of the first certificate, from `i` on, that cannot be copied; the
/// length of the chain where all can.
pub open spec fn first_unreadable(a: Answers, i: int) -> int
    decreases a.count - i,
{
    if i >= a.count || !readable(a.certs[i]) {
        i
    } else {
        first_unreadable(a, i + 1)
    }
}

/// The first `n` certificates of the chain.
pub open spec fn chain_bytes(a: Answers, n: int) -> Seq<Seq<u8>> {
    Seq::new(n as nat, |i: int| a.certs[i].bytes)
}

/// Copying the first `n` certificates of the chain.
pub open spec fn taken(a: Answers, n: int) -> Seq<Effect> {
    Seq::new(
        n as nat,
        |i: int| Effect::TakeBuffer { buffer: a.certs[i].buffer, len: a.certs[i].len as usize },
    )
}

/// The configuration found in the `SSL_CTX`; `NULL` where there is none.
pub open spec fn context_config(a: Answers) -> Address {
    if a.ssl != NULL && a.ssl_ctx != NULL && a.config_index is Some {
        a.stored_config
    } else {
        NULL
    }
}

/// The configuration to check against: the one of the `SSL_CTX` where it has
/// one, else one made from the defaults, if that can be made.
pub open spec fn chosen_config(a: Answers) -> Option<UpkiConfig> {
    if context_config(a) != NULL {
        Some(UpkiConfig::FromContext(context_config(a)))
    } else if a.new_config != NULL {
        Some(UpkiConfig::Owned(a.new_config))
    } else {
        None
    }
}

/// What a verification returns, and what it does before.
pub struct Outcome {
    pub result: i32,
    pub effects: Seq<Effect>,
}

/// Refusing a chain with an error.
pub open spec fn refusal(store_ctx: Address, error: VerifyError) -> Seq<Effect> {
    seq![Effect::SetError { store_ctx, error }]
}

/// The outcome for a chain that was copied whole and is not empty.
pub open spec fn chain_outcome(preverify_ok: i32, store_ctx: Address, a: Answers) -> Outcome {
    let creation = if context_config(a) == NULL {
        seq![Effect::NewConfig]
    } else {
        Seq::empty()
    };
    let prepared = taken(a, a.count as int) + creation;
    match chosen_config(a) {
        None => Outcome {
            result: 0,
            effects: prepared + refusal(store_ctx, VerifyError::ApplicationVerification),
        },
        Some(config) => {
            let check = seq![
                Effect::CheckRevocation {
                    config: config.address(),
                    certs: chain_bytes(a, a.count as int),
                },
            ];
            let refused = match a.status.error() {
                Some(error) => refusal(store_ctx, error),
                None => Seq::empty(),
            };
            let released = match config.to_free() {
                Some(config) => seq![Effect::FreeConfig { config }],
                None => Seq::empty(),
            };
            Outcome {
                result: if a.status.allows() {
                    preverify_ok
                } else {
                    0
                },
                effects: prepared + check + refused + released,
            }
        },
    }
}

/// The outcome of a verification.
pub open spec fn outcome(preverify_ok: i32, store_ctx: Address, a: Answers) -> Outcome {
    if preverify_ok == 0 || store_ctx == NULL {
        Outcome { result: 0, effects: Seq::empty() }
    } else if a.error_depth != 0 {
        Outcome { result: preverify_ok, effects: Seq::empty() }
    } else if a.chain == NULL || a.count < 0 {
        Outcome { result: 0, effects: Seq::empty() }
    } else if first_unreadable(a, 0) < a.count {
        Outcome { result: 0, effects: taken(a, first_unreadable(a, 0)) }
    } else if a.count == 0 {
        Outcome { result: 0, effects: refusal(store_ctx, VerifyError::ApplicationVerification) }
    } else {
        chain_outcome(preverify_ok, store_ctx, a)
    }
}

pub(crate) proof fn lemma_after_adds(r: Run, a: Answers, m: nat, n: nat)
    ensures
        r.after(a, m + n) == r.after(a, m).after(a, n),
    decreases m,
{
    if m > 0 {
        let next = Run { at: advance(r.at, a), effects: r.effects + step_effects(r.at) };
        lemma_after_adds(next, a, (m - 1) as nat, n);
    }
}

proof fn lemma_returned_stays(r: Run, a: Answers, n: nat)
    requires
        r.at.step is Return,
    ensures
        r.after(a, n) == r,
    decreases n,
{
    if n > 0 {
        assert(r.effects + step_effects(r.at) =~= r.effects);
        lemma_returned_stays(r, a, (n - 1) as nat);
    }
}

pub(crate) proof fn lemma_first_unreadable_bounds(a: Answers, i: int)
    requires
        i <= a.count,
    ensures
        i <= first_unreadable(a, i) <= a.count,
        forall|j: int| i <= j < first_unreadable(a, i) ==> readable(#[trigger] a.certs[j]),
        first_unreadable(a, i) < a.count ==> !readable(a.certs[first_unreadable(a, i)]),
    decreases a.count - i,
{
    if i < a.count && readable(a.certs[i]) {
        lemma_first_unreadable_bounds(a, i + 1);
    }
}

/// Copying the rest of a chain of which the first `i` certificates are there.
proof fn lemma_copying(r: Run, a: Answers, i: int)
    requires
        0 <= i < a.count,
        r.at.step matches Step::ChainItem { cursor } && cursor.index == i && cursor.count
            == a.count,
        r.at.certs == chain_bytes(a, i),
        r.effects == taken(a, i),
    ensures
        ({
            let end = r.after(a, (3 * (a.count - i)) as nat);
            let k = first_unreadable(a, i);
            &&& end.effects == taken(a, k)
            &&& end.at.preverify_ok == r.at.preverify_ok
            &&& end.at.store_ctx == r.at.store_ctx
            &&& k < a.count ==> end.at.step == (Step::Return { result: 0 })
            &&& k == a.count ==> end.at.step is SslIndex && end.at.certs == chain_bytes(
                a,
                a.count as int,
            )
        }),
    decreases a.count - i,
{
    let cert = a.certs[i];
    let total = (3 * (a.count - i)) as nat;
    let next = r.after(a, 3);
    let rest = (total - 3) as nat;
    reveal_with_fuel(Run::after, 4);
    lemma_after_adds(r, a, 3, rest);
    assert(r.effects + Seq::<Effect>::empty() =~= r.effects);
    if readable(cert) {
        let copy = Effect::TakeBuffer { buffer: cert.buffer, len: cert.len as usize };
        assert(taken(a, i) + seq![copy] =~= taken(a, i + 1));
        assert(chain_bytes(a, i).push(cert.bytes) =~= chain_bytes(a, i + 1));
        assert(next.effects == taken(a, i + 1));
        assert(next.at.certs == chain_bytes(a, i + 1));
        if i + 1 < a.count {
            lemma_copying(next, a, i + 1);
        } else {
            assert(rest == 0);
        }
    } else {
        assert(next.at.step == (Step::Return { result: 0 }));
        assert(next.effects =~= taken(a, i));
        lemma_returned_stays(next, a, rest);
    }
}

/// From the whole copied chain to the end.
proof fn lemma_checking(r: Run, a: Answers)
    requires
        a.count > 0,
        r.at.step is SslIndex,
        r.at.certs == chain_bytes(a, a.count as int),
        r.effects == taken(a, a.count as int),
    ensures
        ({
            let end = r.after(a, 9);
            let expected = chain_outcome(r.at.preverify_ok, r.at.store_ctx, a);
            &&& end.at.step == (Step::Return { result: expected.result })
            &&& end.effects == expected.effects
        }),
{
    reveal_with_fuel(Run::after, 10);
    let end = r.after(a, 9);
    let expected = chain_outcome(r.at.preverify_ok, r.at.store_ctx, a);
    assert(end.effects =~= expected.effects);
}

/// Whatever OpenSSL and upki answer, a verification returns within
/// `step_bound` steps, and what it returns and does is its `outcome`.
pub proof fn law_verification_has_its_outcome(
    preverify_ok: i32,
    store_ctx: Address,
    a: Answers,
    n: nat,
)
    requires
        n >= step_bound(a),
    ensures
        Run::start(preverify_ok, store_ctx).after(a, n) == completed(preverify_ok, store_ctx, a),
        completed(preverify_ok, store_ctx, a).at.step == (Step::Return {
            result: outcome(preverify_ok, store_ctx, a).result,
        }),
        completed(preverify_ok, store_ctx, a).effects == outcome(
            preverify_ok,
            store_ctx,
            a,
        ).effects,
{
    let start = Run::start(preverify_ok, store_ctx);
    let expected = outcome(preverify_ok, store_ctx, a);
    let bound = step_bound(a);
    let early = start.after(a, 3);
    lemma_after_adds(start, a, 3, (bound - 3) as nat);
    assert(early.effects =~= Seq::empty() && (early.at.step is Return ==> early.at.step == (
    Step::Return { result: expected.result }) && expected.effects =~= Seq::empty())) by {
        reveal_with_fuel(Run::after, 4);
    }
    if early.at.step is Return {
        lemma_returned_stays(early, a, (bound - 3) as nat);
    } else {
        reveal_with_fuel(Run::after, 4);
        if a.count == 0 {
            assert(early.after(a, 2).at.step is Return);
            assert(early.after(a, 2).effects =~= expected.effects);
            lemma_after_adds(early, a, 2, (bound - 5) as nat);
            lemma_returned_stays(early.after(a, 2), a, (bound - 5) as nat);
        } else {
            let copying = (3 * a.count) as nat;
            lemma_first_unreadable_bounds(a, 0);
            assert(early.at.certs =~= chain_bytes(a, 0));
            assert(early.effects =~= taken(a, 0));
            lemma_copying(early, a, 0);
            let copied = early.after(a, copying);
            lemma_after_adds(early, a, copying, 9);
            if first_unreadable(a, 0) < a.count {
                lemma_returned_stays(copied, a, 9);
            } else {
                lemma_checking(copied, a);
            }
        }
    }
    lemma_after_adds(start, a, bound, (n - bound) as nat);
    lemma_returned_stays(start.after(a, bound), a, (n - bound) as nat);
}

} // verus!
