//! Which calls are made, in which order, and which objects they are given:
//! laws that tie every call to the answers of the calls before it.

use vstd::prelude::*;

use crate::config::{ConfigUpdate, UpdateStep, UpkiConfig};
use crate::laws::{update_advance, update_after, UpdateAnswers};
use crate::openssl::{Address, VerifyError, NULL};
use crate::run::{
    advance, chain_bytes, completed, first_unreadable, law_verification_has_its_outcome,
    lemma_after_adds, lemma_first_unreadable_bounds, step_bound, step_effects, Answers,
    CertAnswers, Effect, Run,
};
use crate::verify::{Cursor, Progress, RevocationStatus, Step};

verus! {

spec fn copyable(cert: CertAnswers) -> bool {
    cert.x509 != NULL && cert.len > 0 && cert.buffer != NULL
}

spec fn nothing_stored(a: Answers) -> bool {
    a.ssl == NULL || a.ssl_ctx == NULL || a.config_index is None || a.stored_config == NULL
}

spec fn allowed(a: Answers) -> bool {
    a.status is NotCovered || a.status is NotRevoked
}

spec fn config_fits(config: UpkiConfig, a: Answers) -> bool {
    match config {
        UpkiConfig::FromContext(ptr) => !nothing_stored(a) && ptr == a.stored_config,
        UpkiConfig::Owned(ptr) => nothing_stored(a) && ptr == a.new_config && ptr != NULL,
    }
}

/// Whether the certificates copied so far are the first ones of the chain, and
/// the chain is one to look at.
spec fn copying(p: Progress, a: Answers) -> bool {
    &&& p.preverify_ok != 0 && p.store_ctx != NULL
    &&& a.error_depth == 0 && a.chain != NULL
    &&& p.certs.len() <= a.count
    &&& forall|i: int| 0 <= i < p.certs.len() ==> #[trigger] p.certs[i] == a.certs[i].bytes
    &&& forall|i: int| 0 <= i < p.certs.len() ==> copyable(#[trigger] a.certs[i])
}

/// Whether the whole chain has been copied, and is not empty.
spec fn copied_whole(p: Progress, a: Answers) -> bool {
    copying(p, a) && p.certs.len() == a.count && a.count > 0
}

spec fn cursor_fits(cursor: Cursor, p: Progress, a: Answers) -> bool {
    &&& copying(p, a)
    &&& cursor.stack == a.chain && cursor.count == a.count
    &&& cursor.index == p.certs.len() && cursor.index < a.count
}

spec fn expected_result(preverify_ok: i32, store_ctx: Address, a: Answers) -> i32 {
    if preverify_ok != 0 && store_ctx != NULL && (a.error_depth != 0 || {
        &&& a.chain != NULL && a.count > 0
        &&& forall|i: int| 0 <= i < a.count ==> copyable(#[trigger] a.certs[i])
        &&& !nothing_stored(a) || a.new_config != NULL
        &&& allowed(a)
    }) {
        preverify_ok
    } else {
        0
    }
}

/// What is known wherever a verification has come to.
spec fn reached(p: Progress, a: Answers) -> bool {
    match p.step {
        Step::ErrorDepth => p.preverify_ok != 0 && p.store_ctx != NULL && p.certs.len() == 0,
        Step::Chain => {
            &&& p.preverify_ok != 0 && p.store_ctx != NULL && p.certs.len() == 0
            &&& a.error_depth == 0
        },
        Step::ChainLength { stack } => {
            &&& p.preverify_ok != 0 && p.store_ctx != NULL && p.certs.len() == 0
            &&& a.error_depth == 0 && a.chain != NULL && stack == a.chain
        },
        Step::ChainItem { cursor } => cursor_fits(cursor, p, a),
        Step::Encode { cursor, x509 } => {
            cursor_fits(cursor, p, a) && x509 != NULL && x509 == a.certs[cursor.index as int].x509
        },
        Step::TakeBuffer { cursor, buffer, len } => {
            &&& cursor_fits(cursor, p, a)
            &&& copyable(a.certs[cursor.index as int])
            &&& buffer == a.certs[cursor.index as int].buffer
            &&& len == a.certs[cursor.index as int].len
        },
        Step::SslIndex => copied_whole(p, a),
        Step::Ssl { index } => copied_whole(p, a) && index == a.ssl_index,
        Step::SslCtx { ssl } => copied_whole(p, a) && ssl == a.ssl && ssl != NULL,
        Step::ConfigIndex { ssl_ctx } => {
            copied_whole(p, a) && ssl_ctx == (if a.ssl == NULL {
                NULL
            } else {
                a.ssl_ctx
            })
        },
        Step::StoredConfig { ssl_ctx, index } => {
            &&& copied_whole(p, a)
            &&& a.ssl != NULL && ssl_ctx == a.ssl_ctx && ssl_ctx != NULL
            &&& a.config_index == Some(index)
        },
        Step::NewConfig => copied_whole(p, a) && nothing_stored(a),
        Step::CheckRevocation { config } => copied_whole(p, a) && config_fits(config, a),
        Step::SetError { error, in_use } => {
            &&& copying(p, a) && p.certs.len() == a.count
            &&& match in_use {
                None => error is ApplicationVerification && (a.count == 0 || nothing_stored(a)
                    && a.new_config == NULL),
                Some(config) => {
                    &&& a.count > 0 && config_fits(config, a)
                    &&& !allowed(a)
                    &&& error is CertRevoked <==> a.status is Revoked
                },
            }
        },
        Step::FreeConfig { owned, result } => {
            &&& copied_whole(p, a) && nothing_stored(a)
            &&& owned == a.new_config && owned != NULL
            &&& result == (if allowed(a) {
                p.preverify_ok
            } else {
                0
            })
        },
        Step::Return { result } => result == expected_result(p.preverify_ok, p.store_ctx, a),
    }
}

proof fn lemma_reached_next(p: Progress, a: Answers)
    requires
        reached(p, a),
    ensures
        reached(advance(p, a), a),
        advance(p, a).preverify_ok == p.preverify_ok,
        advance(p, a).store_ctx == p.store_ctx,
{
}

proof fn lemma_reached_from(run: Run, a: Answers, n: nat)
    requires
        reached(run.at, a),
    ensures
        reached(run.after(a, n).at, a),
        run.after(a, n).at.preverify_ok == run.at.preverify_ok,
        run.after(a, n).at.store_ctx == run.at.store_ctx,
    decreases n,
{
    if n > 0 {
        let next = Run { at: advance(run.at, a), effects: run.effects + step_effects(run.at) };
        lemma_reached_next(run.at, a);
        lemma_reached_from(next, a, (n - 1) as nat);
    }
}

proof fn lemma_reached(preverify_ok: i32, store_ctx: Address, a: Answers, n: nat)
    ensures
        ({
            let at = Run::start(preverify_ok, store_ctx).after(a, n).at;
            &&& reached(at, a)
            &&& at.preverify_ok == preverify_ok
            &&& at.store_ctx == store_ctx
        }),
{
    lemma_reached_from(Run::start(preverify_ok, store_ctx), a, n);
}

/// Each call is given the very objects that earlier calls returned: the chain
/// to the calls about the chain, each certificate to its encoding, the buffer
/// and the length of the encoding to its copying, the `SSL` to the lookup of
/// its `SSL_CTX`, that `SSL_CTX` and the index for configurations to the lookup
/// of the configuration, and the configuration to the check. Only a
/// configuration that was made is freed.
pub proof fn law_calls_get_what_was_answered(
    preverify_ok: i32,
    store_ctx: Address,
    a: Answers,
    n: nat,
)
    ensures
        ({
            let at = Run::start(preverify_ok, store_ctx).after(a, n).at;
            &&& at.store_ctx == store_ctx
            &&& at.step matches Step::ChainLength { stack } ==> stack == a.chain
            &&& at.step matches Step::ChainItem { cursor } ==> {
                &&& cursor.stack == a.chain
                &&& cursor.count == a.count
                &&& 0 <= cursor.index < a.count
                &&& cursor.index == at.certs.len()
            }
            &&& at.step matches Step::Encode { cursor, x509 } ==> {
                &&& cursor.stack == a.chain
                &&& cursor.count == a.count
                &&& 0 <= cursor.index < a.count
                &&& cursor.index == at.certs.len()
                &&& x509 == a.certs[cursor.index as int].x509
            }
            &&& at.step matches Step::TakeBuffer { cursor, buffer, len } ==> {
                &&& cursor.stack == a.chain
                &&& cursor.count == a.count
                &&& 0 <= cursor.index < a.count
                &&& cursor.index == at.certs.len()
                &&& buffer == a.certs[cursor.index as int].buffer
                &&& len == a.certs[cursor.index as int].len
            }
            &&& at.step matches Step::Ssl { index } ==> index == a.ssl_index
            &&& at.step matches Step::SslCtx { ssl } ==> ssl == a.ssl
            &&& at.step matches Step::ConfigIndex { ssl_ctx } ==> ssl_ctx == (if a.ssl == NULL {
                NULL
            } else {
                a.ssl_ctx
            })
            &&& at.step matches Step::StoredConfig { ssl_ctx, index } ==> ssl_ctx == a.ssl_ctx
                && a.config_index == Some(index)
            &&& at.step matches Step::CheckRevocation { config } ==> config
                == UpkiConfig::FromContext(a.stored_config) || config == UpkiConfig::Owned(
                a.new_config,
            )
            &&& at.step matches Step::SetError { in_use: Some(config), .. } ==> config
                == UpkiConfig::FromContext(a.stored_config) || config == UpkiConfig::Owned(
                a.new_config,
            )
            &&& at.step matches Step::FreeConfig { owned, .. } ==> owned == a.new_config
        }),
{
    lemma_reached(preverify_ok, store_ctx, a, n);
}

/// The copied certificates are, at any time, the first ones of the chain, in
/// its order and byte by byte. All of them are there when the configuration is
/// looked up and when the chain is checked.
pub proof fn law_certs_are_copied_in_order(
    preverify_ok: i32,
    store_ctx: Address,
    a: Answers,
    n: nat,
    i: int,
)
    requires
        !(Run::start(preverify_ok, store_ctx).after(a, n).at.step is Return),
    ensures
        ({
            let at = Run::start(preverify_ok, store_ctx).after(a, n).at;
            &&& 0 <= i < at.certs.len() ==> i < a.count && at.certs[i] == a.certs[i].bytes
            &&& at.step is SslIndex || at.step is Ssl || at.step is SslCtx || at.step is ConfigIndex
                || at.step is StoredConfig || at.step is NewConfig || at.step is CheckRevocation
                ==> at.certs.len() == a.count
        }),
{
    lemma_reached(preverify_ok, store_ctx, a, n);
}

/// No call that needs an object is given `NULL`.
pub proof fn law_no_call_gets_null(preverify_ok: i32, store_ctx: Address, a: Answers, n: nat)
    ensures
        ({
            let step = Run::start(preverify_ok, store_ctx).after(a, n).at.step;
            &&& step !is Return ==> preverify_ok != 0 && store_ctx != NULL
            &&& step matches Step::ChainLength { stack } ==> stack != NULL
            &&& step matches Step::ChainItem { cursor } ==> cursor.stack != NULL
            &&& step matches Step::Encode { x509, .. } ==> x509 != NULL
            &&& step matches Step::TakeBuffer { buffer, len, .. } ==> buffer != NULL && len > 0
            &&& step matches Step::SslCtx { ssl } ==> ssl != NULL
            &&& step matches Step::StoredConfig { ssl_ctx, .. } ==> ssl_ctx != NULL
            &&& step matches Step::CheckRevocation { config: UpkiConfig::FromContext(ptr) } ==> ptr
                != NULL
            &&& step matches Step::CheckRevocation { config: UpkiConfig::Owned(ptr) } ==> ptr
                != NULL
            &&& step matches Step::FreeConfig { owned, .. } ==> owned != NULL
        }),
{
    lemma_reached(preverify_ok, store_ctx, a, n);
}

/// Each call is made only where it is called for: the chain is looked at for
/// the leaf alone, the configuration only for a chain that was copied whole, a
/// configuration is made only where none is stored, and it is one that was made
/// that is freed. An error tells of a revoked certificate where the check found
/// one, and else that the status could not be determined.
pub proof fn law_calls_have_their_reasons(
    preverify_ok: i32,
    store_ctx: Address,
    a: Answers,
    n: nat,
    i: int,
)
    ensures
        ({
            let at = Run::start(preverify_ok, store_ctx).after(a, n).at;
            let stored = a.ssl != NULL && a.ssl_ctx != NULL && a.config_index is Some
                && a.stored_config != NULL;
            &&& !(at.step is Return) && !(at.step is ErrorDepth) ==> a.error_depth == 0
            &&& !(at.step is Return) && 0 <= i < at.certs.len() ==> a.certs[i].x509 != NULL
                && a.certs[i].len > 0 && a.certs[i].buffer != NULL
            &&& at.step is StoredConfig ==> a.ssl != NULL
            &&& at.step is NewConfig ==> !stored && a.count > 0
            &&& at.step matches Step::CheckRevocation { config } ==> {
                &&& a.count > 0
                &&& config is FromContext <==> stored
            }
            &&& at.step matches Step::SetError { error, in_use } ==> {
                &&& in_use is None ==> error is ApplicationVerification && (a.count == 0 || !stored
                    && a.new_config == NULL)
                &&& in_use is Some ==> {
                    &&& in_use->0 is FromContext <==> stored
                    &&& a.status is Revoked && error is CertRevoked || a.status is Undetermined
                        && error is ApplicationVerification
                }
            }
            &&& at.step matches Step::FreeConfig { result, .. } ==> {
                &&& !stored
                &&& a.status is NotCovered || a.status is NotRevoked ==> result == preverify_ok
                &&& a.status is Revoked || a.status is Undetermined ==> result == 0
            }
        }),
{
    lemma_reached(preverify_ok, store_ctx, a, n);
}

/// Whenever a verification returns, the result is `preverify_ok` where that is
/// not 0 and either it is not the turn of the leaf, or each certificate of a
/// chain that is not empty is there and could be encoded, a configuration is
/// stored or could be made, and the check found the chain not covered or not
/// revoked. In all other cases the result is 0.
pub proof fn law_result_is_decided_by_the_answers(
    preverify_ok: i32,
    store_ctx: Address,
    a: Answers,
    n: nat,
)
    ensures
        Run::start(preverify_ok, store_ctx).after(a, n).at.step matches Step::Return { result }
            ==> result == (if {
            &&& preverify_ok != 0
            &&& store_ctx != NULL
            &&& a.error_depth != 0 || {
                &&& a.chain != NULL
                &&& a.count > 0
                &&& forall|j: int|
                    0 <= j < a.count ==> (#[trigger] a.certs[j]).x509 != NULL && a.certs[j].len > 0
                        && a.certs[j].buffer != NULL
                &&& a.new_config != NULL || (a.ssl != NULL && a.ssl_ctx != NULL
                    && a.config_index is Some && a.stored_config != NULL)
                &&& a.status is NotCovered || a.status is NotRevoked
            }
        } {
            preverify_ok
        } else {
            0
        }),
        n >= 3 * a.count + 12 && n >= 12 ==> Run::start(preverify_ok, store_ctx).after(
            a,
            n,
        ).at.step is Return,
{
    lemma_reached(preverify_ok, store_ctx, a, n);
    if n >= 3 * a.count + 12 && n >= 12 {
        law_verification_has_its_outcome(preverify_ok, store_ctx, a, n);
    }
}

proof fn lemma_copying_reaches(preverify_ok: i32, store_ctx: Address, a: Answers, i: int)
    requires
        preverify_ok != 0,
        store_ctx != NULL,
        a.error_depth == 0,
        a.chain != NULL,
        0 <= i <= a.count,
        0 < a.count,
        forall|j: int| 0 <= j < i ==> copyable(#[trigger] a.certs[j]),
    ensures
        ({
            let at = Run::start(preverify_ok, store_ctx).after(a, (3 + 3 * i) as nat).at;
            at == (Progress {
                preverify_ok,
                store_ctx,
                certs: chain_bytes(a, i),
                step: if i < a.count {
                    Step::ChainItem {
                        cursor: Cursor { stack: a.chain, index: i as i32, count: a.count },
                    }
                } else {
                    Step::SslIndex
                },
            })
        }),
    decreases i,
{
    let start = Run::start(preverify_ok, store_ctx);
    if i == 0 {
        reveal_with_fuel(Run::after, 4);
        assert(chain_bytes(a, 0) =~= Seq::empty());
    } else {
        lemma_copying_reaches(preverify_ok, store_ctx, a, i - 1);
        let before = start.after(a, (3 * i) as nat);
        assert(3 * i == 3 + 3 * (i - 1));
        lemma_after_adds(start, a, (3 * i) as nat, 3);
        assert(copyable(a.certs[i - 1]));
        assert(chain_bytes(a, i - 1).push(a.certs[i - 1].bytes) =~= chain_bytes(a, i));
        assert(before.after(a, 3).at == advance(advance(advance(before.at, a), a), a)) by {
            reveal_with_fuel(Run::after, 4);
        }
    }
}

/// For the leaf, the calls come in a fixed order: the depth, the chain and its
/// length first, then for each certificate in turn its lookup, its encoding and
/// the copying of its bytes.
pub proof fn law_chain_is_read_in_order(preverify_ok: i32, store_ctx: Address, a: Answers, i: int)
    requires
        preverify_ok != 0,
        store_ctx != NULL,
        a.error_depth == 0,
        a.chain != NULL,
        0 <= i < a.count,
        forall|j: int|
            0 <= j < i ==> (#[trigger] a.certs[j]).x509 != NULL && a.certs[j].len > 0
                && a.certs[j].buffer != NULL,
    ensures
        ({
            let start = Run::start(preverify_ok, store_ctx);
            let cursor = Cursor { stack: a.chain, index: i as i32, count: a.count };
            let cert = a.certs[i];
            &&& start.after(a, 0).at.step is ErrorDepth
            &&& start.after(a, 1).at.step is Chain
            &&& start.after(a, 2).at.step == (Step::ChainLength { stack: a.chain })
            &&& start.after(a, (3 + 3 * i) as nat).at.step == (Step::ChainItem { cursor })
            &&& cert.x509 != NULL ==> start.after(a, (3 + 3 * i + 1) as nat).at.step == (
            Step::Encode { cursor, x509: cert.x509 })
            &&& cert.x509 != NULL && cert.len > 0 && cert.buffer != NULL ==> start.after(
                a,
                (3 + 3 * i + 2) as nat,
            ).at.step == (Step::TakeBuffer {
                cursor,
                buffer: cert.buffer,
                len: cert.len as usize,
            })
        }),
{
    let start = Run::start(preverify_ok, store_ctx);
    let here = (3 + 3 * i) as nat;
    lemma_copying_reaches(preverify_ok, store_ctx, a, i);
    lemma_after_adds(start, a, here, 1);
    lemma_after_adds(start, a, here, 2);
    reveal_with_fuel(Run::after, 3);
}

/// Once a chain has been copied whole, its `SSL` is looked up, then the
/// `SSL_CTX` of that, the index for configurations, and the configuration
/// stored there; one is made only after none was found. The check comes next.
pub proof fn law_config_is_found_in_order(preverify_ok: i32, store_ctx: Address, a: Answers)
    requires
        preverify_ok != 0,
        store_ctx != NULL,
        a.error_depth == 0,
        a.chain != NULL,
        0 < a.count,
        forall|j: int|
            0 <= j < a.count ==> (#[trigger] a.certs[j]).x509 != NULL && a.certs[j].len > 0
                && a.certs[j].buffer != NULL,
    ensures
        ({
            let copied = Run::start(preverify_ok, store_ctx).after(a, (3 + 3 * a.count) as nat);
            let asked = if a.ssl != NULL {
                copied.after(a, 3)
            } else {
                copied.after(a, 2)
            };
            let ssl_ctx = if a.ssl != NULL {
                a.ssl_ctx
            } else {
                NULL
            };
            let found = if ssl_ctx != NULL && a.config_index is Some {
                asked.after(a, 2)
            } else {
                asked.after(a, 1)
            };
            let stored = ssl_ctx != NULL && a.config_index is Some && a.stored_config != NULL;
            &&& copied.at.step is SslIndex
            &&& copied.after(a, 1).at.step == (Step::Ssl { index: a.ssl_index })
            &&& a.ssl != NULL ==> copied.after(a, 2).at.step == (Step::SslCtx { ssl: a.ssl })
            &&& asked.at.step == (Step::ConfigIndex { ssl_ctx })
            &&& ssl_ctx != NULL && a.config_index is Some ==> asked.after(a, 1).at.step == (
            Step::StoredConfig { ssl_ctx, index: a.config_index->0 })
            &&& stored ==> found.at.step == (Step::CheckRevocation {
                config: UpkiConfig::FromContext(a.stored_config),
            })
            &&& !stored ==> found.at.step is NewConfig
            &&& !stored && a.new_config != NULL ==> found.after(a, 1).at.step == (
            Step::CheckRevocation { config: UpkiConfig::Owned(a.new_config) })
        }),
{
    lemma_copying_reaches(preverify_ok, store_ctx, a, a.count as int);
    reveal_with_fuel(Run::after, 4);
}

/// The lookup of a verification reads the very place at which a configuration
/// was stored: the same `SSL_CTX`, and the same index.
pub proof fn law_lookup_reads_where_it_was_stored(
    preverify_ok: i32,
    store_ctx: Address,
    a: Answers,
    n: nat,
    ctx: Address,
    config: Address,
    b: UpdateAnswers,
    m: nat,
)
    requires
        a.ssl_ctx == ctx,
        a.config_index == b.config_index,
    ensures
        ({
            let verification = Run::start(preverify_ok, store_ctx).after(a, n).at;
            let update = update_after(ConfigUpdate::start(ctx, config), b, m);
            verification.step matches Step::StoredConfig { ssl_ctx, index } ==> {
                &&& ssl_ctx == update.ctx
                &&& update.step matches UpdateStep::StoreConfig { index: stored_at } ==> index
                    == stored_at
            }
        }),
{
    law_calls_get_what_was_answered(preverify_ok, store_ctx, a, n);
    law_update_keeps_to_one_place(ctx, config, b, m);
}

proof fn lemma_update_from(at: ConfigUpdate, a: UpdateAnswers, n: nat)
    requires
        at.step matches UpdateStep::StoredConfig { index } ==> a.config_index == Some(index),
        at.step matches UpdateStep::FreeConfig { index, previous } ==> a.config_index == Some(index)
            && previous == a.stored_config,
        at.step matches UpdateStep::StoreConfig { index } ==> a.config_index == Some(index),
    ensures
        ({
            let end = update_after(at, a, n);
            &&& end.ctx == at.ctx && end.config == at.config
            &&& end.step matches UpdateStep::StoredConfig { index } ==> a.config_index == Some(
                index,
            )
            &&& end.step matches UpdateStep::FreeConfig { index, previous } ==> a.config_index
                == Some(index) && previous == a.stored_config
            &&& end.step matches UpdateStep::StoreConfig { index } ==> a.config_index == Some(
                index,
            )
        }),
    decreases n,
{
    if n > 0 {
        lemma_update_from(update_advance(at, a), a, (n - 1) as nat);
    }
}

/// While a configuration is set, the previous one is looked up at the index
/// that was answered, it is that one which is freed, and the new one is stored
/// at the same index: what is freed is what the new configuration replaces.
pub proof fn law_update_keeps_to_one_place(
    ctx: Address,
    config: Address,
    a: UpdateAnswers,
    n: nat,
)
    ensures
        ({
            let at = update_after(ConfigUpdate::start(ctx, config), a, n);
            &&& at.ctx == ctx
            &&& at.config == config
            &&& at.step matches UpdateStep::StoredConfig { index } ==> a.config_index == Some(index)
            &&& at.step matches UpdateStep::FreeConfig { index, previous } ==> a.config_index
                == Some(index) && previous == a.stored_config
            &&& at.step matches UpdateStep::StoreConfig { index } ==> a.config_index == Some(index)
        }),
{
    lemma_update_from(ConfigUpdate::start(ctx, config), a, n);
}

/// Setting a configuration gets the index, looks the previous configuration up,
/// frees it and stores the new one, in this order; without an `SSL_CTX` it
/// makes no call, and without an index it makes no other.
pub proof fn law_update_steps_come_in_order(ctx: Address, config: Address, a: UpdateAnswers)
    ensures
        ({
            let start = ConfigUpdate::start(ctx, config);
            &&& ctx == NULL ==> start.step is Done
            &&& ctx != NULL ==> start.step is ConfigIndex
            &&& ctx != NULL && a.config_index is None ==> update_after(start, a, 1).step is Done
            &&& ctx != NULL ==> (a.config_index matches Some(index) ==> {
                &&& update_after(start, a, 1).step == (UpdateStep::StoredConfig { index })
                &&& update_after(start, a, 2).step == (UpdateStep::FreeConfig {
                    index,
                    previous: a.stored_config,
                })
                &&& update_after(start, a, 3).step == (UpdateStep::StoreConfig { index })
                &&& update_after(start, a, 4).step is Done
            })
        }),
{
    reveal_with_fuel(update_after, 5);
}

/// For the leaf, a chain of at least one certificate, all of which are there
/// and could be encoded, is checked once, whole, against the configuration that
/// is stored in the `SSL_CTX`, or else against the one that was made. Before
/// the check each buffer is emptied and freed, in the order of the chain, and
/// the configuration is made, if none is stored; after it the error is
/// recorded, if the chain is refused, and a configuration that was made is
/// freed. Nothing else is done.
pub proof fn law_readable_chain_is_checked(preverify_ok: i32, store_ctx: Address, a: Answers)
    requires
        preverify_ok != 0,
        store_ctx != NULL,
        a.error_depth == 0,
        a.chain != NULL,
        0 < a.count,
        forall|j: int|
            0 <= j < a.count ==> (#[trigger] a.certs[j]).x509 != NULL && a.certs[j].len > 0
                && a.certs[j].buffer != NULL,
        a.new_config != NULL || (a.ssl != NULL && a.ssl_ctx != NULL && a.config_index is Some
            && a.stored_config != NULL),
    ensures
        ({
            let effects = completed(preverify_ok, store_ctx, a).effects;
            let stored = a.ssl != NULL && a.ssl_ctx != NULL && a.config_index is Some
                && a.stored_config != NULL;
            let passes = a.status is NotCovered || a.status is NotRevoked;
            let made: int = if stored {
                0
            } else {
                1
            };
            let refused: int = if passes {
                0
            } else {
                1
            };
            &&& effects.len() == a.count + made + 1 + refused + made
            &&& forall|j: int|
                0 <= j < a.count ==> #[trigger] effects[j] == (Effect::TakeBuffer {
                    buffer: a.certs[j].buffer,
                    len: a.certs[j].len as usize,
                })
            &&& !stored ==> effects[a.count as int] is NewConfig
            &&& effects[a.count + made] == (Effect::CheckRevocation {
                config: if stored {
                    a.stored_config
                } else {
                    a.new_config
                },
                certs: Seq::new(a.count as nat, |j: int| a.certs[j].bytes),
            })
            &&& a.status is Revoked ==> effects[a.count + made + 1] == (Effect::SetError {
                store_ctx,
                error: VerifyError::CertRevoked,
            })
            &&& a.status is Undetermined ==> effects[a.count + made + 1] == (Effect::SetError {
                store_ctx,
                error: VerifyError::ApplicationVerification,
            })
            &&& !stored ==> effects.last() == (Effect::FreeConfig { config: a.new_config })
        }),
{
    law_verification_has_its_outcome(preverify_ok, store_ctx, a, step_bound(a));
    lemma_first_unreadable_bounds(a, 0);
    let effects = completed(preverify_ok, store_ctx, a).effects;
    assert(chain_bytes(a, a.count as int) =~= Seq::new(
        a.count as nat,
        |j: int| a.certs[j].bytes,
    ));
}

/// For the leaf, a chain of at least one certificate, all of which are there
/// and could be encoded, is refused where no configuration is stored and none
/// could be made. An empty chain is refused as well, with the same error.
pub proof fn law_chain_without_config_is_refused(
    preverify_ok: i32,
    store_ctx: Address,
    a: Answers,
)
    requires
        preverify_ok != 0,
        store_ctx != NULL,
        a.error_depth == 0,
        a.chain != NULL,
        0 <= a.count,
        forall|j: int|
            0 <= j < a.count ==> (#[trigger] a.certs[j]).x509 != NULL && a.certs[j].len > 0
                && a.certs[j].buffer != NULL,
        a.count == 0 || (a.new_config == NULL && (a.ssl == NULL || a.ssl_ctx == NULL
            || a.config_index is None || a.stored_config == NULL)),
    ensures
        ({
            let effects = completed(preverify_ok, store_ctx, a).effects;
            &&& effects.len() == a.count + (if a.count == 0 {
                1int
            } else {
                2
            })
            &&& forall|j: int|
                0 <= j < a.count ==> #[trigger] effects[j] == (Effect::TakeBuffer {
                    buffer: a.certs[j].buffer,
                    len: a.certs[j].len as usize,
                })
            &&& a.count > 0 ==> effects[a.count as int] is NewConfig
            &&& effects.last() == (Effect::SetError {
                store_ctx,
                error: VerifyError::ApplicationVerification,
            })
        }),
{
    law_verification_has_its_outcome(preverify_ok, store_ctx, a, step_bound(a));
    lemma_first_unreadable_bounds(a, 0);
}

/// For the leaf, a chain of which the certificate at place `k` is the first
/// that is not there or could not be encoded is not checked: the certificates
/// before that one are copied, and nothing else is done.
pub proof fn law_unreadable_chain_is_left(
    preverify_ok: i32,
    store_ctx: Address,
    a: Answers,
    k: int,
)
    requires
        preverify_ok != 0,
        store_ctx != NULL,
        a.error_depth == 0,
        a.chain != NULL,
        0 <= k < a.count,
        forall|j: int|
            0 <= j < k ==> (#[trigger] a.certs[j]).x509 != NULL && a.certs[j].len > 0
                && a.certs[j].buffer != NULL,
        a.certs[k].x509 == NULL || a.certs[k].len <= 0 || a.certs[k].buffer == NULL,
    ensures
        ({
            let effects = completed(preverify_ok, store_ctx, a).effects;
            &&& effects.len() == k
            &&& forall|j: int|
                0 <= j < k ==> #[trigger] effects[j] == (Effect::TakeBuffer {
                    buffer: a.certs[j].buffer,
                    len: a.certs[j].len as usize,
                })
        }),
{
    law_verification_has_its_outcome(preverify_ok, store_ctx, a, step_bound(a));
    lemma_first_unreadable_bounds(a, 0);
    let first = first_unreadable(a, 0);
    if first < k {
        assert(a.certs[first].x509 != NULL);
    } else if first > k {
        assert(a.certs[k].x509 != NULL);
    }
}

/// Nothing is done where OpenSSL has failed the verification, where there is no
/// `X509_STORE_CTX`, where it is not the turn of the leaf, and where there is
/// no chain or its length is not known.
pub proof fn law_nothing_is_done_without_a_chain(
    preverify_ok: i32,
    store_ctx: Address,
    a: Answers,
)
    requires
        preverify_ok == 0 || store_ctx == NULL || a.error_depth != 0 || a.chain == NULL || a.count
            < 0,
    ensures
        completed(preverify_ok, store_ctx, a).effects.len() == 0,
{
    law_verification_has_its_outcome(preverify_ok, store_ctx, a, step_bound(a));
}

/// `NULL` is the address that OpenSSL and upki use for no object, and each
/// status of a chain has its error, or none.
pub proof fn law_statuses_have_their_errors(status: RevocationStatus)
    ensures
        NULL == 0,
        status is Revoked ==> status.error() == Some(VerifyError::CertRevoked),
        status is Undetermined ==> status.error() == Some(VerifyError::ApplicationVerification),
        status is NotCovered || status is NotRevoked ==> status.error() is None,
        VerifyError::CertRevoked.number() == 23,
        VerifyError::ApplicationVerification.number() == 50,
{
}

} // verus!
