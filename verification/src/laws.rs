//! What holds of every verification and of every change of configuration.

use vstd::prelude::*;

use crate::config::{ConfigUpdate, UpdateStep, UpkiConfig};
use crate::openssl::{Address, VerifyError, NULL};
use crate::run::{
    advance, chain_bytes, chosen_config, completed, context_config, first_unreadable,
    law_verification_has_its_outcome, lemma_after_adds, lemma_first_unreadable_bounds, outcome,
    readable, step_bound, step_effects, taken, Answers, Effect, Run,
};
use crate::verify::{Progress, RevocationStatus, Step};

verus! {

/// What a verification that has returned gives to OpenSSL.
pub open spec fn result(run: Run) -> i32 {
    run.at.step->Return_result
}

/// Whether the chain is to be looked at: OpenSSL's own verification passed, and
/// it is the turn of the leaf.
pub open spec fn at_leaf(preverify_ok: i32, store_ctx: Address, a: Answers) -> bool {
    preverify_ok != 0 && store_ctx != NULL && a.error_depth == 0
}

/// Whether the chain can be copied whole.
pub open spec fn chain_readable(a: Answers) -> bool {
    &&& a.chain != NULL
    &&& a.count >= 0
    &&& forall|i: int| 0 <= i < a.count ==> readable(#[trigger] a.certs[i])
}

/// Whether the revocation of the chain is checked.
pub open spec fn chain_checked(preverify_ok: i32, store_ctx: Address, a: Answers) -> bool {
    &&& at_leaf(preverify_ok, store_ctx, a)
    &&& chain_readable(a)
    &&& a.count > 0
    &&& chosen_config(a) is Some
}

/// The facts that the laws below start from.
proof fn lemma_completed(preverify_ok: i32, store_ctx: Address, a: Answers)
    ensures
        completed(preverify_ok, store_ctx, a).at.step is Return,
        result(completed(preverify_ok, store_ctx, a)) == outcome(preverify_ok, store_ctx, a).result,
        completed(preverify_ok, store_ctx, a).effects == outcome(
            preverify_ok,
            store_ctx,
            a,
        ).effects,
        a.count >= 0 ==> 0 <= first_unreadable(a, 0) <= a.count,
        a.count >= 0 && a.chain != NULL ==> (chain_readable(a) <==> first_unreadable(a, 0)
            == a.count),
{
    law_verification_has_its_outcome(preverify_ok, store_ctx, a, step_bound(a));
    if a.count >= 0 {
        lemma_first_unreadable_bounds(a, 0);
    }
}

/// A verification that OpenSSL has failed stays failed, and no call is made.
pub proof fn law_failed_verification_stays_failed(store_ctx: Address, a: Answers)
    ensures
        Progress::start(0, store_ctx).step == (Step::Return { result: 0 }),
        result(completed(0, store_ctx, a)) == 0,
        completed(0, store_ctx, a).effects == Seq::<Effect>::empty(),
{
    lemma_completed(0, store_ctx, a);
}

/// The result is never better than the outcome of OpenSSL's own verification.
/// It keeps that outcome exactly where the chain was not to be looked at, or
/// was checked and may pass.
pub proof fn law_result_never_improves(preverify_ok: i32, store_ctx: Address, a: Answers)
    ensures
        result(completed(preverify_ok, store_ctx, a)) == 0 || result(
            completed(preverify_ok, store_ctx, a),
        ) == preverify_ok,
        result(completed(preverify_ok, store_ctx, a)) != 0 <==> {
            &&& preverify_ok != 0
            &&& store_ctx != NULL
            &&& a.error_depth != 0 || (chain_checked(preverify_ok, store_ctx, a)
                && a.status.allows())
        },
{
    lemma_completed(preverify_ok, store_ctx, a);
}

/// For a certificate that is not the leaf nothing is done, and the outcome is
/// kept.
pub proof fn law_only_the_leaf_matters(preverify_ok: i32, store_ctx: Address, a: Answers)
    requires
        store_ctx != NULL,
        a.error_depth != 0,
    ensures
        result(completed(preverify_ok, store_ctx, a)) == preverify_ok,
        completed(preverify_ok, store_ctx, a).effects == Seq::<Effect>::empty(),
{
    lemma_completed(preverify_ok, store_ctx, a);
}

/// The check gets the whole chain, in its order and byte by byte, and the
/// configuration chosen for it. There is one check where the chain can be
/// checked, and none elsewhere.
pub proof fn law_check_gets_the_whole_chain(preverify_ok: i32, store_ctx: Address, a: Answers)
    ensures
        ({
            let effects = completed(preverify_ok, store_ctx, a).effects;
            &&& forall|i: int|
                0 <= i < effects.len() && #[trigger] effects[i] is CheckRevocation ==> {
                    &&& chain_checked(preverify_ok, store_ctx, a)
                    &&& effects[i] == (Effect::CheckRevocation {
                        config: chosen_config(a)->0.address(),
                        certs: chain_bytes(a, a.count as int),
                    })
                }
            &&& chain_checked(preverify_ok, store_ctx, a) ==> exists|i: int|
                0 <= i < effects.len() && #[trigger] effects[i] is CheckRevocation
            &&& forall|i: int, j: int|
                0 <= i < effects.len() && 0 <= j < effects.len()
                    && #[trigger] effects[i] is CheckRevocation
                    && #[trigger] effects[j] is CheckRevocation ==> i == j
        }),
{
    lemma_completed(preverify_ok, store_ctx, a);
    let effects = completed(preverify_ok, store_ctx, a).effects;
    if chain_checked(preverify_ok, store_ctx, a) {
        let at = if context_config(a) == NULL {
            a.count + 1
        } else {
            a.count as int
        };
        assert(effects[at] is CheckRevocation);
    }
}

/// Whether there is a certificate for each one of the chain, as long as
/// `i2d_X509` said and not empty.
pub open spec fn lengths_match(certs: Seq<Seq<u8>>, a: Answers) -> bool {
    &&& certs.len() == a.count
    &&& forall|j: int|
        0 <= j < certs.len() ==> 0 < (#[trigger] certs[j]).len() && certs[j].len() == a.certs[j].len
}

/// Each certificate that is checked is as long as `i2d_X509` said, so none is
/// empty.
pub proof fn law_checked_certs_have_their_lengths(
    preverify_ok: i32,
    store_ctx: Address,
    a: Answers,
)
    requires
        forall|j: int| 0 <= j < a.count ==> (#[trigger] a.certs[j]).wf(),
    ensures
        ({
            let effects = completed(preverify_ok, store_ctx, a).effects;
            forall|i: int|
                0 <= i < effects.len() ==> (
                #[trigger] effects[i] matches Effect::CheckRevocation { certs, .. }
                    ==> lengths_match(certs, a))
        }),
{
    law_check_gets_the_whole_chain(preverify_ok, store_ctx, a);
    if chain_checked(preverify_ok, store_ctx, a) {
        let certs = chain_bytes(a, a.count as int);
        assert forall|j: int| 0 <= j < certs.len() implies 0 < (#[trigger] certs[j]).len()
            && certs[j].len() == a.certs[j].len by {
            assert(a.certs[j].wf() && readable(a.certs[j]));
        }
    }
}

/// A chain that is found to be revoked is refused with the error for that; one
/// whose status cannot be determined, with the error for that; any other chain
/// that was checked keeps the outcome, and no error is recorded.
pub proof fn law_checked_chain_is_judged(preverify_ok: i32, store_ctx: Address, a: Answers)
    requires
        chain_checked(preverify_ok, store_ctx, a),
    ensures
        ({
            let end = completed(preverify_ok, store_ctx, a);
            let revoked = Effect::SetError { store_ctx, error: VerifyError::CertRevoked };
            let undetermined = Effect::SetError {
                store_ctx,
                error: VerifyError::ApplicationVerification,
            };
            match a.status {
                RevocationStatus::Revoked => result(end) == 0 && end.effects.contains(revoked),
                RevocationStatus::Undetermined(_) => {
                    result(end) == 0 && end.effects.contains(undetermined)
                },
                _ => {
                    &&& result(end) == preverify_ok
                    &&& forall|i: int|
                        0 <= i < end.effects.len() ==> !(#[trigger] end.effects[i] is SetError)
                },
            }
        }),
{
    lemma_completed(preverify_ok, store_ctx, a);
    let effects = completed(preverify_ok, store_ctx, a).effects;
    if let Some(error) = a.status.error() {
        let at = if context_config(a) == NULL {
            a.count + 2
        } else {
            a.count + 1
        };
        assert(effects[at] == (Effect::SetError { store_ctx, error }));
    }
}

/// An error is recorded at most once, in the `X509_STORE_CTX` of the
/// verification, and only where the result is 0. It tells of a revoked
/// certificate only where the check found one.
pub proof fn law_errors_are_recorded_for_refusals(
    preverify_ok: i32,
    store_ctx: Address,
    a: Answers,
)
    ensures
        ({
            let end = completed(preverify_ok, store_ctx, a);
            &&& forall|i: int|
                0 <= i < end.effects.len() ==> (#[trigger] end.effects[i] matches Effect::SetError {
                    store_ctx: recorded_in,
                    error,
                } ==> {
                    &&& result(end) == 0
                    &&& recorded_in == store_ctx
                    &&& error is CertRevoked <==> chain_checked(preverify_ok, store_ctx, a)
                        && a.status is Revoked
                })
            &&& forall|i: int, j: int|
                0 <= i < end.effects.len() && 0 <= j < end.effects.len()
                    && #[trigger] end.effects[i] is SetError
                    && #[trigger] end.effects[j] is SetError ==> i == j
        }),
{
    lemma_completed(preverify_ok, store_ctx, a);
}

/// A chain that is not checked is refused. Where it could be copied, because
/// it is empty or no configuration can be had, an error tells that its status
/// could not be determined. Where it could not be copied, no error is recorded.
pub proof fn law_unchecked_chain_is_refused(preverify_ok: i32, store_ctx: Address, a: Answers)
    requires
        at_leaf(preverify_ok, store_ctx, a),
        !chain_checked(preverify_ok, store_ctx, a),
    ensures
        ({
            let end = completed(preverify_ok, store_ctx, a);
            &&& result(end) == 0
            &&& chain_readable(a) ==> end.effects.contains(
                Effect::SetError { store_ctx, error: VerifyError::ApplicationVerification },
            )
            &&& !chain_readable(a) ==> forall|i: int|
                0 <= i < end.effects.len() ==> !(#[trigger] end.effects[i] is SetError)
        }),
{
    lemma_completed(preverify_ok, store_ctx, a);
    let effects = completed(preverify_ok, store_ctx, a).effects;
    if chain_readable(a) {
        let refusal = Effect::SetError { store_ctx, error: VerifyError::ApplicationVerification };
        if a.count == 0 {
            assert(effects[0] == refusal);
        } else {
            assert(effects[a.count + 1] == refusal);
        }
    }
}

/// A configuration made for a verification is freed, once, as the last thing
/// that the verification does. No other configuration is freed: the one of the
/// `SSL_CTX` stays with it.
pub proof fn law_own_config_is_freed(preverify_ok: i32, store_ctx: Address, a: Answers)
    ensures
        ({
            let effects = completed(preverify_ok, store_ctx, a).effects;
            &&& forall|i: int|
                0 <= i < effects.len() ==> (
                #[trigger] effects[i] matches Effect::FreeConfig { config } ==> {
                    &&& i == effects.len() - 1
                    &&& config == a.new_config
                    &&& config != NULL
                    &&& exists|j: int| 0 <= j < i && #[trigger] effects[j] is NewConfig
                })
            &&& (exists|j: int| 0 <= j < effects.len() && #[trigger] effects[j] is NewConfig)
                && a.new_config != NULL ==> effects.last() == (Effect::FreeConfig {
                config: a.new_config,
            })
        }),
{
    lemma_completed(preverify_ok, store_ctx, a);
    let effects = completed(preverify_ok, store_ctx, a).effects;
    if chain_checked(preverify_ok, store_ctx, a) && context_config(a) == NULL {
        assert(effects[a.count as int] is NewConfig);
    }
}

/// Each buffer that OpenSSL allocated for a certificate is emptied and freed,
/// once and in the order of the chain, up to the first certificate that cannot
/// be copied.
pub proof fn law_buffers_are_freed(preverify_ok: i32, store_ctx: Address, a: Answers)
    requires
        at_leaf(preverify_ok, store_ctx, a),
        a.chain != NULL,
        a.count >= 0,
    ensures
        ({
            let effects = completed(preverify_ok, store_ctx, a).effects;
            let n = first_unreadable(a, 0);
            &&& 0 <= n <= effects.len()
            &&& effects.take(n) == taken(a, n)
            &&& forall|i: int|
                n <= i < effects.len() ==> !(#[trigger] effects[i] is TakeBuffer)
        }),
{
    lemma_completed(preverify_ok, store_ctx, a);
    let effects = completed(preverify_ok, store_ctx, a).effects;
    let n = first_unreadable(a, 0);
    assert(effects.take(n) =~= taken(a, n));
}

/// Whatever is answered, no step of a verification hands `NULL` to a call that
/// needs an object, or asks for a certificate outside of the chain.
pub proof fn law_calls_get_valid_objects(
    preverify_ok: i32,
    store_ctx: Address,
    a: Answers,
    n: nat,
)
    ensures
        Run::start(preverify_ok, store_ctx).after(a, n).at.wf(),
{
    lemma_stays_valid(Run::start(preverify_ok, store_ctx), a, n);
}

proof fn lemma_stays_valid(run: Run, a: Answers, n: nat)
    requires
        run.at.wf(),
    ensures
        run.after(a, n).at.wf(),
    decreases n,
{
    if n > 0 {
        let next = Run {
            at: advance(run.at, a),
            effects: run.effects + step_effects(run.at),
        };
        assert(next.at.wf());
        lemma_stays_valid(next, a, (n - 1) as nat);
    }
}

/// A bound on the steps that a verification can still take.
pub open spec fn steps_left(at: Progress) -> int {
    match at.step {
        Step::ErrorDepth => 3 * i32::MAX + 13,
        Step::Chain => 3 * i32::MAX + 12,
        Step::ChainLength { .. } => 3 * i32::MAX + 11,
        Step::ChainItem { cursor } => 3 * (cursor.count - cursor.index) + 9,
        Step::Encode { cursor, .. } => 3 * (cursor.count - cursor.index) + 8,
        Step::TakeBuffer { cursor, .. } => 3 * (cursor.count - cursor.index) + 7,
        Step::SslIndex => 9,
        Step::Ssl { .. } => 8,
        Step::SslCtx { .. } => 7,
        Step::ConfigIndex { .. } => 6,
        Step::StoredConfig { .. } => 5,
        Step::NewConfig => 4,
        Step::CheckRevocation { .. } => 3,
        Step::SetError { .. } => 2,
        Step::FreeConfig { .. } => 1,
        Step::Return { .. } => 0,
    }
}

/// Whatever is answered, every step brings a verification closer to its end.
pub proof fn law_every_step_counts(at: Progress, a: Answers)
    requires
        at.wf(),
        at.step !is Return,
    ensures
        0 <= steps_left(advance(at, a)) < steps_left(at),
{
}

proof fn lemma_steps_left_falls(run: Run, a: Answers, n: nat)
    requires
        run.at.wf(),
        n > 0,
    ensures
        run.at.step !is Return ==> steps_left(run.after(a, n).at) < steps_left(run.at),
        steps_left(run.after(a, n).at) <= steps_left(run.at),
    decreases n,
{
    let next = Run { at: advance(run.at, a), effects: run.effects + step_effects(run.at) };
    lemma_stays_valid(run, a, 1);
    assert(next == run.after(a, 1)) by {
        reveal_with_fuel(Run::after, 2);
    }
    if n > 1 {
        lemma_steps_left_falls(next, a, (n - 1) as nat);
    }
}

/// A verification makes no call twice: no step of it ever comes again.
pub proof fn law_no_step_is_repeated(
    preverify_ok: i32,
    store_ctx: Address,
    a: Answers,
    m: nat,
    n: nat,
)
    requires
        m < n,
    ensures
        ({
            let earlier = Run::start(preverify_ok, store_ctx).after(a, m).at.step;
            let later = Run::start(preverify_ok, store_ctx).after(a, n).at.step;
            earlier !is Return ==> earlier != later
        }),
{
    let start = Run::start(preverify_ok, store_ctx);
    law_calls_get_valid_objects(preverify_ok, store_ctx, a, m);
    lemma_after_adds(start, a, m, (n - m) as nat);
    lemma_steps_left_falls(start.after(a, m), a, (n - m) as nat);
}

/// What OpenSSL answers to a change of configuration.
pub struct UpdateAnswers {
    /// The `ex_data` index for configurations.
    pub config_index: Option<i32>,
    /// From `SSL_CTX_get_ex_data`.
    pub stored_config: Address,
}

/// What a change of configuration does.
pub enum UpdateEffect {
    /// Frees a configuration; `NULL` is none.
    FreeConfig { config: Address },
    /// Stores a configuration in an `SSL_CTX`.
    StoreConfig { ctx: Address, index: i32, config: Address },
}

/// What doing the next step of a change of configuration does.
pub open spec fn update_step_effects(at: ConfigUpdate) -> Seq<UpdateEffect> {
    match at.step {
        UpdateStep::FreeConfig { previous, .. } => {
            seq![UpdateEffect::FreeConfig { config: previous }]
        },
        UpdateStep::StoreConfig { index } => {
            seq![UpdateEffect::StoreConfig { ctx: at.ctx, index, config: at.config }]
        },
        _ => Seq::empty(),
    }
}

/// Where a change of configuration is once the next step was answered.
pub open spec fn update_advance(at: ConfigUpdate, a: UpdateAnswers) -> ConfigUpdate {
    match at.step {
        UpdateStep::ConfigIndex => at.after_config_index(a.config_index),
        UpdateStep::StoredConfig { .. } => at.after_stored_config(a.stored_config),
        UpdateStep::FreeConfig { .. } => at.after_free_config(),
        UpdateStep::StoreConfig { .. } => at.after_store_config(),
        UpdateStep::Done => at,
    }
}

/// What the next `n` steps of a change of configuration do.
pub open spec fn update_effects(at: ConfigUpdate, a: UpdateAnswers, n: nat) -> Seq<UpdateEffect>
    decreases n,
{
    if n == 0 {
        Seq::empty()
    } else {
        update_step_effects(at) + update_effects(update_advance(at, a), a, (n - 1) as nat)
    }
}

/// Where a change of configuration is after `n` more steps.
pub open spec fn update_after(at: ConfigUpdate, a: UpdateAnswers, n: nat) -> ConfigUpdate
    decreases n,
{
    if n == 0 {
        at
    } else {
        update_after(update_advance(at, a), a, (n - 1) as nat)
    }
}

/// All that setting the configuration of `ctx` does.
pub open spec fn set_config_effects(ctx: Address, config: Address, a: UpdateAnswers) -> Seq<
    UpdateEffect,
> {
    update_effects(ConfigUpdate::start(ctx, config), a, 4)
}

/// Setting a configuration takes at most four steps. It frees the previous
/// configuration and then stores the new one; without an `SSL_CTX`, or without
/// an index to store it at, it does nothing.
pub proof fn law_set_config_replaces(ctx: Address, config: Address, a: UpdateAnswers)
    ensures
        ctx == NULL ==> ConfigUpdate::start(ctx, config).step is Done,
        update_after(ConfigUpdate::start(ctx, config), a, 4).step is Done,
        set_config_effects(ctx, config, a) == (match a.config_index {
            Some(index) if ctx != NULL => seq![
                UpdateEffect::FreeConfig { config: a.stored_config },
                UpdateEffect::StoreConfig { ctx, index, config },
            ],
            _ => Seq::empty(),
        }),
{
    reveal_with_fuel(update_after, 5);
    reveal_with_fuel(update_effects, 5);
    let expected = match a.config_index {
        Some(index) if ctx != NULL => seq![
            UpdateEffect::FreeConfig { config: a.stored_config },
            UpdateEffect::StoreConfig { ctx, index, config },
        ],
        _ => Seq::empty(),
    };
    assert(set_config_effects(ctx, config, a) =~= expected);
}

/// The place for a configuration in an `SSL_CTX`, and all the configurations
/// that were freed on its behalf.
pub struct Slot {
    pub stored: Address,
    pub freed: Seq<Address>,
}

impl Slot {
    /// Of a new `SSL_CTX`.
    pub open spec fn new() -> Slot {
        Slot { stored: NULL, freed: Seq::empty() }
    }

    /// After effects on this very place, all of which succeed.
    pub open spec fn apply(self, effects: Seq<UpdateEffect>) -> Slot
        decreases effects.len(),
    {
        if effects.len() == 0 {
            self
        } else {
            let before = self.apply(effects.drop_last());
            match effects.last() {
                UpdateEffect::FreeConfig { config } => {
                    Slot { freed: before.freed.push(config), ..before }
                },
                UpdateEffect::StoreConfig { config, .. } => Slot { stored: config, ..before },
            }
        }
    }

    /// After configurations were set one after the other, where a lookup gives
    /// what was stored last.
    pub open spec fn set_all(self, ctx: Address, index: i32, configs: Seq<Address>) -> Slot
        decreases configs.len(),
    {
        if configs.len() == 0 {
            self
        } else {
            let before = self.set_all(ctx, index, configs.drop_last());
            let answers = UpdateAnswers {
                config_index: Some(index),
                stored_config: before.stored,
            };
            before.apply(set_config_effects(ctx, configs.last(), answers))
        }
    }

    /// After the `SSL_CTX` was freed, with what is stored in it.
    pub open spec fn destroyed(self) -> Seq<Address> {
        self.freed.push(self.stored)
    }
}

proof fn lemma_set_one(slot: Slot, ctx: Address, index: i32, config: Address)
    requires
        ctx != NULL,
    ensures
        slot.apply(
            set_config_effects(
                ctx,
                config,
                UpdateAnswers { config_index: Some(index), stored_config: slot.stored },
            ),
        ) == (Slot { stored: config, freed: slot.freed.push(slot.stored) }),
{
    let answers = UpdateAnswers { config_index: Some(index), stored_config: slot.stored };
    law_set_config_replaces(ctx, config, answers);
    let effects = set_config_effects(ctx, config, answers);
    reveal_with_fuel(Slot::apply, 3);
    assert(effects.drop_last().drop_last() =~= Seq::empty());
}

/// An `SSL_CTX` owns the configurations that were set for it: each of them is
/// freed exactly once, in the order in which they were set, when it is replaced
/// or when the `SSL_CTX` is freed. (The first thing freed is `NULL`, which
/// stands for no configuration.) Meanwhile the one set last is the one stored.
pub proof fn law_context_owns_its_configs(ctx: Address, index: i32, configs: Seq<Address>)
    requires
        ctx != NULL,
    ensures
        Slot::new().set_all(ctx, index, configs).destroyed() == seq![NULL] + configs,
        configs.len() > 0 ==> Slot::new().set_all(ctx, index, configs).stored == configs.last(),
    decreases configs.len(),
{
    let slot = Slot::new().set_all(ctx, index, configs);
    if configs.len() > 0 {
        let before = Slot::new().set_all(ctx, index, configs.drop_last());
        law_context_owns_its_configs(ctx, index, configs.drop_last());
        lemma_set_one(before, ctx, index, configs.last());
        assert(slot.destroyed() =~= before.destroyed().push(configs.last()));
        assert(configs =~= configs.drop_last().push(configs.last()));
    }
    assert(slot.destroyed() =~= seq![NULL] + configs);
}

/// The stored configuration is not one that was freed, unless the same one had
/// been set for the `SSL_CTX` before.
pub proof fn law_stored_config_is_alive(ctx: Address, index: i32, configs: Seq<Address>)
    requires
        ctx != NULL,
        configs.len() > 0,
        configs.last() != NULL,
        !configs.drop_last().contains(configs.last()),
    ensures
        ({
            let slot = Slot::new().set_all(ctx, index, configs);
            !slot.freed.contains(slot.stored)
        }),
{
    law_context_owns_its_configs(ctx, index, configs);
    let slot = Slot::new().set_all(ctx, index, configs);
    let all = slot.destroyed();
    assert(all.len() == configs.len() + 1);
    assert forall|i: int| 0 <= i < slot.freed.len() implies slot.freed[i] != slot.stored by {
        assert(all[i] == slot.freed[i]);
        assert(all[i] == (seq![NULL] + configs)[i]);
        if i > 0 {
            assert(configs.drop_last()[i - 1] == all[i]);
        }
    }
}

/// A verification for an `SSL_CTX` checks against the configuration that was
/// set for it last, and leaves that one alone.
pub proof fn law_set_config_is_used(
    preverify_ok: i32,
    store_ctx: Address,
    a: Answers,
    ctx: Address,
    index: i32,
    configs: Seq<Address>,
)
    requires
        ctx != NULL,
        configs.len() > 0,
        configs.last() != NULL,
        a.ssl != NULL,
        a.ssl_ctx == ctx,
        a.config_index == Some(index),
        a.stored_config == Slot::new().set_all(ctx, index, configs).stored,
    ensures
        chosen_config(a) == Some(UpkiConfig::FromContext(configs.last())),
        ({
            let effects = completed(preverify_ok, store_ctx, a).effects;
            forall|i: int|
                0 <= i < effects.len() ==> {
                    &&& !(#[trigger] effects[i] is NewConfig)
                    &&& !(effects[i] is FreeConfig)
                    &&& effects[i] matches Effect::CheckRevocation { config, .. } ==> config
                        == configs.last()
                }
        }),
{
    law_context_owns_its_configs(ctx, index, configs);
    lemma_completed(preverify_ok, store_ctx, a);
}

/// Where no configuration was set, or no `SSL_CTX` can be had, a verification
/// checks against a configuration made from the defaults.
pub proof fn law_defaults_are_used_otherwise(preverify_ok: i32, store_ctx: Address, a: Answers)
    requires
        a.ssl == NULL || a.ssl_ctx == NULL || a.config_index is None || a.stored_config == NULL,
    ensures
        ({
            let effects = completed(preverify_ok, store_ctx, a).effects;
            forall|i: int|
                0 <= i < effects.len() ==> (
                #[trigger] effects[i] matches Effect::CheckRevocation { config, .. } ==> {
                    &&& config == a.new_config
                    &&& i > 0 && effects[i - 1] is NewConfig
                })
        }),
{
    lemma_completed(preverify_ok, store_ctx, a);
}

} // verus!
