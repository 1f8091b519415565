//! The authentication state controller and its renewal scheduler.
//!
//! One [`AuthController`] owns the session record of a running application.
//! It is a state machine: every operation that can change the record is a
//! transition that returns the [`Effects`] its caller must perform. The
//! functions of [`ControllerModel`] say what each transition does, and the
//! laws at the end of this file are proved about that model.

use crate::effects::{Effects, EffectsModel, RefreshModel, RefreshRequest, TimerRequest};
use crate::guard::{decision_model, Access, Decision, GuardNode};
use crate::store::{StoreAction, StoreModel};
use crate::token::{AuthToken, Grant, GrantModel, TokenModel};
use vstd::prelude::*;

verus! {

/// Mathematical state of the controller.
pub struct ControllerModel {
    /// The session record.
    pub record: TokenModel,
    /// Whether an expiry timer is pending.
    pub armed: bool,
    /// Generation of the timer armed last. Only a timer of this generation
    /// counts, and only while `armed` holds.
    pub generation: u64,
}

/// A transition of the model: the state it leads to and what it asks for.
pub struct Step {
    pub next: ControllerModel,
    pub effects: EffectsModel,
}

/// The renewal call for a record.
pub open spec fn request_for(record: TokenModel) -> RefreshModel {
    RefreshModel { base_url: record.base_url, refresh_token: record.refresh_token }
}

/// The scheduler's rule. It runs when the record's content changed, and then
/// asks for a renewal exactly when the new content is stale and renewable.
pub open spec fn scheduled(before: TokenModel, after: TokenModel) -> Option<RefreshModel> {
    if after != before && after.needs_refresh() {
        Some(request_for(after))
    } else {
        None
    }
}

/// The generation that follows `generation`. It always differs from it.
pub open spec fn following(generation: u64) -> u64 {
    if generation == u64::MAX {
        0
    } else {
        (generation + 1) as u64
    }
}

/// Effects of a mutation that leaves `after` in place of `before` and is
/// mirrored by `store`.
pub open spec fn mutation(
    before: TokenModel,
    after: TokenModel,
    store: StoreModel,
    timer: Option<TimerRequest>,
) -> EffectsModel {
    EffectsModel {
        store,
        refresh: scheduled(before, after),
        timer,
        logged_in_changed: before.logged_in() != after.logged_in(),
        admin_changed: before.admin() != after.admin(),
    }
}

impl ControllerModel {
    /// The timer that counts, if one is pending.
    pub open spec fn pending_timer(self) -> Option<u64> {
        if self.armed {
            Some(self.generation)
        } else {
            None
        }
    }

    /// Start-up. A stored record is installed with its staleness flag
    /// cleared, so that its freshness is checked on every start; without one
    /// the record is empty. Nothing is written back, and the scheduler runs
    /// once on the installed record.
    pub open spec fn start(stored: Option<TokenModel>) -> Step {
        let record = match stored {
            Some(found) => found.invalidated(),
            None => TokenModel::empty(),
        };
        Step {
            next: ControllerModel { record, armed: false, generation: 0 },
            effects: EffectsModel {
                refresh: if record.needs_refresh() {
                    Some(request_for(record))
                } else {
                    None
                },
                ..EffectsModel::nothing()
            },
        }
    }

    /// An update that leaves `record` in place. It is always mirrored to the
    /// store; timers are not touched.
    pub open spec fn replace(self, record: TokenModel) -> Step {
        Step {
            next: ControllerModel { record, ..self },
            effects: mutation(self.record, record, StoreModel::Save(record), None),
        }
    }

    /// Logout. The record becomes empty, the persisted entry is removed and
    /// a pending timer no longer counts.
    pub open spec fn logout(self) -> Step {
        Step {
            next: ControllerModel { record: TokenModel::empty(), armed: false, ..self },
            effects: mutation(self.record, TokenModel::empty(), StoreModel::Clear, None),
        }
    }

    /// Whether a renewal with this grant arms an expiry timer: the grant
    /// announces a positive lifetime and the renewed record holds a refresh
    /// token, rotated or not, to renew with when that lifetime is over.
    pub open spec fn arms(self, grant: GrantModel) -> bool {
        grant.expires_in > 0 && self.record.renewed(grant).refresh_token.len() > 0
    }

    /// The outcome of a renewal call. A failure changes nothing and asks for
    /// nothing. A grant is folded into the record held now, the result is
    /// persisted, and the timer of this renewal replaces whatever timer was
    /// pending before.
    pub open spec fn refresh_completed(self, outcome: Option<GrantModel>) -> Step {
        match outcome {
            None => Step { next: self, effects: EffectsModel::nothing() },
            Some(grant) => {
                let record = self.record.renewed(grant);
                let armed = self.arms(grant);
                let generation = if armed {
                    following(self.generation)
                } else {
                    self.generation
                };
                Step {
                    next: ControllerModel { record, armed, generation },
                    effects: mutation(
                        self.record,
                        record,
                        StoreModel::Save(record),
                        if armed {
                            Some(TimerRequest { seconds: grant.expires_in, generation })
                        } else {
                            None
                        },
                    ),
                }
            },
        }
    }

    /// An expiry timer elapsed. The pending timer of the current generation
    /// marks the record stale and does nothing else to it; any other timer
    /// is ignored.
    pub open spec fn timer_fired(self, generation: u64) -> Step {
        if self.pending_timer() == Some(generation) {
            let record = self.record.invalidated();
            Step {
                next: ControllerModel { record, armed: false, ..self },
                effects: mutation(self.record, record, StoreModel::Save(record), None),
            }
        } else {
            Step { next: self, effects: EffectsModel::nothing() }
        }
    }
}

/// Mathematical content of what was read from the store.
pub open spec fn stored_model(stored: Option<AuthToken>) -> Option<TokenModel> {
    match stored {
        Some(found) => Some(found@),
        None => None,
    }
}

/// Mathematical content of the outcome of a renewal call.
pub open spec fn outcome_model(outcome: Option<Grant>) -> Option<GrantModel> {
    match outcome {
        Some(grant) => Some(grant@),
        None => None,
    }
}

/// Owner of the session record.
///
/// The two derived views are memoized: they are recomputed when a transition
/// installs a record whose tokens or role may differ, and are otherwise
/// answered from the stored values.
pub struct AuthController {
    record: AuthToken,
    logged_in: bool,
    admin: bool,
    armed: bool,
    generation: u64,
}

impl View for AuthController {
    type V = ControllerModel;

    closed spec fn view(&self) -> ControllerModel {
        ControllerModel {
            record: self.record@,
            armed: self.armed,
            generation: self.generation,
        }
    }
}

impl AuthController {
    /// The memoized views always agree with the record.
    #[verifier::type_invariant]
    spec fn memo_agrees(self) -> bool {
        &&& self.logged_in == self.record@.logged_in()
        &&& self.admin == self.record@.admin()
    }

    /// The record held.
    pub closed spec fn record(&self) -> AuthToken {
        self.record
    }

    /// The model's record is the content of the record held.
    pub proof fn record_is_modelled(&self)
        ensures
            self@.record == self.record()@,
    {
    }

    fn install(record: AuthToken, armed: bool, generation: u64) -> (made: AuthController)
        ensures
            made@ == (ControllerModel { record: record@, armed, generation }),
            made.record() == record,
    {
        let logged_in = record.is_logged_in();
        let admin = record.is_admin();
        AuthController { record, logged_in, admin, armed, generation }
    }

    fn effects_of(
        before: &AuthToken,
        after: &AuthToken,
        store: StoreAction,
        timer: Option<TimerRequest>,
    ) -> (effects: Effects)
        ensures
            effects@ == mutation(before@, after@, store@, timer),
    {
        let refresh = if !(after == before) && after.needs_refresh() {
            Some(request_of(after))
        } else {
            None
        };
        Effects {
            store,
            refresh,
            timer,
            logged_in_changed: before.is_logged_in() != after.is_logged_in(),
            admin_changed: before.is_admin() != after.is_admin(),
        }
    }

    /// Builds the controller from what the store held at start-up.
    pub fn start(stored: Option<AuthToken>) -> (begun: (AuthController, Effects))
        ensures
            ControllerModel::start(stored_model(stored)) == (Step {
                next: begun.0@,
                effects: begun.1@,
            }),
    {
        let record = match stored {
            Some(found) => {
                let mut found = found;
                found.invalidate();
                found
            },
            None => AuthToken::default(),
        };
        let refresh = if record.needs_refresh() {
            Some(request_of(&record))
        } else {
            None
        };
        let effects = Effects {
            store: StoreAction::Keep,
            refresh,
            timer: None,
            logged_in_changed: false,
            admin_changed: false,
        };
        (Self::install(record, false, 0), effects)
    }

    /// A copy of the record, for one-shot checks.
    pub fn current(&self) -> (record: AuthToken)
        ensures
            record == self.record(),
            record@ == self@.record,
    {
        self.record.clone()
    }

    /// Whether a session exists.
    pub fn is_logged_in(&self) -> (yes: bool)
        ensures
            yes == self@.record.logged_in(),
    {
        proof {
            use_type_invariant(self);
        }
        self.logged_in
    }

    /// Whether the session carries administrative scope.
    pub fn is_admin(&self) -> (yes: bool)
        ensures
            yes == self@.record.admin(),
    {
        proof {
            use_type_invariant(self);
        }
        self.admin
    }

    /// Both derived views at once, as guards take them.
    pub fn access(&self) -> (access: Access)
        ensures
            access == Access::of(self@.record),
    {
        proof {
            use_type_invariant(self);
        }
        Access { logged_in: self.logged_in, admin: self.admin }
    }

    /// The generation of the expiry timer that counts, if one is pending.
    pub fn pending_timer(&self) -> (pending: Option<u64>)
        ensures
            pending == self@.pending_timer(),
    {
        if self.armed {
            Some(self.generation)
        } else {
            None
        }
    }

    /// Installs `record` in place of the one held.
    pub fn set(&mut self, record: AuthToken) -> (effects: Effects)
        ensures
            old(self)@.replace(record@) == (Step { next: final(self)@, effects: effects@ }),
            final(self).record() == record,
    {
        let effects = Self::effects_of(
            &self.record,
            &record,
            StoreAction::Save(record.clone()),
            None,
        );
        *self = Self::install(record, self.armed, self.generation);
        effects
    }

    /// Read-modify-write: hands the record held to `edit` and installs what
    /// it returns.
    pub fn update<F>(&mut self, edit: F) -> (effects: Effects) where
        F: FnOnce(AuthToken) -> AuthToken,

        requires
            edit.requires((old(self).record(),)),
        ensures
            edit.ensures((old(self).record(),), final(self).record()),
            old(self)@.replace(final(self)@.record) == (Step {
                next: final(self)@,
                effects: effects@,
            }),
    {
        let edited = edit(self.record.clone());
        self.set(edited)
    }

    /// Ends the session.
    pub fn logout(&mut self) -> (effects: Effects)
        ensures
            old(self)@.logout() == (Step { next: final(self)@, effects: effects@ }),
    {
        let record = AuthToken::default();
        let effects = Self::effects_of(&self.record, &record, StoreAction::Clear, None);
        *self = Self::install(record, false, self.generation);
        effects
    }

    /// Takes the outcome of a renewal call: `None` when the call failed.
    pub fn refresh_completed(&mut self, outcome: Option<Grant>) -> (effects: Effects)
        ensures
            old(self)@.refresh_completed(outcome_model(outcome)) == (Step {
                next: final(self)@,
                effects: effects@,
            }),
    {
        match outcome {
            None => Effects::nothing(),
            Some(grant) => {
                let seconds = grant.expires_in;
                let mut record = self.record.clone();
                record.renew(grant);
                let armed = seconds > 0 && !record.refresh_token.as_str().is_empty();
                let generation = if armed {
                    next_generation(self.generation)
                } else {
                    self.generation
                };
                let timer = if armed {
                    Some(TimerRequest { seconds, generation })
                } else {
                    None
                };
                let effects = Self::effects_of(
                    &self.record,
                    &record,
                    StoreAction::Save(record.clone()),
                    timer,
                );
                *self = Self::install(record, armed, generation);
                effects
            },
        }
    }

    /// Takes the elapsing of the timer that was armed with `generation`.
    /// Staleness bears on neither derived view, so the memoized views are
    /// kept as they are.
    pub fn timer_fired(&mut self, generation: u64) -> (effects: Effects)
        ensures
            old(self)@.timer_fired(generation) == (Step { next: final(self)@, effects: effects@ }),
    {
        proof {
            use_type_invariant(&*self);
        }
        if self.armed && generation == self.generation {
            let mut record = self.record.clone();
            record.invalidate();
            let effects = Self::effects_of(
                &self.record,
                &record,
                StoreAction::Save(record.clone()),
                None,
            );
            *self = AuthController {
                record,
                logged_in: self.logged_in,
                admin: self.admin,
                armed: false,
                generation: self.generation,
            };
            effects
        } else {
            Effects::nothing()
        }
    }

    /// Decides, against the derived views as they are now, whether the
    /// route that `trail` leads to in `tree` may be entered.
    pub fn enter(&self, tree: &GuardNode, trail: &[usize]) -> (decision: Option<Decision>)
        ensures
            decision_model(decision) == tree.decide(trail@, Access::of(self@.record)),
    {
        tree.resolve(trail, self.access())
    }
}

fn request_of(record: &AuthToken) -> (request: RefreshRequest)
    ensures
        request@ == request_for(record@),
{
    RefreshRequest {
        base_url: record.base_url.clone(),
        refresh_token: record.refresh_token.clone(),
    }
}

fn next_generation(generation: u64) -> (next: u64)
    ensures
        next == following(generation),
{
    if generation == u64::MAX {
        0
    } else {
        generation + 1
    }
}

/// Whether the store effect of a step leaves the persisted entry equal to
/// the record the step leads to.
pub open spec fn mirrored(step: Step) -> bool {
    match step.effects.store {
        StoreModel::Save(saved) => saved == step.next.record,
        StoreModel::Clear => step.next.record == TokenModel::empty(),
        StoreModel::Keep => false,
    }
}

/// Every start-up installs a stale record: a stored record keeps all of its
/// content but the staleness flag, which is cleared even if it was stored
/// set.
pub proof fn law_start_forces_recheck(stored: Option<TokenModel>)
    ensures
        !ControllerModel::start(stored).next.record.is_valid,
        stored matches Some(found) ==> ControllerModel::start(stored).next.record
            == found.invalidated(),
        stored is None ==> ControllerModel::start(stored).next.record == TokenModel::empty(),
        ControllerModel::start(stored).next.pending_timer() is None,
{
}

/// One renewal per change of the record. Start-up asks for a renewal
/// exactly when the installed record is stale and renewable; after that, a
/// step that leaves the record's content as it was asks for none, be it an
/// update that changes nothing or a renewal that failed.
pub proof fn law_one_renewal_per_change(
    stored: Option<TokenModel>,
    state: ControllerModel,
    generation: u64,
)
    ensures
        ControllerModel::start(stored).effects.refresh is Some <==> ControllerModel::start(
            stored,
        ).next.record.needs_refresh(),
        ControllerModel::start(stored).effects.refresh matches Some(asked) ==> asked
            == request_for(ControllerModel::start(stored).next.record),
        state.replace(state.record).next == state,
        state.replace(state.record).effects.refresh is None,
        state.refresh_completed(None).effects.refresh is None,
        state.timer_fired(generation).next.record == state.record ==> state.timer_fired(
            generation,
        ).effects.refresh is None,
{
}

/// A renewal that announces a positive lifetime and leaves the record with a
/// refresh token arms one timer for exactly that lifetime. When that timer
/// elapses the record is marked stale and nothing else in it changes; the
/// timer is then spent.
pub proof fn law_expiry_marks_stale(state: ControllerModel, grant: GrantModel)
    requires
        state.arms(grant),
    ensures
        ({
            let renewed = state.refresh_completed(Some(grant));
            let fired = renewed.next.timer_fired(renewed.next.generation);
            &&& renewed.next.record.is_valid
            &&& renewed.effects.timer == Some(
                TimerRequest { seconds: grant.expires_in, generation: renewed.next.generation },
            )
            &&& renewed.next.pending_timer() == Some(renewed.next.generation)
            &&& fired.next.record == (TokenModel { is_valid: false, ..renewed.next.record })
            &&& fired.next.record.access_token == grant.access_token
            &&& fired.next.pending_timer() is None
            &&& !fired.effects.logged_in_changed
            &&& !fired.effects.admin_changed
        }),
{
}

/// A renewal that brings no new refresh token keeps the one held. If one is
/// held and the grant announces a positive lifetime, the record stays
/// renewable and a timer is armed for that lifetime; the renewed record is
/// written to the store and no further call is asked for.
pub proof fn law_renewal_without_rotation(state: ControllerModel, grant: GrantModel)
    requires
        grant.refresh_token is None,
    ensures
        ({
            let renewed = state.refresh_completed(Some(grant));
            &&& renewed.next.record == (TokenModel {
                access_token: grant.access_token,
                is_valid: true,
                ..state.record
            })
            &&& renewed.effects.store == StoreModel::Save(renewed.next.record)
            &&& renewed.effects.refresh is None
            &&& renewed.effects.timer is Some <==> grant.expires_in > 0
                && state.record.refresh_token.len() > 0
            &&& renewed.effects.timer matches Some(timer) ==> timer.seconds == grant.expires_in
                && renewed.next.pending_timer() == Some(timer.generation)
        }),
{
}

/// A failed renewal leaves the controller exactly as it was and asks for
/// nothing: no write, no timer, no further call.
pub proof fn law_failed_renewal_changes_nothing(state: ControllerModel)
    ensures
        state.refresh_completed(None) == (Step { next: state, effects: EffectsModel::nothing() }),
{
}

/// After logout the record is empty, the persisted entry is removed, and
/// no timer armed earlier has any effect when it elapses.
pub proof fn law_logout_silences_timers(state: ControllerModel, generation: u64)
    ensures
        state.logout().next.record == TokenModel::empty(),
        state.logout().effects.store == StoreModel::Clear,
        state.logout().effects.refresh is None,
        state.logout().next.timer_fired(generation) == (Step {
            next: state.logout().next,
            effects: EffectsModel::nothing(),
        }),
{
}

/// Timers do not stack. After a renewal only the timer it armed counts: the
/// timer that was pending before is ignored when it elapses, as is every
/// timer of another generation.
pub proof fn law_renewal_replaces_timer(
    state: ControllerModel,
    grant: GrantModel,
    generation: u64,
)
    ensures
        ({
            let renewed = state.refresh_completed(Some(grant)).next;
            let ignored = Step { next: renewed, effects: EffectsModel::nothing() };
            &&& state.pending_timer() == Some(generation) ==> renewed.timer_fired(generation)
                == ignored
            &&& renewed.pending_timer() != Some(generation) ==> renewed.timer_fired(generation)
                == ignored
        }),
{
}

/// The persisted entry follows the record: whenever a step changes the
/// record, its store effect writes the new record, or removes the entry
/// when the new record is empty.
pub proof fn law_changes_are_mirrored(
    state: ControllerModel,
    record: TokenModel,
    outcome: Option<GrantModel>,
    generation: u64,
)
    ensures
        mirrored(state.replace(record)),
        mirrored(state.logout()),
        state.refresh_completed(outcome).next.record != state.record ==> mirrored(
            state.refresh_completed(outcome),
        ),
        state.timer_fired(generation).next.record != state.record ==> mirrored(
            state.timer_fired(generation),
        ),
{
}

} // verus!
