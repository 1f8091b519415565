//! The root of the application: its session and its guarded routes.

use crate::controller::{stored_model, AuthController, ControllerModel, Step};
use crate::effects::Effects;
use crate::guard::{decision_model, Access, Decision, DecisionModel, GuardNode};
use crate::routes::{is_route_table, protected_routes};
use crate::token::AuthToken;
use vstd::prelude::*;

verus! {

/// What the application is made of once it has started.
pub struct Application {
    /// Owner of the session record.
    pub session: AuthController,
    /// The guarded sections, each with its pages.
    pub routes: Vec<GuardNode>,
}

/// The trail that leads from a section to one of its pages, or that stays
/// at the section when no page is named.
pub open spec fn trail_to(page: Option<usize>) -> Seq<usize> {
    match page {
        Some(position) => seq![position],
        None => Seq::empty(),
    }
}

impl Application {
    /// What the guards decide, against the session as it is now, for the
    /// section at position `section` or for one of its pages; `None` when
    /// there is no such section or page.
    pub open spec fn decision(&self, section: usize, page: Option<usize>) -> Option<
        DecisionModel,
    > {
        if section < self.routes@.len() {
            self.routes@[section as int].decide(trail_to(page), Access::of(self.session@.record))
        } else {
            None
        }
    }

    /// Decides whether the section at position `section`, or the page at
    /// position `page` within it, may be entered now. The guards read the
    /// session as it is at the time of the call.
    pub fn guard(&self, section: usize, page: Option<usize>) -> (decision: Option<Decision>)
        ensures
            decision_model(decision) == self.decision(section, page),
    {
        if section >= self.routes.len() {
            return None;
        }
        match page {
            Some(position) => {
                let trail: [usize; 1] = [position];
                assert(trail@ == trail_to(page));
                self.session.enter(&self.routes[section], trail.as_slice())
            },
            None => {
                let trail: [usize; 0] = [];
                assert(trail@ == trail_to(page));
                self.session.enter(&self.routes[section], trail.as_slice())
            },
        }
    }
}

/// Starts the application from what the store held: the session is restored
/// with its staleness flag cleared, or is empty when nothing was stored, and
/// the guarded routes are laid out.
#[allow(non_snake_case)]
pub fn App(stored: Option<AuthToken>) -> (begun: (Application, Effects))
    ensures
        ControllerModel::start(stored_model(stored)) == (Step {
            next: begun.0.session@,
            effects: begun.1@,
        }),
        is_route_table(begun.0.routes@),
{
    let (session, effects) = AuthController::start(stored);
    (Application { session, routes: protected_routes() }, effects)
}

} // verus!
