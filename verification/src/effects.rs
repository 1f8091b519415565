//! What a transition asks its caller to do.
//!
//! The controller never touches storage, the network or a clock. Each of its
//! transitions returns an [`Effects`] value; the caller performs what it lists
//! and reports the outcome of a renewal call or of a timer back as an event.

use crate::store::{StoreAction, StoreModel};
use vstd::prelude::*;

verus! {

/// A renewal call to issue against the authorization server.
#[derive(Debug)]
pub struct RefreshRequest {
    pub base_url: String,
    pub refresh_token: String,
}

/// Mathematical content of a renewal call.
pub struct RefreshModel {
    pub base_url: Seq<char>,
    pub refresh_token: Seq<char>,
}

impl View for RefreshRequest {
    type V = RefreshModel;

    open spec fn view(&self) -> RefreshModel {
        RefreshModel { base_url: self.base_url@, refresh_token: self.refresh_token@ }
    }
}

/// A one-shot timer to arm. When it elapses the caller reports `generation`
/// back, which tells the controller whether the timer still counts.
#[derive(Clone, Copy, Debug, PartialEq, Eq, Structural)]
pub struct TimerRequest {
    pub seconds: u64,
    pub generation: u64,
}

/// Everything one transition asks of the caller.
#[derive(Debug)]
pub struct Effects {
    pub store: StoreAction,
    pub refresh: Option<RefreshRequest>,
    pub timer: Option<TimerRequest>,
    /// The memoized `is_logged_in` view took a new value.
    pub logged_in_changed: bool,
    /// The memoized `is_admin` view took a new value.
    pub admin_changed: bool,
}

/// Mathematical content of an [`Effects`] value.
pub struct EffectsModel {
    pub store: StoreModel,
    pub refresh: Option<RefreshModel>,
    pub timer: Option<TimerRequest>,
    pub logged_in_changed: bool,
    pub admin_changed: bool,
}

impl View for Effects {
    type V = EffectsModel;

    open spec fn view(&self) -> EffectsModel {
        EffectsModel {
            store: self.store@,
            refresh: match self.refresh {
                Some(request) => Some(request@),
                None => None,
            },
            timer: self.timer,
            logged_in_changed: self.logged_in_changed,
            admin_changed: self.admin_changed,
        }
    }
}

impl EffectsModel {
    /// Nothing to do.
    pub open spec fn nothing() -> EffectsModel {
        EffectsModel {
            store: StoreModel::Keep,
            refresh: None,
            timer: None,
            logged_in_changed: false,
            admin_changed: false,
        }
    }
}

impl Effects {
    /// Nothing to do.
    pub fn nothing() -> (effects: Effects)
        ensures
            effects@ == EffectsModel::nothing(),
    {
        Effects {
            store: StoreAction::Keep,
            refresh: None,
            timer: None,
            logged_in_changed: false,
            admin_changed: false,
        }
    }

    /// Whether the transition asks for nothing at all.
    pub fn is_nothing(&self) -> (yes: bool)
        ensures
            yes == (self@ == EffectsModel::nothing()),
    {
        let store_kept = match &self.store {
            StoreAction::Keep => true,
            _ => false,
        };
        store_kept && self.refresh.is_none() && self.timer.is_none() && !self.logged_in_changed
            && !self.admin_changed
    }
}

} // verus!
