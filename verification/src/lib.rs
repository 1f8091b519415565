//! Session authentication, route authorization and navigation menus of an
//! administrative single-page application.
//!
//! The crate owns the lifecycle of one bearer-token session record: how it is
//! restored at start-up, when a background renewal is due, how a granted
//! renewal is folded back into the record, when an expiry timer must be armed,
//! and which guarded route subtrees may be entered. Everything that touches
//! the browser (storage, network, timers, rendering) is left to the caller:
//! each transition returns the effects the caller has to perform and takes
//! their outcome back as an event.
//!
//! * [`application`] holds the root that starts everything else.
//! * [`token`] holds the session record and the grant that renews it.
//! * [`controller`] holds the state machine that owns the record.
//! * [`effects`] and [`store`] hold what a transition asks of its caller.
//! * [`guard`] holds the guards on route subtrees, [`routes`] the guarded
//!   sections of the application.
//! * [`layout`] holds the menu builder, [`menus`] the menus of the
//!   application.

pub mod application;
pub mod controller;
pub mod effects;
pub mod guard;
pub mod layout;
pub mod menus;
pub mod routes;
pub mod store;
pub mod token;
