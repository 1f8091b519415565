use webadmin_session::controller::AuthController;
use webadmin_session::effects::{Effects, TimerRequest};
use webadmin_session::store::StoreAction;
use webadmin_session::token::{AuthToken, Grant, Role};

const BASE: &str = "https://mail.example.org";

fn record(access: &str, refresh: &str, is_valid: bool) -> AuthToken {
    AuthToken {
        base_url: BASE.to_string(),
        access_token: access.to_string(),
        refresh_token: refresh.to_string(),
        is_valid,
        role: Role::Admin,
    }
}

fn grant(access: &str, refresh: Option<&str>, expires_in: u64) -> Grant {
    Grant {
        access_token: access.to_string(),
        refresh_token: refresh.map(|token| token.to_string()),
        expires_in,
    }
}

fn saved(effects: &Effects) -> Option<&AuthToken> {
    match &effects.store {
        StoreAction::Save(record) => Some(record),
        _ => None,
    }
}

fn asked(effects: &Effects) -> Option<(String, String)> {
    effects
        .refresh
        .as_ref()
        .map(|request| (request.base_url.clone(), request.refresh_token.clone()))
}

#[test]
fn start_without_a_stored_record_is_empty_and_idle() {
    let (controller, effects) = AuthController::start(None);
    assert_eq!(controller.current(), AuthToken::default());
    assert!(!controller.is_logged_in());
    assert!(!controller.is_admin());
    assert_eq!(controller.pending_timer(), None);
    assert!(effects.is_nothing());
}

#[test]
fn start_clears_the_staleness_flag_of_a_stored_record() {
    let (controller, effects) = AuthController::start(Some(record("A", "R", true)));
    assert_eq!(controller.current(), record("A", "R", false));
    assert!(controller.is_logged_in());
    assert!(controller.is_admin());
    assert!(matches!(effects.store, StoreAction::Keep));
    assert_eq!(effects.timer, None);
    assert!(!effects.logged_in_changed);
    assert!(!effects.admin_changed);
}

#[test]
fn start_asks_for_a_renewal_of_a_renewable_record() {
    let (_, effects) = AuthController::start(Some(record("A", "R", true)));
    assert_eq!(asked(&effects), Some((BASE.to_string(), "R".to_string())));
    let (_, effects) = AuthController::start(Some(record("A", "R", false)));
    assert_eq!(asked(&effects), Some((BASE.to_string(), "R".to_string())));
}

#[test]
fn start_asks_for_nothing_when_the_record_cannot_be_renewed() {
    let (controller, effects) = AuthController::start(Some(record("A", "", true)));
    assert_eq!(controller.current(), record("A", "", false));
    assert!(controller.is_logged_in());
    assert!(effects.is_nothing());
}

#[test]
fn reading_the_record_asks_for_no_second_renewal() {
    let (mut controller, effects) = AuthController::start(Some(record("A", "R", false)));
    assert!(effects.refresh.is_some());
    for _ in 0..3 {
        assert_eq!(controller.current(), record("A", "R", false));
        assert!(controller.is_logged_in());
    }
    let again = controller.update(|held| held);
    assert_eq!(asked(&again), None);
    assert_eq!(saved(&again), Some(&record("A", "R", false)));
    let same = controller.set(record("A", "R", false));
    assert_eq!(asked(&same), None);
}

#[test]
fn a_changed_stale_record_asks_for_a_renewal() {
    let (mut controller, _) = AuthController::start(Some(record("A", "", false)));
    let effects = controller.set(record("A", "R", false));
    assert_eq!(asked(&effects), Some((BASE.to_string(), "R".to_string())));
    assert_eq!(saved(&effects), Some(&record("A", "R", false)));
    assert_eq!(effects.timer, None);
    assert!(!effects.logged_in_changed);
}

#[test]
fn a_fresh_login_is_saved_and_announced() {
    let (mut controller, _) = AuthController::start(None);
    let effects = controller.set(record("A", "R", true));
    assert_eq!(controller.current(), record("A", "R", true));
    assert_eq!(saved(&effects), Some(&record("A", "R", true)));
    assert_eq!(asked(&effects), None);
    assert!(effects.logged_in_changed);
    assert!(effects.admin_changed);
    assert!(controller.is_logged_in());
    assert!(controller.is_admin());
}

#[test]
fn update_hands_over_the_record_held() {
    let (mut controller, _) = AuthController::start(Some(record("A", "R", true)));
    controller.refresh_completed(Some(grant("A2", Some("R"), 0)));
    let effects = controller.update(|mut held| {
        assert_eq!(held.access_token, "A2");
        held.is_valid = false;
        held
    });
    assert_eq!(controller.current(), record("A2", "R", false));
    assert_eq!(saved(&effects), Some(&record("A2", "R", false)));
    assert_eq!(asked(&effects), Some((BASE.to_string(), "R".to_string())));
}

#[test]
fn a_grant_of_900_seconds_arms_a_timer_of_900_seconds() {
    let (mut controller, _) = AuthController::start(Some(record("A", "R", true)));
    let effects = controller.refresh_completed(Some(grant("A2", Some("R2"), 900)));
    assert_eq!(controller.current(), record("A2", "R2", true));
    assert_eq!(effects.timer, Some(TimerRequest { seconds: 900, generation: 1 }));
    assert_eq!(controller.pending_timer(), Some(1));
    assert_eq!(saved(&effects), Some(&record("A2", "R2", true)));
    assert_eq!(asked(&effects), None);

    let fired = controller.timer_fired(1);
    assert_eq!(controller.current(), record("A2", "R2", false));
    assert_eq!(controller.pending_timer(), None);
    assert_eq!(saved(&fired), Some(&record("A2", "R2", false)));
    assert_eq!(asked(&fired), Some((BASE.to_string(), "R2".to_string())));
    assert_eq!(fired.timer, None);
    assert!(!fired.logged_in_changed);
    assert!(!fired.admin_changed);
    assert!(controller.is_logged_in());
    assert!(controller.is_admin());
}

#[test]
fn a_failed_renewal_leaves_everything_as_it_was() {
    let (mut controller, _) = AuthController::start(Some(record("A", "R", true)));
    let effects = controller.refresh_completed(None);
    assert!(effects.is_nothing());
    assert_eq!(controller.current(), record("A", "R", false));
    assert_eq!(controller.pending_timer(), None);
    assert!(controller.is_logged_in());
    assert!(controller.is_admin());

    controller.refresh_completed(Some(grant("A2", Some("R2"), 30)));
    let effects = controller.refresh_completed(None);
    assert!(effects.is_nothing());
    assert_eq!(controller.current(), record("A2", "R2", true));
    assert_eq!(controller.pending_timer(), Some(1));
}

#[test]
fn stored_session_is_renewed_for_60_seconds() {
    let (mut controller, begun) = AuthController::start(Some(record("A", "R", true)));
    assert!(!controller.current().is_valid);
    assert_eq!(controller.current(), record("A", "R", false));
    assert_eq!(asked(&begun), Some((BASE.to_string(), "R".to_string())));

    let effects = controller.refresh_completed(Some(grant("A2", None, 60)));
    assert_eq!(controller.current(), record("A2", "R", true));
    assert_eq!(saved(&effects), Some(&record("A2", "R", true)));
    assert_eq!(effects.timer, Some(TimerRequest { seconds: 60, generation: 1 }));
    assert_eq!(asked(&effects), None);
    assert_eq!(controller.pending_timer(), Some(1));
}

#[test]
fn stored_session_is_renewed_without_a_refresh_token() {
    let (mut controller, begun) = AuthController::start(Some(record("A", "R", true)));
    assert!(!controller.current().is_valid);
    assert_eq!(asked(&begun), Some((BASE.to_string(), "R".to_string())));

    let effects = controller.refresh_completed(Some(grant("A2", None, 60)));
    assert_eq!(controller.current(), record("A2", "R", true));
    assert_eq!(saved(&effects), Some(&record("A2", "R", true)));
    assert_eq!(effects.timer, Some(TimerRequest { seconds: 60, generation: 1 }));
    assert_eq!(controller.pending_timer(), Some(1));
    assert!(controller.is_logged_in());

    let fired = controller.timer_fired(1);
    assert_eq!(controller.current(), record("A2", "R", false));
    assert_eq!(asked(&fired), Some((BASE.to_string(), "R".to_string())));

    let again = controller.refresh_completed(Some(grant("A3", None, 0)));
    assert_eq!(controller.current(), record("A3", "R", true));
    assert_eq!(again.timer, None);
    assert_eq!(controller.pending_timer(), None);
}

#[test]
fn a_session_without_refresh_token_gets_no_timer_from_a_bare_grant() {
    let (mut controller, begun) = AuthController::start(Some(record("A", "", true)));
    assert_eq!(asked(&begun), None);
    let effects = controller.refresh_completed(Some(grant("A2", None, 60)));
    assert_eq!(controller.current(), record("A2", "", true));
    assert_eq!(saved(&effects), Some(&record("A2", "", true)));
    assert_eq!(effects.timer, None);
    assert_eq!(controller.pending_timer(), None);
}

#[test]
fn logout_with_a_pending_timer_clears_everything() {
    let (mut controller, _) = AuthController::start(Some(record("A", "R", true)));
    let armed = controller.refresh_completed(Some(grant("A2", Some("R2"), 900)));
    let generation = armed.timer.unwrap().generation;

    let effects = controller.logout();
    assert!(matches!(effects.store, StoreAction::Clear));
    assert_eq!(asked(&effects), None);
    assert_eq!(effects.timer, None);
    assert!(effects.logged_in_changed);
    assert!(effects.admin_changed);
    assert_eq!(controller.current(), AuthToken::default());
    assert_eq!(controller.pending_timer(), None);

    let fired = controller.timer_fired(generation);
    assert!(fired.is_nothing());
    assert_eq!(controller.current(), AuthToken::default());
    assert!(!controller.is_logged_in());
}

#[test]
fn a_later_renewal_supersedes_the_earlier_timer() {
    let (mut controller, _) = AuthController::start(Some(record("A", "R", true)));
    let first = controller.refresh_completed(Some(grant("A2", Some("R"), 60)));
    let second = controller.refresh_completed(Some(grant("A3", Some("R"), 120)));
    assert_eq!(first.timer, Some(TimerRequest { seconds: 60, generation: 1 }));
    assert_eq!(second.timer, Some(TimerRequest { seconds: 120, generation: 2 }));
    assert_eq!(controller.pending_timer(), Some(2));

    let stale = controller.timer_fired(1);
    assert!(stale.is_nothing());
    assert_eq!(controller.current(), record("A3", "R", true));
    assert_eq!(controller.pending_timer(), Some(2));

    controller.timer_fired(2);
    assert_eq!(controller.current(), record("A3", "R", false));
    let spent = controller.timer_fired(2);
    assert!(spent.is_nothing());
}

#[test]
fn a_grant_without_lifetime_arms_no_timer() {
    let (mut controller, _) = AuthController::start(Some(record("A", "R", true)));
    let effects = controller.refresh_completed(Some(grant("A2", Some("R2"), 0)));
    assert_eq!(controller.current(), record("A2", "R2", true));
    assert_eq!(effects.timer, None);
    assert_eq!(controller.pending_timer(), None);
}

#[test]
fn a_grant_that_ends_renewability_arms_no_timer() {
    let (mut controller, _) = AuthController::start(Some(record("A", "R", true)));
    controller.refresh_completed(Some(grant("A2", Some("R"), 60)));
    let effects = controller.refresh_completed(Some(grant("A3", Some(""), 60)));
    assert_eq!(controller.current(), record("A3", "", true));
    assert_eq!(effects.timer, None);
    assert_eq!(controller.pending_timer(), None);
    assert!(controller.timer_fired(1).is_nothing());
    assert_eq!(controller.current(), record("A3", "", true));
}

#[test]
fn a_renewal_that_resolves_after_logout_is_still_applied() {
    let (mut controller, _) = AuthController::start(Some(record("A", "R", true)));
    controller.logout();
    let effects = controller.refresh_completed(Some(grant("A2", Some("R2"), 60)));
    assert_eq!(controller.current().access_token, "A2");
    assert_eq!(controller.current().refresh_token, "R2");
    assert_eq!(controller.current().base_url, "");
    assert!(controller.current().is_valid);
    assert!(effects.logged_in_changed);
    assert!(controller.is_logged_in());
    assert!(!controller.is_admin());
}

#[test]
fn an_empty_effects_value_is_nothing() {
    assert!(Effects::nothing().is_nothing());
    let (mut controller, _) = AuthController::start(None);
    assert!(!controller.logout().is_nothing());
    assert!(controller.timer_fired(0).is_nothing());
}
