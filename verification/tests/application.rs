use webadmin_session::application::{App, Application};
use webadmin_session::effects::TimerRequest;
use webadmin_session::guard::Decision;
use webadmin_session::routes::protected_routes;
use webadmin_session::store::StoreAction;
use webadmin_session::token::{AuthToken, Grant, Role};

fn stored(role: Role) -> AuthToken {
    AuthToken {
        base_url: "https://mail.example.org".to_string(),
        access_token: "A".to_string(),
        refresh_token: "R".to_string(),
        is_valid: true,
        role,
    }
}

fn login() -> Option<Decision> {
    Some(Decision::Redirect("/login".to_string()))
}

fn sizes(application: &Application) -> Vec<usize> {
    application.routes.iter().map(|section| section.children.len()).collect()
}

#[test]
fn the_application_starts_empty_without_a_stored_session() {
    let (application, effects) = App(None);
    assert_eq!(application.session.current(), AuthToken::default());
    assert_eq!(application.routes, protected_routes());
    assert!(effects.is_nothing());
    for section in 0..3 {
        assert_eq!(application.guard(section, None), login());
        assert_eq!(application.guard(section, Some(0)), login());
    }
}

#[test]
fn the_application_restores_a_stored_session_as_stale() {
    let (application, effects) = App(Some(stored(Role::Admin)));
    let restored = application.session.current();
    assert!(!restored.is_valid);
    assert_eq!(restored.access_token, "A");
    assert_eq!(restored.refresh_token, "R");
    let asked = effects.refresh.expect("a renewal is due");
    assert_eq!(asked.base_url, "https://mail.example.org");
    assert_eq!(asked.refresh_token, "R");
    assert_eq!(sizes(&application), vec![15, 3, 5]);
}

#[test]
fn an_administrator_enters_every_route() {
    let (application, _) = App(Some(stored(Role::Admin)));
    for (section, pages) in sizes(&application).into_iter().enumerate() {
        assert_eq!(application.guard(section, None), Some(Decision::Render));
        for page in 0..pages {
            assert_eq!(application.guard(section, Some(page)), Some(Decision::Render));
        }
    }
}

#[test]
fn a_member_is_kept_out_of_the_administrative_routes() {
    let (application, _) = App(Some(stored(Role::User)));
    assert_eq!(application.guard(0, None), Some(Decision::Render));
    assert_eq!(application.guard(0, Some(0)), login());
    assert_eq!(application.guard(0, Some(14)), login());
    assert_eq!(application.guard(1, None), login());
    assert_eq!(application.guard(1, Some(2)), login());
    assert_eq!(application.guard(2, None), Some(Decision::Render));
    assert_eq!(application.guard(2, Some(4)), Some(Decision::Render));
}

#[test]
fn routes_that_do_not_exist_are_not_decided() {
    let (application, _) = App(Some(stored(Role::Admin)));
    assert_eq!(application.guard(3, None), None);
    assert_eq!(application.guard(3, Some(0)), None);
    assert_eq!(application.guard(usize::MAX, None), None);
    assert_eq!(application.guard(0, Some(15)), None);
    assert_eq!(application.guard(1, Some(3)), None);
    assert_eq!(application.guard(2, Some(5)), None);
    assert_eq!(application.guard(2, Some(usize::MAX)), None);
}

#[test]
fn guards_follow_the_session_through_its_transitions() {
    let (mut application, _) = App(Some(stored(Role::Admin)));
    assert_eq!(application.guard(1, Some(0)), Some(Decision::Render));

    application.session.refresh_completed(None);
    assert_eq!(application.guard(1, Some(0)), Some(Decision::Render));

    application.session.refresh_completed(Some(Grant {
        access_token: "A2".to_string(),
        refresh_token: Some("R2".to_string()),
        expires_in: 900,
    }));
    assert_eq!(application.guard(1, Some(0)), Some(Decision::Render));

    application.session.timer_fired(1);
    assert!(!application.session.current().is_valid);
    assert_eq!(application.guard(1, Some(0)), Some(Decision::Render));

    application.session.logout();
    assert_eq!(application.guard(1, Some(0)), login());
    assert_eq!(application.guard(2, None), login());
}

#[test]
fn a_stored_session_is_renewed_once_and_keeps_its_refresh_token() {
    let (mut application, begun) = App(Some(stored(Role::User)));
    assert!(!application.session.current().is_valid);
    assert!(matches!(begun.store, StoreAction::Keep));
    let asked = begun.refresh.expect("one renewal is asked for at start");
    assert_eq!(asked.base_url, "https://mail.example.org");
    assert_eq!(asked.refresh_token, "R");

    let effects = application.session.refresh_completed(Some(Grant {
        access_token: "A2".to_string(),
        refresh_token: None,
        expires_in: 60,
    }));
    let expected = AuthToken {
        base_url: "https://mail.example.org".to_string(),
        access_token: "A2".to_string(),
        refresh_token: "R".to_string(),
        is_valid: true,
        role: Role::User,
    };
    assert_eq!(application.session.current(), expected);
    assert!(matches!(&effects.store, StoreAction::Save(saved) if *saved == expected));
    assert_eq!(effects.timer, Some(TimerRequest { seconds: 60, generation: 1 }));
    assert!(effects.refresh.is_none());
    assert_eq!(application.session.pending_timer(), Some(1));
}
