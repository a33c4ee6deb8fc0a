use moxidle::config::{ListenerConfig, MoxidleConfig};
use moxidle::event::{Action, Event, Slot};
use moxidle::reactor::Moxidle;
use moxidle::screensaver::ScreenSaver;

fn inhibit(registry: &mut ScreenSaver, owner: &str) -> (u32, Option<Event>) {
    registry.inhibit("player".to_string(), "playing".to_string(), Some(owner.to_string()))
}

fn cookies(registry: &ScreenSaver) -> Vec<u32> {
    registry.inhibitors().iter().map(|i| i.cookie).collect()
}

#[test]
fn new_registry_is_empty() {
    let registry = ScreenSaver::new();
    assert!(!registry.is_inhibited());
    assert_eq!(registry.last_cookie(), 0);
    assert!(registry.can_inhibit());
    assert!(registry.inhibitors().is_empty());
}

#[test]
fn two_owners_hold_and_release() {
    let mut engine = Moxidle::new(
        MoxidleConfig::default(),
        vec![ListenerConfig { conditions: vec![], timeout: 60, on_timeout: None, on_resume: None }],
        None,
    );
    let arm = Action::CreateNotification { slot: Slot::Listener(0), timeout_millis: 60_000 };
    let disarm = Action::DestroyNotification { slot: Slot::Listener(0) };
    assert_eq!(engine.handle_app_event(Event::SimulateUserActivity, 0), vec![arm.clone()]);

    let mut registry = ScreenSaver::new();
    let (first, event) = inhibit(&mut registry, ":1.10");
    assert_eq!(first, 1);
    assert_eq!(event, Some(Event::ScreenSaverInhibit(true)));
    assert_eq!(engine.handle_app_event(event.unwrap(), 0), vec![disarm]);
    let (second, event) = inhibit(&mut registry, ":1.11");
    assert_eq!(second, 2);
    assert_eq!(event, None);

    assert_eq!(registry.un_inhibit(1), None);
    assert!(registry.is_inhibited());
    assert!(engine.inhibitors().active());
    assert_eq!(cookies(&registry), vec![2]);

    let event = registry.un_inhibit(2);
    assert_eq!(event, Some(Event::ScreenSaverInhibit(false)));
    assert!(!registry.is_inhibited());
    assert_eq!(engine.handle_app_event(event.unwrap(), 0), vec![arm]);
    assert!(!engine.inhibitors().active());
}

#[test]
fn owner_disconnects_with_the_only_inhibition() {
    let mut registry = ScreenSaver::new();
    for expected in 1..=6 {
        let (cookie, _) = inhibit(&mut registry, ":1.5");
        assert_eq!(cookie, expected);
        registry.un_inhibit(cookie);
    }
    let (cookie, event) = inhibit(&mut registry, ":1.77");
    assert_eq!(cookie, 7);
    assert_eq!(event, Some(Event::ScreenSaverInhibit(true)));
    assert_eq!(cookies(&registry), vec![7]);
    assert_eq!(registry.owner_disconnected(":1.5"), None);
    assert_eq!(cookies(&registry), vec![7]);
    assert_eq!(registry.owner_disconnected(":1.77"), Some(Event::ScreenSaverInhibit(false)));
    assert!(!registry.is_inhibited());

    let mut engine = Moxidle::new(
        MoxidleConfig::default(),
        vec![ListenerConfig { conditions: vec![], timeout: 1, on_timeout: None, on_resume: None }],
        None,
    );
    engine.handle_app_event(Event::ScreenSaverInhibit(true), 0);
    assert_eq!(
        engine.handle_app_event(Event::ScreenSaverInhibit(false), 0),
        vec![Action::CreateNotification { slot: Slot::Listener(0), timeout_millis: 1000 }]
    );
}

#[test]
fn cookies_grow_and_are_never_reused() {
    let mut registry = ScreenSaver::new();
    let mut last = 0;
    for round in 0..50u32 {
        let (cookie, _) = inhibit(&mut registry, if round % 2 == 0 { ":1.1" } else { ":1.2" });
        assert_eq!(cookie, last + 1);
        last = cookie;
        if round % 3 == 0 {
            registry.un_inhibit(cookie);
        }
        if round % 7 == 0 {
            registry.owner_disconnected(":1.2");
        }
        assert_eq!(registry.last_cookie(), last);
    }
}

#[test]
fn un_inhibit_of_an_unknown_cookie_is_no_error() {
    let mut registry = ScreenSaver::new();
    assert_eq!(registry.un_inhibit(1), None);
    inhibit(&mut registry, ":1.1");
    inhibit(&mut registry, ":1.1");
    assert_eq!(registry.un_inhibit(0), None);
    assert_eq!(registry.un_inhibit(3), None);
    assert_eq!(cookies(&registry), vec![1, 2]);
    assert_eq!(registry.un_inhibit(1), None);
    assert_eq!(registry.un_inhibit(1), None);
    assert_eq!(cookies(&registry), vec![2]);
}

#[test]
fn owner_disconnect_removes_all_of_the_owner() {
    let mut registry = ScreenSaver::new();
    inhibit(&mut registry, ":1.1");
    inhibit(&mut registry, ":1.2");
    inhibit(&mut registry, ":1.1");
    inhibit(&mut registry, ":1.3");
    inhibit(&mut registry, ":1.1");
    assert_eq!(registry.owner_disconnected(":1.1"), None);
    assert_eq!(cookies(&registry), vec![2, 4]);
    assert_eq!(registry.inhibitors()[0].client, ":1.2");
    assert_eq!(registry.inhibitors()[1].client, ":1.3");
    assert_eq!(registry.owner_disconnected(":1.9"), None);
    assert_eq!(registry.owner_disconnected(":1.3"), None);
    assert_eq!(registry.owner_disconnected(":1.2"), Some(Event::ScreenSaverInhibit(false)));
    assert_eq!(registry.owner_disconnected(":1.2"), None);
    assert_eq!(registry.last_cookie(), 5);
}

#[test]
fn inhibit_without_sender_uses_up_a_cookie() {
    let mut registry = ScreenSaver::new();
    let issued = registry.inhibit("app".to_string(), "why".to_string(), None);
    assert_eq!(issued, (1, None));
    assert!(!registry.is_inhibited());
    let (cookie, event) = inhibit(&mut registry, ":1.1");
    assert_eq!(cookie, 2);
    assert_eq!(event, Some(Event::ScreenSaverInhibit(true)));
    let entry = &registry.inhibitors()[0];
    assert_eq!(entry.cookie, 2);
    assert_eq!(entry.application_name, "player");
    assert_eq!(entry.reason_for_inhibit, "playing");
    assert_eq!(entry.client, ":1.1");
}
