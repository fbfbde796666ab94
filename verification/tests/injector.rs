use input_bridge::injector::{
    inject, plan_events, simulate_keyboard_type, FocusTarget, InjectionError, InputEvent,
    OsInputResponse,
};

#[test]
fn accepted_injection_delivers_text_in_order() {
    let mut target = FocusTarget::new();
    assert!(inject(&mut target, OsInputResponse::Accepted, "hello").is_ok());
    let received: String = target.received().iter().collect();
    assert_eq!(received, "hello");
}

#[test]
fn denied_injection_delivers_nothing() {
    let mut target = FocusTarget::new();
    assert_eq!(
        inject(&mut target, OsInputResponse::PermissionDenied, "hello"),
        Err(InjectionError::PermissionDenied)
    );
    assert!(target.received().is_empty());
}

#[test]
fn empty_text_succeeds_without_events() {
    let mut target = FocusTarget::new();
    assert!(inject(&mut target, OsInputResponse::PermissionDenied, "").is_ok());
    assert!(target.received().is_empty());
    assert!(plan_events("").is_empty());
}

#[test]
fn injection_appends_to_what_the_target_had() {
    let mut target = FocusTarget::new();
    assert!(inject(&mut target, OsInputResponse::Accepted, "ab").is_ok());
    assert!(inject(&mut target, OsInputResponse::Accepted, "cd").is_ok());
    let received: String = target.received().iter().collect();
    assert_eq!(received, "abcd");
}

#[test]
fn failed_injection_leaves_the_target_unchanged() {
    let mut target = FocusTarget::new();
    assert!(inject(&mut target, OsInputResponse::Accepted, "ab").is_ok());
    assert!(inject(&mut target, OsInputResponse::NoFocusedTarget, "cd").is_err());
    let received: String = target.received().iter().collect();
    assert_eq!(received, "ab");
}

#[test]
fn each_failing_verdict_maps_to_its_error() {
    let mut target = FocusTarget::new();
    assert_eq!(
        inject(&mut target, OsInputResponse::PermissionDenied, "x"),
        Err(InjectionError::PermissionDenied)
    );
    assert_eq!(
        inject(&mut target, OsInputResponse::NoFocusedTarget, "x"),
        Err(InjectionError::NoFocusedTarget)
    );
    assert_eq!(
        inject(&mut target, OsInputResponse::SubsystemUnavailable, "x"),
        Err(InjectionError::SubsystemUnavailable)
    );
    assert!(target.received().is_empty());
}

#[test]
fn plan_is_a_down_up_pair_per_character() {
    let plan = plan_events("ab");
    assert_eq!(
        plan,
        vec![
            InputEvent::KeyDown('a'),
            InputEvent::KeyUp('a'),
            InputEvent::KeyDown('b'),
            InputEvent::KeyUp('b'),
        ]
    );
}

#[test]
fn plan_keeps_unicode_text_in_order() {
    let mut target = FocusTarget::new();
    assert!(inject(&mut target, OsInputResponse::Accepted, "héllo ✓").is_ok());
    let received: String = target.received().iter().collect();
    assert_eq!(received, "héllo ✓");
}

#[test]
fn command_surface_stringifies_the_failure() {
    let mut target = FocusTarget::new();
    assert_eq!(
        simulate_keyboard_type(&mut target, OsInputResponse::PermissionDenied, "hello"),
        Err(String::from("the operating system denied synthetic input"))
    );
    assert!(target.received().is_empty());
    assert!(simulate_keyboard_type(&mut target, OsInputResponse::Accepted, "ok").is_ok());
    let received: String = target.received().iter().collect();
    assert_eq!(received, "ok");
}

#[test]
fn error_messages_name_the_cause() {
    assert_eq!(
        InjectionError::NoFocusedTarget.message(),
        "nothing holds keyboard focus"
    );
    assert_eq!(
        InjectionError::SubsystemUnavailable.message(),
        "the input subsystem is unavailable"
    );
}
