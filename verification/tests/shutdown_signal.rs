use std::fmt;
use std::time::Duration;

use axum_convenience::{ShutdownSignal, ShutdownSignalKind};

#[test]
fn os_signal_has_no_grace_period() {
    let s: ShutdownSignal<()> = ShutdownSignal::os_signal();
    assert!(matches!(s.kind(), ShutdownSignalKind::OsSignal));
    assert_eq!(s.grace(), None);
}

#[test]
fn custom_signal_keeps_its_payload() {
    let s = ShutdownSignal::custom(42u8);
    assert!(matches!(s.kind(), ShutdownSignalKind::Custom(42)));
    assert_eq!(s.grace(), None);
}

#[test]
fn grace_period_is_set_and_keeps_kind() {
    let s = ShutdownSignal::custom(7u8).grace_period(Duration::from_millis(100));
    assert!(matches!(s.kind(), ShutdownSignalKind::Custom(7)));
    assert_eq!(s.grace(), Some(Duration::from_millis(100)));
}

#[test]
fn grace_period_last_wins() {
    let s: ShutdownSignal<()> = ShutdownSignal::os_signal()
        .grace_period(Duration::from_millis(100))
        .grace_period(Duration::from_secs(3));
    assert!(matches!(s.kind(), ShutdownSignalKind::OsSignal));
    assert_eq!(s.grace(), Some(Duration::from_secs(3)));
}

#[test]
fn into_wait_yields_kind_and_grace_period() {
    let (kind, grace) = ShutdownSignal::custom("done").grace_period(Duration::from_millis(1000)).into_wait();
    assert!(matches!(kind, ShutdownSignalKind::Custom("done")));
    assert_eq!(grace, Some(Duration::from_millis(1000)));
    let (kind, grace) = ShutdownSignal::<()>::os_signal().into_wait();
    assert!(matches!(kind, ShutdownSignalKind::OsSignal));
    assert_eq!(grace, None);
}

#[test]
fn kind_debug_strings() {
    let os: ShutdownSignalKind<()> = ShutdownSignalKind::OsSignal;
    assert_eq!(os.debug_string(), "OsSignal");
    let custom = ShutdownSignalKind::Custom(5u32);
    assert_eq!(custom.debug_string(), "Custom(\"Future\")");
}

/// Renders a kind the way its debug text is meant to look.
struct KindLike(bool);

impl fmt::Debug for KindLike {
    fn fmt(&self, f: &mut fmt::Formatter<'_>) -> fmt::Result {
        if self.0 {
            f.write_str("OsSignal")
        } else {
            f.debug_tuple("Custom").field(&"Future").finish()
        }
    }
}

#[test]
fn kind_pretty_debug_strings() {
    let os: ShutdownSignalKind<()> = ShutdownSignalKind::OsSignal;
    assert_eq!(os.pretty_debug_string(), "OsSignal");
    assert_eq!(os.pretty_debug_string(), format!("{:#?}", KindLike(true)));
    let custom = ShutdownSignalKind::Custom(5u32);
    assert_eq!(custom.pretty_debug_string(), "Custom(\n    \"Future\",\n)");
    assert_eq!(custom.pretty_debug_string(), format!("{:#?}", KindLike(false)));
    assert_eq!(custom.debug_string(), format!("{:?}", KindLike(false)));
}

#[test]
fn signal_debug_strings() {
    let os: ShutdownSignal<()> = ShutdownSignal::os_signal();
    assert_eq!(os.debug_string(), "ShutdownSignal { kind: OsSignal, grace_period: None }");
    let custom = ShutdownSignal::custom(1u8).grace_period(Duration::from_millis(100));
    assert_eq!(custom.debug_string(), "ShutdownSignal { kind: Custom(\"Future\"), grace_period: Some(100ms) }");
    assert_eq!(
        custom.debug_string(),
        format!("ShutdownSignal {{ kind: {:?}, grace_period: {:?} }}", KindLike(false), Some(Duration::from_millis(100)))
    );
}

#[test]
fn signal_debug_string_with_given_duration_text() {
    let s = ShutdownSignal::custom(1u8).grace_period(Duration::from_secs(2));
    assert_eq!(s.debug_string_with("2s"), "ShutdownSignal { kind: Custom(\"Future\"), grace_period: Some(2s) }");
    let os: ShutdownSignal<()> = ShutdownSignal::os_signal();
    assert_eq!(os.debug_string_with("ignored"), "ShutdownSignal { kind: OsSignal, grace_period: None }");
}
