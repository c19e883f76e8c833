use ashpd::background::{Activity, AppState, AutoStartFlags};
use ashpd::device::DeviceKind;
use ashpd::document::{Flags, Permission as OldPermission};
use ashpd::documents::{DocumentFlags, Permission};
use ashpd::error::AshpdError;
use ashpd::flatpak::{SandboxFlags, SpawnFlags, SupportsFlags, UpdateStatus};
use ashpd::game_mode::{register_result, RegisterStatus, Status};
use ashpd::inhibit::{InhibitFlags, SessionState};
use ashpd::input_capture::Capabilities;
use ashpd::location::Accuracy;
use ashpd::monitors::Connectivity;
use ashpd::notification::Priority;
use ashpd::print::{Orientation, Quality};
use ashpd::remote_desktop::{Axis, DeviceType, KeyState};
use ashpd::screencast::{CursorMode, PersistMode, SourceType};
use ashpd::settings::ColorScheme;
use ashpd::trash::{trash_result, TrashStatus};
use ashpd::wallpaper::SetOn;

#[test]
fn wallpaper_serialize_deserialize() {
    let set_on = SetOn::Both;
    let string = set_on.wire_name();
    assert_eq!(string, "Both");

    let decoded = SetOn::from_str(string).unwrap();
    assert_eq!(set_on, decoded);
}

#[test]
fn mod_serialize_deserialize() {
    let permission = Permission::GrantPermissions;
    let string = permission.wire_name();
    assert_eq!(string, "grant-permissions");

    let decoded = Permission::from_str(string).unwrap();
    assert_eq!(permission, decoded);
}

#[test]
fn status_serde() {
    let status = TrashStatus::Failed;
    let decoded = TrashStatus::from_code(status.code()).unwrap();
    assert_eq!(decoded, TrashStatus::Failed);
}

#[test]
fn trash_and_game_mode_outcomes() {
    assert!(trash_result(TrashStatus::Succeeded).is_ok());
    assert!(matches!(
        trash_result(TrashStatus::Failed),
        Err(AshpdError::Portal(ashpd::error::PortalError::Failed(ref m))) if m.is_empty()
    ));
    assert!(register_result(RegisterStatus::Success).is_ok());
    assert!(register_result(RegisterStatus::Rejected).is_err());
    assert_eq!(Status::from_code(-1), Some(Status::Rejected));
    assert_eq!(Status::Registered.code(), 2);
    assert_eq!(Status::from_code(3), None);
}

#[test]
fn string_enums_parse_both_spellings() {
    assert_eq!(DeviceKind::from_str("camera").unwrap(), DeviceKind::Camera);
    assert_eq!(DeviceKind::from_str("Speakers").unwrap(), DeviceKind::Speakers);
    assert_eq!(DeviceKind::Microphone.as_str(), "Microphone");
    assert_eq!(DeviceKind::Microphone.wire_name(), "microphone");
    assert!(matches!(
        DeviceKind::from_str("mouse"),
        Err(AshpdError::ParseError("Failed to parse device, invalid value"))
    ));

    assert_eq!(Orientation::from_str("reverse_landscape").unwrap(), Orientation::ReverseLandscape);
    assert_eq!(Orientation::from_str("ReversePortrait").unwrap(), Orientation::ReversePortrait);
    assert_eq!(Orientation::ReverseLandscape.as_str(), "Reverse Landscape");
    // The shown name of a reversed orientation is not one the parser takes.
    assert!(Orientation::from_str(Orientation::ReverseLandscape.as_str()).is_err());

    assert_eq!(Quality::from_str("draft").unwrap(), Quality::Draft);
    assert_eq!(Quality::High.wire_name(), "high");
    assert!(matches!(
        Quality::from_str("best"),
        Err(AshpdError::ParseError("Failed to parse quality, invalid value"))
    ));

    assert_eq!(Priority::from_str("urgent").unwrap(), Priority::Urgent);
    assert_eq!(Priority::Normal.wire_name(), "normal");
    assert!(matches!(
        Priority::from_str("whatever"),
        Err(AshpdError::ParseError("Failed to parse priority, invalid value"))
    ));

    assert!(SetOn::from_str("both").is_err());
    assert_eq!(SetOn::Lockscreen.as_str(), "Lockscreen");

    assert_eq!(Permission::from_str("Delete").unwrap(), Permission::Delete);
    assert_eq!(Permission::GrantPermissions.as_str(), "Grant Permissions");
    assert_eq!(OldPermission::from_str("delte").unwrap(), OldPermission::Delte);
    assert_eq!(OldPermission::GrantPermissions.wire_name(), "grant-permissions");
}

#[test]
fn number_enums() {
    assert_eq!(Accuracy::Exact.code(), 5);
    assert_eq!(Accuracy::from_code(0), Some(Accuracy::NoAccuracy));
    assert_eq!(Accuracy::from_code(6), None);
    assert_eq!(KeyState::Pressed.code(), 1);
    assert_eq!(KeyState::from_code(0), Some(KeyState::Released));
    assert_eq!(Axis::Horizontal.code(), 1);
    assert_eq!(PersistMode::default(), PersistMode::DoNot);
    assert_eq!(PersistMode::ExplicitlyRevoked.code(), 2);
    assert_eq!(Activity::from_code(2), Some(Activity::AllowInstance));
    assert_eq!(AppState::Active.code(), 2);
    assert_eq!(SessionState::from_code(3), Some(SessionState::Ending));
    assert_eq!(UpdateStatus::Failed.code(), 3);
    assert_eq!(Flags::ExportDirectory.code(), 8);
    assert_eq!(Connectivity::from_code(3), Some(Connectivity::CaptivePortal));
    assert_eq!(Connectivity::FullNetwork.to_string(), "full network");
    assert_eq!(ColorScheme::from_code(1), ColorScheme::PreferDark);
    assert_eq!(ColorScheme::from_code(2), ColorScheme::PreferLight);
    assert_eq!(ColorScheme::from_code(0), ColorScheme::NoPreference);
    assert_eq!(ColorScheme::from_code(7), ColorScheme::NoPreference);
}

#[test]
fn flag_bits() {
    assert_eq!(Capabilities::Touchscreen.bits(), 4);
    assert_eq!(Capabilities::from_bit(2), Some(Capabilities::Pointer));
    assert_eq!(Capabilities::from_bit(3), None);
    assert_eq!(Capabilities::all_bits(), 7);
    assert_eq!(SourceType::Virtual.bits(), 4);
    assert_eq!(CursorMode::Metadata.bits(), 4);
    assert_eq!(DeviceType::Pointer.bits(), 2);
    assert_eq!(InhibitFlags::Idle.bits(), 8);
    assert_eq!(DocumentFlags::ExportDirectory.bits(), 8);
    assert_eq!(SandboxFlags::AccessibilityBusAccess.bits(), 16);
    assert_eq!(SpawnFlags::Emit.bits(), 64);
    assert_eq!(SpawnFlags::all_bits(), 127);
    assert_eq!(SupportsFlags::ExposePids.bits(), 1);
    assert_eq!(AutoStartFlags::DBusActivation.bits(), 1);
    assert_eq!(ashpd::flags::checked_bits(5, 7), Some(5));
    assert_eq!(ashpd::flags::checked_bits(9, 7), None);
    assert_eq!(ashpd::flags::truncated_bits(9, 7), 1);
    assert!(ashpd::flags::has_flag(6, 2));
    assert!(!ashpd::flags::has_flag(6, 1));
}
