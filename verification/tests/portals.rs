use ashpd::activation_token::{ActivationToken, DisplayBackend, Gtk3ActivationToken};
use ashpd::app_id::{AppID, DocumentID, MaybeAppID, MaybeWindowIdentifier};
use ashpd::backend::{AccessOptions, AccessResponse, RequestState};
use ashpd::background::{Background, BackgroundRequest, BackgroundResponse, Activity};
use ashpd::camera::camera_stream;
use ashpd::clipboard::SelectionOwnerChanged;
use ashpd::documents::{app_id_or_empty, lookup_result, Documents, FileTransfer};
use ashpd::error::{AshpdError, PortalError};
use ashpd::file_chooser::{nul_terminated, Choice, FileFilter, FilterType, OpenFileRequest, SaveFileRequest, SaveFilesRequest};
use ashpd::flatpak::{spawn_arguments, SpawnOptions};
use ashpd::global_shortcuts::{BindShortcuts, GlobalShortcuts, NewShortcut, Shortcut};
use ashpd::handle_token::HandleToken;
use ashpd::icon::Icon;
use ashpd::input_capture::{Barrier, Region, SetPointerBarriersResponse, Zones};
use ashpd::location::{location_description, Accuracy, CreateSessionOptions};
use ashpd::monitors::{Connectivity, NetworkMonitor, NetworkStatus};
use ashpd::proxy::{check_version, Proxy};
use ashpd::request::Response;
use ashpd::screencast::{CursorMode, PersistMode, Screencast, Stream, StreamProperties, Streams};
use ashpd::session::{Session, SessionRegistry};
use ashpd::usb::{acquire_list, acquired_result, gather_acquired, Device, UsbDevice, UsbError};

#[test]
fn activation_tokens() {
    assert!(Gtk3ActivationToken::from_window(DisplayBackend::X11).is_none());
    let token = ActivationToken::from_window(DisplayBackend::Other);
    assert!(token.is_none());
    assert!(!token.is_some());
    assert_eq!(token.as_str(), "");
    let raw = ActivationToken::Raw("abc".to_string());
    assert!(raw.is_some());
    assert_eq!(raw.as_str(), "abc");
    assert_eq!(raw.into_string(), "abc");
    assert_eq!(ActivationToken::default().into_string(), "");
}

#[test]
fn identifiers() {
    assert_eq!(AppID::from("org.example.App").as_str(), "org.example.App");
    assert_eq!(DocumentID::from_string("doc".to_string()).as_str(), "doc");
    assert!(MaybeAppID::from_wire(String::new()).inner().is_none());
    assert_eq!(
        MaybeAppID::from_wire("org.example.App".to_string()).inner(),
        Some(AppID::from("org.example.App"))
    );
    assert!(MaybeWindowIdentifier::from_wire(String::new()).inner().is_none());
    assert_eq!(
        MaybeWindowIdentifier::from_wire("x11:0x12".to_string()).inner(),
        Some("x11:0x12".to_string())
    );
}

#[test]
fn file_filters_and_choices() {
    let filter = FileFilter::new("Images").mimetype("image/png").glob("*.jpg");
    assert_eq!(filter.label(), "Images");
    assert_eq!(filter.len(), 2);
    assert_eq!(filter.entry(0), (FilterType::MimeType, "image/png"));
    assert_eq!(filter.entry(1), (FilterType::GlobPattern, "*.jpg"));
    assert_eq!(FilterType::MimeType.code(), 1);

    let choice = Choice::new("encoding", "Encoding", "utf8")
        .insert("utf8", "Unicode (UTF-8)")
        .insert("latin15", "Western");
    assert_eq!(choice.id(), "encoding");
    assert_eq!(choice.label(), "Encoding");
    assert_eq!(choice.initial_selection(), "utf8");
    assert_eq!(choice.pairs().len(), 2);
    assert_eq!(choice.pairs()[1].0, "latin15");

    assert_eq!(Choice::boolean("re", "Reencode", true).initial_selection(), "true");
    assert_eq!(Choice::boolean("re", "Reencode", false).initial_selection(), "false");
    assert_eq!(choice.copy().pairs()[0].1, "Unicode (UTF-8)");
}

#[test]
fn paths_are_nul_terminated() {
    assert_eq!(nul_terminated(b"/tmp/a"), b"/tmp/a\0".to_vec());
    assert_eq!(nul_terminated(b""), vec![0u8]);
    let (cwd, argv) = spawn_arguments(b"/", &vec![b"ls".to_vec(), b"-l".to_vec()]);
    assert_eq!(cwd, b"/\0".to_vec());
    assert_eq!(argv, vec![b"ls\0".to_vec(), b"-l\0".to_vec()]);
}

#[test]
fn file_chooser_requests() {
    let request = OpenFileRequest::default()
        .title(Some("Open"))
        .modal(Some(true))
        .multiple(Some(false))
        .filter(FileFilter::new("Text").mimetype("text/plain"))
        .choice(Choice::boolean("ro", "Read only", false))
        .identifier(None);
    assert!(request.handle_token().as_str().starts_with("ashpd_"));
    let save = SaveFileRequest::default()
        .current_name(Some("a.txt"))
        .current_folder(Some(b"/home"))
        .current_file(None);
    assert!(save.handle_token().as_str().starts_with("ashpd_"));
    let files = SaveFilesRequest::default().files(Some(vec![b"a".to_vec(), b"b".to_vec()]));
    assert!(files.handle_token().as_str().starts_with("ashpd_"));
}

#[test]
fn shortcuts() {
    let s = NewShortcut::new("quit", "Quit the app").preferred_trigger(Some("CTRL+q"));
    assert_eq!(s.id(), "quit");
    assert_eq!(s.description(), "Quit the app");
    assert_eq!(s.trigger(), Some("CTRL+q"));
    assert_eq!(s.preferred_trigger(None).trigger(), None);
    let bound = BindShortcuts::new(vec![Shortcut::from_parts(
        "quit".to_string(),
        "Quit the app".to_string(),
        "Press Ctrl+Q".to_string(),
    )]);
    assert_eq!(bound.shortcuts().len(), 1);
    assert_eq!(bound.shortcuts()[0].trigger_description(), "Press Ctrl+Q");
    let portal = GlobalShortcuts::new(1);
    assert_eq!(portal.inner().interface(), "org.freedesktop.portal.GlobalShortcuts");
    assert_eq!(portal.inner().path(), "/org/freedesktop/portal/desktop");
    assert_eq!(portal.inner().destination(), "org.freedesktop.portal.Desktop");
}

#[test]
fn input_capture_values() {
    let r = Region::new(1920, 1080, 0, -10);
    assert_eq!((r.width(), r.height(), r.x_offset(), r.y_offset()), (1920, 1080, 0, -10));
    let zones = Zones::new(vec![r], 7);
    assert_eq!(zones.zone_set(), 7);
    assert_eq!(zones.regions().len(), 1);
    let b = Barrier::new(3, (0, 0, 0, 1080));
    assert_eq!(b.barrier_id(), 3);
    assert_eq!(b.position(), (0, 0, 0, 1080));
    let resp = SetPointerBarriersResponse::new(vec![3, 4]);
    assert_eq!(resp.failed_barriers(), &[3, 4]);
}

#[test]
fn versions_are_checked() {
    assert!(check_version(2, 2).is_ok());
    assert!(matches!(check_version(3, 2), Err(AshpdError::RequiresVersion(3, 2))));
    let monitor = NetworkMonitor::new(2);
    assert!(monitor.check_available_version().is_ok());
    assert!(matches!(monitor.check_can_reach_version(), Err(AshpdError::RequiresVersion(3, 2))));
    assert!(Screencast::new(1).check_cursor_modes_version().is_err());
    let docs = Documents::new(4);
    assert_eq!(docs.inner().destination(), "org.freedesktop.portal.Documents");
    assert_eq!(docs.inner().path(), "/org/freedesktop/portal/documents");
    assert_eq!(Proxy::new_desktop("org.freedesktop.portal.Trash", 1).version(), 1);
}

#[test]
fn network_status() {
    let status = NetworkStatus::new(true, false, Connectivity::Limited);
    assert!(status.is_available());
    assert!(!status.is_metered());
    assert_eq!(status.connectivity(), Connectivity::Limited);
}

#[test]
fn screencast_options_and_streams() {
    let options = Screencast::select_sources_options(CursorMode::Embedded, 3, true, Some("tok"), PersistMode::Application);
    assert!(options.handle_token().as_str().starts_with("ashpd_"));
    let stream = Stream::new(
        42,
        StreamProperties {
            id: Some("s1".to_string()),
            position: Some((0, 0)),
            size: Some((800, 600)),
            source_type: None,
            mapping_id: None,
        },
    );
    assert_eq!(stream.pipe_wire_node_id(), 42);
    assert_eq!(stream.id(), Some("s1"));
    assert_eq!(stream.size(), Some((800, 600)));
    assert_eq!(stream.mapping_id(), None);
    let streams = Streams::new(vec![stream], Some("restore".to_string()));
    assert_eq!(streams.restore_token(), Some("restore"));
    assert_eq!(streams.streams().len(), 1);
}

#[test]
fn location_options() {
    let options = CreateSessionOptions::for_session(None, Some(10), None);
    assert!(options.session_handle_token().as_str().starts_with("ashpd_"));
    assert_eq!(location_description(""), None);
    assert_eq!(location_description("Home"), Some("Home"));
    assert_eq!(Accuracy::Street.code(), 4);
}

#[test]
fn background_values() {
    assert_eq!(Background::new(Activity::Allow).result(), Activity::Allow);
    let r = BackgroundResponse::new(true, false);
    assert!(r.run_in_background());
    assert!(!r.auto_start());
    let req = BackgroundRequest::default()
        .reason(Some("Fetch mail"))
        .auto_start(Some(true))
        .command(Some(vec!["geary".to_string()]))
        .dbus_activatable(Some(false));
    assert!(req.handle_token().as_str().starts_with("ashpd_"));
}

#[test]
fn access_dialog_values() {
    let options = AccessOptions::new(
        Some(true),
        Some("Deny".to_string()),
        None,
        Some("camera".to_string()),
        None,
    );
    assert_eq!(options.is_modal(), Some(true));
    assert_eq!(options.deny_label(), Some("Deny"));
    assert_eq!(options.grant_label(), None);
    assert_eq!(options.icon(), Some(Icon::Names(vec!["camera".to_string()])));
    assert!(options.choices().is_empty());
    let response = AccessResponse::default().choice("a", "1").choice("b", "2");
    let _ = response;
}

#[test]
fn request_state_closes_once() {
    let mut state = RequestState::new();
    assert!(!state.is_aborted());
    assert!(state.close());
    assert!(state.is_aborted());
    assert!(!state.close());
    match state.answer::<u32>(None) {
        Response::Failure(e) => assert_eq!(e, ashpd::request::ResponseError::Cancelled),
        Response::Success(_) => panic!("an aborted request is cancelled"),
    }
    match state.answer(Some(Response::ok(4u32))) {
        Response::Success(v) => assert_eq!(v, 4),
        Response::Failure(_) => panic!("the outcome is kept"),
    }
}

#[test]
fn session_registry() {
    let token = HandleToken::try_from("s1").unwrap();
    let mut registry = SessionRegistry::new();
    assert!(!registry.contains(&token));
    assert!(registry.check_new(&token).is_ok());
    registry.add(&token);
    assert!(registry.contains(&token));
    match registry.check_new(&token) {
        Err(PortalError::Exist(m)) => assert_eq!(m, "A session with handle `s1` already exists"),
        _ => panic!("a taken token is refused"),
    }
    registry.add(&token);
    registry.remove(&token);
    assert!(!registry.contains(&token));
    assert!(registry.check_new(&token).is_ok());
}

#[test]
fn session_paths() {
    let token = HandleToken::try_from("ashpd_x").unwrap();
    let session = Session::from_unique_name(":1.5", &token, 1);
    assert_eq!(session.path(), "/org/freedesktop/portal/desktop/session/1_5/ashpd_x");
    assert!(session.has_handle("/org/freedesktop/portal/desktop/session/1_5/ashpd_x"));
    assert!(!session.has_handle("/org/freedesktop/portal/desktop/session/1_5/other"));
}

#[test]
fn documents_values() {
    assert_eq!(app_id_or_empty(&None), "");
    assert_eq!(app_id_or_empty(&Some(AppID::from("a.b"))), "a.b");
    assert!(lookup_result(String::new()).is_none());
    assert_eq!(lookup_result("x1".to_string()).unwrap().as_str(), "x1");
    let options = FileTransfer::start_transfer_options(true, false);
    assert_eq!(options.is_writeable(), Some(true));
    assert_eq!(options.is_auto_stop(), Some(false));
}

#[test]
fn spawn_options() {
    let o = SpawnOptions::default()
        .sandbox_expose(&["a", "b"])
        .sandbox_flags(3)
        .sandbox_expose_fd(vec![4]);
    let _ = o;
}

#[test]
fn camera_nodes() {
    let cam = camera_stream(
        5,
        vec![
            ("media.class".to_string(), "Video/Source".to_string()),
            ("media.role".to_string(), "Camera".to_string()),
        ],
    )
    .unwrap();
    assert_eq!(cam.node_id(), 5);
    assert_eq!(cam.properties().len(), 2);
    assert!(camera_stream(6, vec![("media.role".to_string(), "Music".to_string())]).is_none());
    assert!(camera_stream(7, vec![]).is_none());
}

#[test]
fn clipboard_owner() {
    let c = SelectionOwnerChanged::new(Some(vec!["text/plain".to_string()]), Some(true));
    assert_eq!(c.session_is_owner(), Some(true));
    assert_eq!(c.mime_types(), vec!["text/plain".to_string()]);
    assert!(SelectionOwnerChanged::new(None, None).mime_types().is_empty());
}

#[test]
fn usb_devices() {
    let device = UsbDevice::new(
        None,
        Some(true),
        None,
        Some("/dev/bus/usb/001/002".to_string()),
        Some(vec![
            ("ID_VENDOR_ENC".to_string(), Some("Acme".to_string())),
            ("ID_MODEL_FROM_DATABASE".to_string(), None),
            ("ID_MODEL_ENC".to_string(), Some("Widget".to_string())),
        ]),
    );
    assert!(device.is_readable());
    assert!(!device.is_writable());
    assert_eq!(device.device_file(), Some("/dev/bus/usb/001/002"));
    // The vendor falls back to the encoded name.
    assert_eq!(device.vendor(), Some("Acme".to_string()));
    // The database key is present but holds no string: no fallback.
    assert_eq!(device.model(), None);

    assert_eq!(acquired_result(true, Some(9), None).ok(), Some(9));
    assert_eq!(
        acquired_result(false, Some(9), Some("denied".to_string())).err().unwrap().to_string(),
        "denied"
    );
    assert_eq!(acquired_result::<i32>(true, None, None).err().unwrap().0, None);
    assert_eq!(UsbError(None).to_string(), "");

    let list = acquire_list(&[Device::new("d1".to_string(), true), Device::new("d2".to_string(), false)]);
    assert_eq!(list, vec![("d1".to_string(), true), ("d2".to_string(), false)]);
}

#[test]
fn camera_properties_hold_each_name_once() {
    let cam = camera_stream(
        3,
        vec![
            ("media.role".to_string(), "Camera".to_string()),
            ("node.name".to_string(), "first".to_string()),
            ("node.name".to_string(), "second".to_string()),
        ],
    )
    .unwrap();
    let props = cam.properties();
    assert_eq!(props.len(), 2);
    assert!(props.contains(&("node.name".to_string(), "second".to_string())));
    assert!(props.contains(&("media.role".to_string(), "Camera".to_string())));
}

#[test]
fn usb_properties_hold_each_name_once() {
    let device = UsbDevice::new(
        None,
        None,
        None,
        None,
        Some(vec![
            ("ID_VENDOR_ENC".to_string(), Some("Old".to_string())),
            ("ID_VENDOR_ENC".to_string(), Some("New".to_string())),
        ]),
    );
    assert_eq!(device.vendor(), Some("New".to_string()));
    assert_eq!(device.properties().unwrap().len(), 1);
}

#[test]
fn acquired_devices_gather_batch_by_batch() {
    let mut devices: Vec<(String, Result<i32, UsbError>)> = Vec::new();
    let more = gather_acquired(
        &mut devices,
        vec![("a".to_string(), true, Some(3), None), ("b".to_string(), false, Some(4), Some("no".to_string()))],
        false,
    );
    assert!(more);
    let more = gather_acquired(&mut devices, vec![("c".to_string(), true, None, None)], true);
    assert!(!more);
    assert_eq!(devices.len(), 3);
    assert_eq!(devices[0].0, "a");
    assert_eq!(devices[0].1.as_ref().ok(), Some(&3));
    assert_eq!(devices[1].1.as_ref().err().unwrap().0, Some("no".to_string()));
    assert_eq!(devices[2].0, "c");
    assert_eq!(devices[2].1.as_ref().err().unwrap().0, None);
}

#[test]
fn sessions_must_be_known_to_be_used() {
    let mut sessions = SessionRegistry::new();
    let token = HandleToken::try_from("s1").unwrap();
    match sessions.check_known(&token) {
        Err(PortalError::NotFound(m)) => assert_eq!(m, "A session with handle `s1` does not exist"),
        other => panic!("unexpected {other:?}"),
    }
    sessions.finish_create(&token, true);
    assert!(sessions.check_known(&token).is_ok());
    assert!(sessions.check_new(&token).is_err());
    sessions.remove(&token);
    assert!(sessions.check_known(&token).is_err());
}
