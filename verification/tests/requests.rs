use ashpd::backend::account::UserInformationOptions;
use ashpd::backend::email::Options as EmailOptions;
use ashpd::backend::screenshot::ScreenshotOptions;
use ashpd::backend::wallpaper::{wallpaper_answer, WallpaperOptions as BackendWallpaperOptions};
use ashpd::device::{device_wire_names, DeviceKind};
use ashpd::email::EmailRequest;
use ashpd::error::{AshpdError, PortalError};
use ashpd::handle_token::HandleToken;
use ashpd::icon::Icon;
use ashpd::inhibit::InhibitProxy;
use ashpd::input_capture::CreateSessionOptions as CaptureSessionOptions;
use ashpd::notification::{Button, Notification, Priority};
use ashpd::open_uri::{OpenDirectoryRequest, OpenFileRequest as OpenUriRequest};
use ashpd::print::{Orientation, PrintProxy, Quality, Settings as PrintSettings};
use ashpd::remote_desktop::SelectDevicesOptions;
use ashpd::request::{Request, Response, ResponseError, ResponseType};
use ashpd::screenshot::{Screenshot, ScreenshotRequest};
use ashpd::settings::{ColorScheme, Setting, Settings};
use ashpd::account::{UserInformation, UserInformationRequest};
use ashpd::wallpaper::{SetOn, WallpaperProxy};
use ashpd::text::push_decimal;
use zbus::zvariant::{OwnedValue, Value};

#[test]
fn email_attachments_accumulate() {
    let mut request = EmailRequest::default()
        .address(Some("a@example.org"))
        .cc(Some(vec!["b@example.org".to_string()]))
        .subject(Some("Hi"))
        .attach(3);
    request.add_attachment(4);
    assert!(request.handle_token().as_str().starts_with("ashpd_"));
}

#[test]
fn open_uri_requests() {
    let r = OpenUriRequest::default().writeable(Some(true)).ask(Some(false));
    assert!(r.handle_token().as_str().starts_with("ashpd_"));
    let d = OpenDirectoryRequest::default().activation_token(Some("tok"));
    assert!(d.handle_token().as_str().starts_with("ashpd_"));
}

#[test]
fn screenshots_and_accounts() {
    let r = ScreenshotRequest::default().modal(Some(true)).interactive(Some(false));
    assert!(r.handle_token().as_str().starts_with("ashpd_"));
    assert_eq!(Screenshot::new("file:///tmp/s.png".to_string()).uri(), "file:///tmp/s.png");
    let u = UserInformation::new("1000".to_string(), "Ada".to_string(), "file:///a.png".to_string());
    assert_eq!((u.id(), u.name(), u.image()), ("1000", "Ada", "file:///a.png"));
    let req = UserInformationRequest::default().reason(Some("Show your name"));
    assert!(req.handle_token().as_str().starts_with("ashpd_"));
}

#[test]
fn notifications() {
    let button = Button::new("Reply", "app.reply").target(OwnedValue::from(5u32));
    assert_eq!(button.label(), "Reply");
    assert_eq!(button.action(), "app.reply");
    let n = Notification::new("New mail")
        .body("You have mail")
        .priority(Priority::High)
        .icon(Icon::with_name("mail"))
        .default_action("app.open")
        .button(button)
        .button(Button::new("Dismiss", "app.dismiss"));
    assert_eq!(n.title(), "New mail");
}

#[test]
fn print_options() {
    let settings = PrintSettings::default()
        .orientation(Some(Orientation::Landscape))
        .quality(Some(Quality::High))
        .n_copies(Some("2"))
        .use_color(Some(true));
    let _ = settings;
    let o = PrintProxy::print_options(None, true);
    assert!(o.handle_token().as_str().starts_with("ashpd_"));
    let p = PrintProxy::prepare_print_options(false);
    assert!(p.handle_token().as_str().starts_with("ashpd_"));
}

#[test]
fn wallpaper_and_inhibit_options() {
    let o = WallpaperProxy::options(true, SetOn::Both);
    assert!(o.handle_token().as_str().starts_with("ashpd_"));
    let i = InhibitProxy::inhibit_options("Playing a video");
    assert!(i.handle_token().as_str().starts_with("ashpd_"));
}

#[test]
fn device_names_on_the_bus() {
    assert_eq!(
        device_wire_names(&[DeviceKind::Camera, DeviceKind::Microphone]),
        vec!["camera", "microphone"]
    );
}

#[test]
fn settings_select_color_scheme() {
    let (ns, key) = Settings::color_scheme_setting();
    assert_eq!((ns, key), ("org.freedesktop.appearance", "color-scheme"));
    let setting = Setting::new(ns.to_string(), key.to_string(), OwnedValue::from(1u32));
    assert!(setting.is_color_scheme());
    assert!(!Setting::new("org.gnome".to_string(), key.to_string(), OwnedValue::from(1u32)).is_color_scheme());
    let n: u32 = setting.value().downcast_ref::<u32>().unwrap();
    assert_eq!(ColorScheme::from_code(n), ColorScheme::PreferDark);
    let _ = Value::from(0u32);
}

#[test]
fn requests_keep_the_answer_once() {
    let token = HandleToken::try_from("ashpd_t").unwrap();
    let mut request: Request<u32> = Request::from_unique_name(":1.9", &token, 1);
    assert_eq!(request.path(), "/org/freedesktop/portal/desktop/request/1_9/ashpd_t");
    assert!(matches!(request.prepare_response(None), Err(AshpdError::NoResponse)));
    assert!(!request.has_response());
    assert!(request.prepare_response(Some(Response::ok(8))).is_ok());
    assert!(request.has_response());
    assert_eq!(request.response().ok(), Some(8));
    assert!(!request.has_response());
    request
        .prepare_response(Some(Response::from_parts(ResponseType::Cancelled, None)))
        .unwrap();
    assert!(matches!(
        request.response(),
        Err(AshpdError::Response(ResponseError::Cancelled))
    ));
}

#[test]
fn error_messages() {
    assert_eq!(
        AshpdError::RequiresVersion(3, 2).message(),
        "This interface requires version 3, but 2 is available"
    );
    assert_eq!(
        AshpdError::NulTerminated(12).message(),
        "Nul byte found in provided data at position 12"
    );
    assert_eq!(
        AshpdError::Portal(PortalError::NotAllowed("no".to_string())).message(),
        "Portal request failed: org.freedesktop.portal.Error.NotAllowed: no"
    );
    assert_eq!(
        AshpdError::Response(ResponseError::Other).message(),
        "Portal request didn't succeed: Other"
    );
    assert_eq!(
        AshpdError::PortalNotFound("org.freedesktop.portal.Trash".to_string()).message(),
        "A portal frontend implementing `org.freedesktop.portal.Trash` was not found"
    );
    let mut s = String::from("n=");
    push_decimal(&mut s, 0);
    push_decimal(&mut s, 4294967295);
    assert_eq!(s, "n=04294967295");
}

#[test]
fn backend_readers() {
    let o = EmailOptions::new(
        Some("a@b".to_string()),
        None,
        Some(vec!["c@d".to_string()]),
        None,
        None,
        Some("body".to_string()),
        None,
        None,
    );
    assert_eq!(o.address(), Some("a@b"));
    assert!(o.addresses().is_empty());
    assert_eq!(o.cc(), &["c@d".to_string()]);
    assert_eq!(o.body(), Some("body"));
    assert_eq!(UserInformationOptions::new(Some("why".to_string())).reason(), Some("why"));
    let s = ScreenshotOptions::new(Some(true), None, Some(false));
    assert_eq!((s.modal(), s.interactive(), s.permission_store_checked()), (Some(true), None, Some(false)));
    let w = BackendWallpaperOptions::new(Some(true), Some(SetOn::Background));
    assert_eq!(w.set_on(), Some(SetOn::Background));
    assert_eq!(wallpaper_answer(&Response::ok(())), ResponseType::Success);
    assert_eq!(wallpaper_answer(&Response::<()>::cancelled()), ResponseType::Cancelled);
}

#[test]
fn session_creation_options() {
    let o = CaptureSessionOptions::new(3);
    assert_eq!(o.capabilities(), 3);
    assert_ne!(o.tokens().handle_token().as_str(), o.tokens().session_handle_token().as_str());
    let d = SelectDevicesOptions::default().types(Some(1));
    assert!(d.handle_token().as_str().starts_with("ashpd_"));
}
