use ashpd::error::{interface_named_in, AshpdError, PortalError};
use ashpd::handle_token::HandleToken;

#[test]
fn missing_portal_is_named_from_the_reply_details() {
    let details =
        "No such interface “org.freedesktop.portal.Trash” on object at path /org/freedesktop/portal/desktop";
    assert_eq!(interface_named_in(details), "org.freedesktop.portal.Trash");
    match AshpdError::from_reply_details(Some(details.to_string()), zbus::Error::Failure("x".into())) {
        AshpdError::PortalNotFound(i) => assert_eq!(i, "org.freedesktop.portal.Trash"),
        other => panic!("unexpected {other:?}"),
    }
    // Details that name no valid interface keep the bus error.
    assert!(matches!(
        AshpdError::from_reply_details(Some("something else".to_string()), zbus::Error::Failure("x".into())),
        AshpdError::Zbus(_)
    ));
    assert!(matches!(
        AshpdError::from_reply_details(None, zbus::Error::Failure("x".into())),
        AshpdError::Zbus(_)
    ));
    assert!(matches!(
        AshpdError::from_bus_error(zbus::Error::Failure("x".into())),
        AshpdError::Zbus(_)
    ));
}

#[test]
fn portal_errors_from_reply_names() {
    let e = PortalError::from_reply(
        "org.freedesktop.portal.Error.NotFound",
        Some("gone".to_string()),
        zbus::Error::Failure("x".into()),
    );
    assert_eq!(e.error_name(), "org.freedesktop.portal.Error.NotFound");
    assert_eq!(e.description(), Some("gone".to_string()));
    assert_eq!(e.message(), "org.freedesktop.portal.Error.NotFound: gone");
    let e = PortalError::from_reply("org.freedesktop.portal.Error.Failed", None, zbus::Error::Failure("x".into()));
    assert!(matches!(e, PortalError::Failed(ref d) if d.is_empty()));
    let e = PortalError::from_reply("org.example.Other", None, zbus::Error::Failure("x".into()));
    assert!(matches!(e, PortalError::ZBus(_)));
    assert_eq!(e.error_name(), "org.freedesktop.zbus.Error");
    assert!(matches!(
        PortalError::from_bus_error(zbus::Error::Failure("x".into())),
        PortalError::ZBus(_)
    ));
}

#[test]
fn long_tokens_up_to_the_member_name_limit() {
    assert!(HandleToken::try_from(&"a".repeat(255)).is_ok());
    assert!(HandleToken::try_from("_1").is_ok());
}

fn method_error(name: &str, details: Option<&str>) -> zbus::Error {
    let reply = zbus::message::Message::method_call("/org/freedesktop/portal/desktop", "Trash")
        .unwrap()
        .build(&())
        .unwrap();
    zbus::Error::MethodError(
        zbus::names::OwnedErrorName::try_from(name).unwrap(),
        details.map(|d| d.to_string()),
        reply,
    )
}

#[test]
fn portal_errors_from_bus_error_replies() {
    let e = PortalError::from_bus_error(method_error("org.freedesktop.portal.Error.NotAllowed", Some("nope")));
    assert!(matches!(e, PortalError::NotAllowed(ref d) if d == "nope"));
    let e = PortalError::from_bus_error(method_error("org.freedesktop.portal.Error.Cancelled", None));
    assert!(matches!(e, PortalError::Cancelled(ref d) if d.is_empty()));
    let e = PortalError::from_bus_error(method_error("org.freedesktop.DBus.Error.Failed", Some("x")));
    assert!(matches!(e, PortalError::ZBus(_)));
    assert_eq!(e.description(), Some("x".to_string()));
    assert_eq!(e.message(), "org.freedesktop.zbus.Error: x");
}

#[test]
fn bus_library_errors_describe_themselves() {
    let e = PortalError::ZBus(zbus::Error::InvalidReply);
    assert_eq!(e.description(), Some("invalid reply".to_string()));
    assert_eq!(e.message(), "org.freedesktop.zbus.Error: invalid reply");
    let e = PortalError::ZBus(method_error("org.freedesktop.DBus.Error.Failed", None));
    assert_eq!(e.description(), None);
    assert_eq!(e.message(), "org.freedesktop.zbus.Error: no description");
    assert_eq!(
        AshpdError::Portal(PortalError::ZBus(zbus::Error::InvalidReply)).message(),
        "Portal request failed: org.freedesktop.zbus.Error: invalid reply"
    );
    assert_eq!(
        AshpdError::Zbus(zbus::Error::InvalidReply).message(),
        "ZBus Error: Invalid D-Bus method reply"
    );
    let io = std::io::Error::new(std::io::ErrorKind::Other, "disk gone");
    assert_eq!(AshpdError::IO(io).message(), "IO: disk gone");
}

#[test]
fn missing_portal_from_bus_error_reply() {
    let details =
        "No such interface “org.freedesktop.portal.Trash” on object at path /org/freedesktop/portal/desktop";
    let e = AshpdError::from_bus_error(method_error("org.freedesktop.DBus.Error.UnknownMethod", Some(details)));
    match e {
        AshpdError::PortalNotFound(i) => assert_eq!(i, "org.freedesktop.portal.Trash"),
        other => panic!("unexpected {other:?}"),
    }
    let e = AshpdError::from_bus_error(method_error("org.freedesktop.DBus.Error.UnknownMethod", Some("no")));
    assert!(matches!(e, AshpdError::Zbus(_)));
    let e = AshpdError::from_bus_error(method_error("org.freedesktop.DBus.Error.UnknownMethod", None));
    assert!(matches!(e, AshpdError::Zbus(_)));
}
