use ashpd::dynamic_launcher::{launcher_icon_value, IconType};
use ashpd::error::AshpdError;
use ashpd::icon::{Icon, IconPayload, Pixmap, Uri};

fn round_trip(icon: &Icon) -> Icon {
    let (tag, payload) = icon.as_value();
    Icon::from_tagged(&tag, payload).unwrap()
}

#[test]
fn icon_serialize_deserialize() {
    let icon = Icon::with_names(vec!["dialog-symbolic".to_string()]);
    assert_eq!(round_trip(&icon), icon);

    let icon = Icon::with_uri("file://some/icon.png").unwrap();
    assert_eq!(round_trip(&icon), icon);

    let icon = Icon::Bytes(vec![1, 0, 1, 0]);
    assert_eq!(round_trip(&icon), icon);
}

#[test]
fn test_icon_signature() {
    let icon = vec![IconType::Png];
    let names: Vec<&str> = icon.iter().map(|t| t.wire_name()).collect();
    assert_eq!(names, vec!["png"]);
    assert_eq!(IconType::Svg.wire_name(), "svg");
}

#[test]
fn icon_tags() {
    assert_eq!(Icon::with_name("x").as_value().0, "themed");
    assert_eq!(Icon::Bytes(vec![1]).as_value().0, "bytes");
    assert!(Icon::with_name("x").serialized().is_none());
    assert!(Icon::Pixmaps(vec![Pixmap::new(1, 1, vec![0, 0, 0, 0])]).serialized().is_none());
    assert_eq!(
        Icon::with_names(vec!["a".to_string()]).serialized(),
        Some(("themed".to_string(), IconPayload::Strs(vec!["a".to_string()])))
    );
}

#[test]
fn icon_uri_must_parse() {
    assert!(Icon::with_uri("not a uri").is_none());
    let url = Icon::with_uri("file:///tmp/a.png").unwrap();
    assert_eq!(url, Icon::Uri(Uri::parse("file:///tmp/a.png").unwrap()));
    assert!(matches!(
        Icon::from_tagged("file", IconPayload::Str("::".to_string())),
        Err(AshpdError::ParseError("Couldn't deserialize Icon of type 'file'"))
    ));
    assert!(matches!(
        Icon::from_tagged("other", IconPayload::Bytes(vec![])),
        Err(AshpdError::ParseError("Invalid Icon type"))
    ));
}

#[test]
fn launcher_icons_must_be_bytes() {
    assert!(matches!(
        launcher_icon_value(&Icon::with_name("x")),
        Err(AshpdError::UnexpectedIcon)
    ));
    let (tag, payload) = launcher_icon_value(&Icon::Bytes(vec![9, 9])).unwrap();
    assert_eq!(tag, "bytes");
    assert_eq!(payload, IconPayload::Bytes(vec![9, 9]));
}

fn icon_value(tag: &str, payload: zbus::zvariant::Value<'static>) -> zbus::zvariant::OwnedValue {
    let fields = (tag.to_string(), payload);
    zbus::zvariant::OwnedValue::try_from(zbus::zvariant::Value::from(fields)).unwrap()
}

#[test]
fn icons_read_from_bus_values() {
    let v = icon_value("file", zbus::zvariant::Value::from("file:///tmp/a.png"));
    assert_eq!(Icon::from_value(&v).unwrap(), Icon::Uri(Uri::parse("file:///tmp/a.png").unwrap()));
    let v = icon_value("themed", zbus::zvariant::Value::from(vec!["dialog-symbolic", "dialog"]));
    assert_eq!(
        Icon::from_value(&v).unwrap(),
        Icon::Names(vec!["dialog-symbolic".to_string(), "dialog".to_string()])
    );
    let v = icon_value("bytes", zbus::zvariant::Value::from(vec![1u8, 0, 1, 0]));
    assert_eq!(Icon::from_value(&v).unwrap(), Icon::Bytes(vec![1, 0, 1, 0]));
    let v = icon_value("file", zbus::zvariant::Value::from("::"));
    assert!(matches!(Icon::from_value(&v), Err(AshpdError::ParseError("Failed to parse uri"))));
    let v = icon_value("other", zbus::zvariant::Value::from("x"));
    assert!(matches!(Icon::from_value(&v), Err(AshpdError::ParseError("Invalid Icon type"))));
}

#[test]
fn bus_values_of_another_shape_are_not_icons() {
    let v = zbus::zvariant::OwnedValue::from(5u32);
    assert!(Icon::try_from_value(&v).is_none());
    let v = icon_value("themed", zbus::zvariant::Value::from(vec![1u32, 2]));
    assert!(Icon::try_from_value(&v).is_none());
    let v = icon_value("bytes", zbus::zvariant::Value::from("x"));
    assert!(Icon::try_from_value(&v).is_none());
    let v = icon_value("themed", zbus::zvariant::Value::from(vec!["a"]));
    assert_eq!(Icon::try_from_value(&v).unwrap().unwrap(), Icon::Names(vec!["a".to_string()]));
}

#[test]
fn uris_are_parsed_urls() {
    assert!(Uri::parse("not a uri").is_none());
    let u = Uri::parse("FILE:///tmp/a b.png").unwrap();
    assert_eq!(u.as_str(), "file:///tmp/a%20b.png");
    let again = Uri::parse(u.as_str()).unwrap();
    assert_eq!(again, u);
    let icon = Icon::Uri(u);
    assert_eq!(round_trip(&icon), icon);
}
