use rxscreen::{pointer_position, validate_identifier, Display, DisplayErrorKind, Region, RootGeometry};

#[test]
fn plain_identifiers_are_accepted() {
    assert!(validate_identifier(":0.0").is_ok());
    assert!(validate_identifier("").is_ok());
    assert!(validate_identifier("test:5.0").is_ok());
}

#[test]
fn identifier_with_nul_is_invalid() {
    let e = validate_identifier(":0\0.0").unwrap_err();
    assert_eq!(e.kind, DisplayErrorKind::InvalidIdentifier { nul_position: 2 });
    assert_eq!(e.description(), "nul byte found in the display identifier");
    let e = validate_identifier("\0").unwrap_err();
    assert_eq!(e.kind, DisplayErrorKind::InvalidIdentifier { nul_position: 0 });
}

#[test]
fn refused_connection_is_connection_failed() {
    let e = Display::from_root(None).unwrap_err();
    assert_eq!(e.kind, DisplayErrorKind::ConnectionFailed);
    assert_eq!(e.description(), "Couldn't open display: XOpenDisplay returned NULL");
}

#[test]
fn opened_display_records_root_geometry() {
    let d = Display::from_root(Some(RootGeometry { window: 0x1a5, width: 1920, height: 1080 })).unwrap();
    assert_eq!(d.window, 0x1a5);
    assert_eq!(d.width, 1920);
    assert_eq!(d.height, 1080);
    assert_eq!(d.screen_region(), Region { x: 0, y: 0, width: 1920, height: 1080 });
}

#[test]
fn pointer_query_status_decides() {
    assert_eq!(pointer_position(1, 40, -3), Some((40, -3)));
    assert_eq!(pointer_position(0, 40, -3), None);
}
