use rxscreen::{Display, RootGeometry};

#[test]
fn window_settings_start_at_defaults_and_change() {
    let d = Display::from_root(Some(RootGeometry { window: 1, width: 800, height: 600 })).unwrap();
    assert_eq!(d.new_window().settings(), ((0, 0), (600, 400), 0));
    let b = d.new_window().size((320, 200)).offset((-5, 7)).border_width(2);
    assert_eq!(b.settings(), ((-5, 7), (320, 200), 2));
}
