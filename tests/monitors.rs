use rxscreen::{collect_monitors, Monitor, MonitorInfo};

fn info(primary: i32, x: i32, y: i32, width: i32, height: i32) -> MonitorInfo {
    MonitorInfo { name: 77, primary, automatic: 1, noutput: 1, x, y, width, height, mwidth: 500, mheight: 300 }
}

#[test]
fn no_reported_monitors_give_an_empty_list() {
    assert!(collect_monitors(&[], &[]).is_empty());
}

#[test]
fn monitor_records_are_copied_in_order() {
    let infos = [info(1, 0, 0, 1920, 1080), info(0, 1920, 0, 1280, 1024)];
    let names = [String::from("DP-1"), String::from("HDMI-2")];
    let ms = collect_monitors(&infos, &names);
    assert_eq!(ms.len(), 2);
    assert_eq!(ms[0].name(), "DP-1");
    assert!(ms[0].primary());
    assert_eq!((ms[0].x(), ms[0].y(), ms[0].width(), ms[0].height()), (0, 0, 1920, 1080));
    assert_eq!(ms[1].name(), "HDMI-2");
    assert!(!ms[1].primary());
    assert_eq!((ms[1].x(), ms[1].y(), ms[1].width(), ms[1].height()), (1920, 0, 1280, 1024));
}

#[test]
fn only_a_primary_flag_of_one_is_primary() {
    let m = Monitor::from_info(String::from("X"), &info(2, 0, 0, 10, 10));
    assert!(!m.primary());
}

#[test]
fn root_position_translates_to_monitor_position() {
    let m = Monitor::from_info(String::from("HDMI-2"), &info(0, 1920, 100, 1280, 1024));
    assert_eq!(m.mouse_to_local((2000, 150)), Some((80, 50)));
    assert_eq!(m.mouse_to_local((1920, 100)), Some((0, 0)));
    assert_eq!(m.mouse_to_local((3200, 1124)), Some((1280, 1024)));
    assert_eq!(m.mouse_to_local((3201, 150)), None);
    assert_eq!(m.mouse_to_local((1919, 150)), None);
    assert_eq!(m.mouse_to_local((2000, 99)), None);
    assert_eq!(m.mouse_to_local((i32::MIN, i32::MAX)), None);
}
