use terrain_editor::environment::{update_sun_settings, Angle, DayNightCycle, SunSetting, SunSettings, TimeOfDay};

#[test]
fn time_of_day_caption() {
    let t = TimeOfDay::new(7, 5, 9);
    assert_eq!(t.as_str(), "07:05");
    assert_eq!((t.hour(), t.min(), t.sec()), (7, 5, 9));
    assert_eq!(TimeOfDay::new(14, 30, 0).as_str(), "14:30");
}

#[test]
fn time_of_day_is_clamped() {
    let t = TimeOfDay::new(30, 75, 200);
    assert_eq!((t.hour(), t.min(), t.sec()), (23, 59, 59));
    assert_eq!(t.as_str(), "23:59");
}

#[test]
fn time_of_day_update() {
    let mut t = TimeOfDay::new(1, 2, 3);
    t.update_hms(12, 0, 30);
    assert_eq!(t.as_str(), "12:00");
    assert_eq!(t.sec(), 30);
}

#[test]
fn parse_time_of_day() {
    let t = TimeOfDay::try_from("08:45").expect("valid");
    assert_eq!((t.hour(), t.min(), t.sec()), (8, 45, 0));
    assert_eq!(t.as_str(), "08:45");
    let t = TimeOfDay::try_from("24:00").expect("valid");
    assert_eq!((t.hour(), t.min()), (23, 0));
    let t = TimeOfDay::try_from("+7:+3").expect("valid");
    assert_eq!((t.hour(), t.min()), (7, 3));
}

#[test]
fn parse_time_of_day_errors() {
    assert_eq!(TimeOfDay::try_from("ab:00").err(), Some(String::from("could not parse hour")));
    assert_eq!(TimeOfDay::try_from("12:x0").err(), Some(String::from("could not parse minutes")));
    assert_eq!(TimeOfDay::try_from("24:01").err(), Some(String::from("expected HH:mm. found: 24:01")));
    assert_eq!(TimeOfDay::try_from("12:60").err(), Some(String::from("expected HH:mm. found: 12:60")));
    assert_eq!(TimeOfDay::try_from("1:00").err(), Some(String::from("expected HH:mm. found: 1:00")));
    assert_eq!(TimeOfDay::try_from("").err(), Some(String::from("expected HH:mm. found: ")));
}

#[test]
fn caption_reads_back() {
    for h in 0..24u8 {
        for m in [0u8, 1, 9, 10, 30, 59] {
            let t = TimeOfDay::new(h, m, 0);
            let back = TimeOfDay::try_from(t.as_str()).expect("caption parses");
            assert_eq!((back.hour(), back.min()), (h, m));
        }
    }
}

#[test]
fn angles() {
    assert_eq!(Angle::new(270).value(), 270);
}

#[test]
fn daynight_cycle() {
    let mut c = DayNightCycle::default();
    assert_eq!(c.time_of_day().as_str(), "14:30");
    assert!(!c.cycle_active());
    assert_eq!(c.cycle_speed(), 0);
    c.activate_cycle(true);
    c.set_cycle_speed(250);
    assert!(c.cycle_active());
    assert_eq!(c.cycle_speed(), 100);
    c.set_cycle_speed(42);
    assert_eq!(c.cycle_speed(), 42);
    c.time_of_day_mut().update_hms(6, 15, 0);
    assert_eq!(c.time_of_day().as_str(), "06:15");
}

#[test]
fn sun_settings() {
    let mut sun = SunSettings::default();
    assert_eq!(sun.time_of_day().as_str(), "12:00");
    assert_eq!(sun.plane_tilt().value(), 23);
    assert_eq!(sun.plane_yaw().value(), 0);
    assert_eq!(sun.plane_height(), 0);
    assert!(!sun.show_debug_mesh());
    update_sun_settings(&SunSetting::SetPlaneTilt(40), &mut sun);
    update_sun_settings(&SunSetting::SetPlaneYaw(90), &mut sun);
    update_sun_settings(&SunSetting::SetPlaneHeight(7), &mut sun);
    update_sun_settings(&SunSetting::ToggleDebugMesh, &mut sun);
    assert_eq!((sun.plane_tilt().value(), sun.plane_yaw().value(), sun.plane_height()), (40, 90, 7));
    assert!(sun.show_debug_mesh());
    sun.activate_daylight_cycle(true);
    sun.set_daylight_cycle_speed(101);
    assert!(sun.daylight_cycle_active());
    assert_eq!(sun.daylight_cycle_speed(), 100);
    sun.time_of_day_mut().update_hms(18, 5, 0);
    assert_eq!(sun.time_of_day().as_str(), "18:05");
}
