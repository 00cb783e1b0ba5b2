use image_resizer::server_timing::timing::Timing;
use image_resizer::server_timing::ServerTiming;
use std::time::Duration;

#[test]
fn mod_server_timing_display() {
    let timing1 = Timing::new("db", Duration::from_millis(56), None);
    let timing2 = Timing::new("ser", Duration::from_millis(32), None);
    let expected_string = {
        let timing1 = timing1.to_string();
        let timing2 = timing2.to_string();
        format!("{timing1}, {timing2}")
    };

    let server_timing = ServerTiming::new([timing1, timing2].to_vec());
    let formatted_string = {
        let server_timing = server_timing.to_string();
        format!("{server_timing}")
    };

    assert_eq!(expected_string, formatted_string)
}

#[test]
fn server_timing_display() {
    let timing1 = Timing {
        name: String::from("db"),
        duration: String::from("56.6"),
        description: None,
    };
    let timing2 = Timing {
        name: String::from("req"),
        duration: String::from("32.3"),
        description: None,
    };
    let expected_string = {
        let timing1 = timing1.to_string();
        let timing2 = timing2.to_string();
        format!("{timing1}, {timing2}")
    };

    let server_timing = ServerTiming::new([timing1, timing2].to_vec());
    let formatted_string = {
        let server_timing = server_timing.to_string();
        format!("{server_timing}")
    };

    assert_eq!(expected_string, formatted_string)
}

#[test]
fn timing_display_description() {
    let name = String::from("db");
    let dur = String::from("65.3");
    let desc = String::from("Do a thing on the db");
    let timing = Timing {
        name: name.clone(),
        duration: dur.clone(),
        description: Some(desc.clone()),
    };
    let timing = timing.to_string();
    assert_eq!(format!("{timing}"), format!("{name};desc=\"{desc}\";dur={dur}"))
}

#[test]
fn timing_display_no_description() {
    let name = String::from("db");
    let dur = String::from("65.3");
    let timing = Timing {
        name: name.clone(),
        duration: dur.clone(),
        description: None,
    };
    let timing = timing.to_string();
    assert_eq!(format!("{timing}"), format!("{name};dur={dur}"))
}

#[test]
fn server_timing_lists_entries_with_comma_and_space() {
    let timings = vec![
        Timing::new("dec", Duration::from_millis(12), None),
        Timing::new("res", Duration::from_micros(3_999), None),
        Timing::new("enc", Duration::from_secs(2), Some(String::from("jpeg"))),
    ];
    let header = ServerTiming::new(timings).to_string();
    assert_eq!(header, "dec;dur=12, res;dur=3, enc;desc=\"jpeg\";dur=2000");
}

#[test]
fn server_timing_of_one_entry_has_no_separator() {
    let header = ServerTiming::new(vec![Timing::new("dec", Duration::from_millis(0), None)]);
    assert_eq!(header.to_string(), "dec;dur=0");
}

#[test]
fn timing_reports_whole_milliseconds_in_decimal() {
    assert_eq!(Timing::new("a", Duration::from_millis(0), None).duration, "0");
    assert_eq!(Timing::new("a", Duration::from_millis(9), None).duration, "9");
    assert_eq!(Timing::new("a", Duration::from_millis(10), None).duration, "10");
    assert_eq!(Timing::new("a", Duration::from_millis(1_234_567_890), None).duration, "1234567890");
    assert_eq!(Timing::new("a", Duration::from_nanos(1_999_999), None).duration, "1");
    assert_eq!(
        Timing::new("a", Duration::MAX, None).duration,
        Duration::MAX.as_millis().to_string()
    );
}
