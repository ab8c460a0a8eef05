use log::LevelFilter;
use wheel_rs::serde::forms::{split_list, FormatError, HumanDuration, ListInput};
use wheel_rs::serde::vec_option_serde::ListShape;
use wheel_rs::serde::{
    duration_option_serde, duration_serde, log_filter_option_serde, rotation_serde,
    vec_option_serde, vec_serde,
};

#[test]
fn comma_lists() {
    assert_eq!(split_list("a, b,,c "), vec!["a", "b", "c"]);
    assert_eq!(split_list(""), Vec::<String>::new());
    assert_eq!(split_list(" , "), Vec::<String>::new());
    assert_eq!(
        vec_serde::deserialize(&ListInput::Items(vec![" x ".to_string(), "".to_string()])),
        vec!["x"]
    );
    assert_eq!(vec_serde::deserialize(&ListInput::Str("one".to_string())), vec!["one"]);
}

#[test]
fn optional_lists() {
    assert_eq!(vec_option_serde::serialize(&None), ListShape::Null);
    assert_eq!(vec_option_serde::serialize(&Some(vec![])), ListShape::Null);
    assert_eq!(vec_option_serde::serialize(&Some(vec!["a".to_string()])), ListShape::Single);
    assert_eq!(
        vec_option_serde::serialize(&Some(vec!["a".to_string(), "b".to_string()])),
        ListShape::Many
    );
    assert_eq!(vec_option_serde::deserialize(&None), None);
    assert_eq!(
        vec_option_serde::deserialize(&Some(ListInput::Str("a,b".to_string()))),
        Some(vec!["a".to_string(), "b".to_string()])
    );
}

#[test]
fn durations() {
    let d = HumanDuration { secs: 5, nanos: 0 };
    assert_eq!(duration_serde::serialize(&d), "5s");
    assert_eq!(duration_option_serde::serialize(&Some(HumanDuration { secs: 90, nanos: 7 })), Some("90s".to_string()));
    assert_eq!(duration_option_serde::serialize(&None), None);
    assert_eq!(duration_serde::deserialize("5s").unwrap(), d);
    assert_eq!(duration_serde::deserialize("3m").unwrap(), HumanDuration { secs: 180, nanos: 0 });
    assert_eq!(
        duration_option_serde::deserialize(Some("6h")).unwrap(),
        Some(HumanDuration { secs: 21600, nanos: 0 })
    );
    assert_eq!(duration_option_serde::deserialize(None).unwrap(), None);
    assert!(matches!(duration_serde::deserialize("soon"), Err(FormatError::InvalidDuration(_))));
    assert_eq!(
        duration_serde::deserialize("99999999999s").unwrap(),
        HumanDuration { secs: 99_999_999_999, nanos: 0 }
    );
    assert!(matches!(
        duration_serde::deserialize("18446744073709551615s 1000ms"),
        Err(FormatError::DurationTooLong(ref s)) if s == "18446744073709551615s 1000ms"
    ));
    assert!(matches!(
        duration_option_serde::deserialize(Some("100000000000m")),
        Err(FormatError::DurationTooLong(_))
    ));
    assert!(matches!(
        duration_serde::deserialize("99999999999999999999999s"),
        Err(FormatError::InvalidDuration(_))
    ));
}

#[test]
fn whole_second_durations_read_back() {
    for secs in [0u64, 1, 99_999_999_999, 100_000_000_000, u64::MAX] {
        let d = HumanDuration { secs, nanos: 0 };
        let text = duration_serde::serialize(&d);
        assert_eq!(text, format!("{secs}s"));
        assert_eq!(duration_serde::deserialize(&text).unwrap(), d);
        let text = duration_option_serde::serialize(&Some(HumanDuration { secs, nanos: 5 })).unwrap();
        assert_eq!(duration_option_serde::deserialize(Some(&text)).unwrap(), Some(d));
    }
}

#[test]
fn log_levels() {
    assert_eq!(log_filter_option_serde::serialize(&Some(LevelFilter::Info)), Some("info"));
    assert_eq!(log_filter_option_serde::serialize(&Some(LevelFilter::Off)), Some("off"));
    assert_eq!(log_filter_option_serde::serialize(&None), None);
    assert_eq!(
        log_filter_option_serde::deserialize(Some("Debug")).unwrap(),
        Some(LevelFilter::Debug)
    );
    assert_eq!(log_filter_option_serde::deserialize(None).unwrap(), None);
    assert!(matches!(
        log_filter_option_serde::deserialize(Some("Loud")),
        Err(FormatError::UnknownLogLevel(ref s)) if s == "Loud"
    ));
}

#[test]
fn rotations() {
    assert_eq!(rotation_serde::serialize(&rotation_serde::Rotation::Hourly), "hourly");
    assert_eq!(rotation_serde::deserialize(" Daily ").unwrap(), rotation_serde::Rotation::Daily);
    assert!(matches!(
        rotation_serde::deserialize(" Yearly"),
        Err(FormatError::InvalidRotation(ref s)) if s == "yearly"
    ));
}
