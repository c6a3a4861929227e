use razy_cwlogs::aws::cwlogs::mapper::map_field;
use razy_cwlogs::aws::cwlogs::mapper::map_string_field;
use razy_cwlogs::aws::cwlogs::mapper::map_unix_epoch_millis;
use razy_cwlogs::aws::cwlogs::mapper::DurationDays;
use razy_cwlogs::aws::cwlogs::mapper::Timestamp;
use razy_cwlogs::aws::errors::MissingFieldError;
use razy_cwlogs::aws::profile::from_lines;
use razy_cwlogs::aws::profile::ProfileName;
use razy_cwlogs::aws::Arn;

#[test]
fn test_str() {
    assert_eq!(
        "arn:aws:logs:ap-northeast-1:000000000000:log-group:log_group_name",
        Arn::from("arn:aws:logs:ap-northeast-1:000000000000:log-group:log_group_name").str()
    )
}

#[test]
fn test_message() {
    assert_eq!(
        "field `field-name` is missing".to_string(),
        MissingFieldError::new("field-name").message()
    );
}

#[derive(Debug, Eq, PartialEq)]
struct Name(String);

impl From<String> for Name {
    fn from(s: String) -> Self {
        Name(s)
    }
}

#[derive(Default)]
struct Record {
    dt: Option<Timestamp>,
    name: Option<String>,
    time_in_millis: Option<i64>,
}

#[test]
fn test_map_field() {
    let record = Record {
        dt: Some(Timestamp::new(1604316153000)), // 2020-11-02T11:22:33
        ..Default::default()
    };
    assert_eq!(Ok(Timestamp::new(1604316153000)), map_field(record.dt, "dt"));

    assert_eq!(
        Err(MissingFieldError::new("dt")),
        map_field(Record::default().dt, "dt")
    );
}

#[test]
fn test_map_string_field() {
    let record = Record {
        name: Some("NAME".to_string()),
        ..Default::default()
    };
    assert_eq!(
        Ok(Name::from("NAME".to_string())),
        map_string_field(record.name, "name")
    );

    assert_eq!(
        Err(MissingFieldError::new("name")),
        map_string_field::<Name>(Record::default().name, "name")
    );
}

#[test]
fn test_map_unix_epoch_millis() {
    let record = Record {
        time_in_millis: Some(1604316153000),
        ..Default::default()
    };
    assert_eq!(
        Ok(Timestamp::new(1604316153000)), // 2020-11-02T11:22:33
        map_unix_epoch_millis(record.time_in_millis, "time_in_millis"),
    );

    assert_eq!(
        Err(MissingFieldError::new("time_in_millis")),
        map_unix_epoch_millis(Record::default().time_in_millis, "time_in_millis"),
    );
}

#[test]
fn test_duration_days() {
    assert_eq!(
        86_400, // 1 * 24 * 60 * 60
        DurationDays::from(1).as_duration(),
    );
}

#[test]
fn test_from_file() {
    let lines: Vec<String> = vec![
        "[default]",
        "region = us-east-1",
        "[ inner-spaces ]",
        "  [outer-spaces]  ",
        "[profile profile-name]",
        "[profile  profile-inner-spaces ]",
        "  [profile profile-outer-spaces]  ",
        "output = json",
        "not a section",
    ]
    .into_iter()
    .map(|s| s.to_string())
    .collect();
    let store = from_lines(&lines);

    let profiles = store.iter();
    let mut iter = profiles.iter();
    let profile_name = |s: &str| ProfileName::from(s);
    assert_eq!(Some(&profile_name("default")), iter.next());
    assert_eq!(Some(&profile_name("inner-spaces")), iter.next());
    assert_eq!(Some(&profile_name("outer-spaces")), iter.next());
    assert_eq!(Some(&profile_name("profile-name")), iter.next());
    assert_eq!(Some(&profile_name("profile-inner-spaces")), iter.next());
    assert_eq!(Some(&profile_name("profile-outer-spaces")), iter.next());
    assert_eq!(None, iter.next());
}
