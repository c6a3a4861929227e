use razy_cwlogs::aws::cwlogs::group::model::CwlGroup;
use razy_cwlogs::aws::cwlogs::group::model::LogGroupRecord;
use razy_cwlogs::aws::cwlogs::group::model::ParseLogGroupError;
use razy_cwlogs::aws::cwlogs::mapper::DurationDays;
use razy_cwlogs::aws::cwlogs::mapper::Timestamp;
use razy_cwlogs::aws::errors::MissingFieldError;
use razy_cwlogs::aws::Arn;
use razy_cwlogs::size::Size;
use razy_cwlogs::size::SizeError;

fn log_group() -> LogGroupRecord {
    let s = |s: &str| s.to_string();
    LogGroupRecord {
        arn: Some(s(
            "arn:aws:logs:ap-northeast-1:000000000000:log-group:log_group_name",
        )),
        log_group_name: Some(s("log_group_name")),
        creation_time: Some(1604316153000), // 2020-11-02T11:22:33
        retention_in_days: Some(3),
        stored_bytes: Some(256 * 1024),
    }
}

#[test]
fn test_try_from_success() {
    assert_eq!(
        Ok(CwlGroup {
            arn: Arn::from("arn:aws:logs:ap-northeast-1:000000000000:log-group:log_group_name"),
            creation_time: Timestamp::new(1604316153000), // 2020-11-02T11:22:33
            group_name: String::from("log_group_name"),
            retention: Some(DurationDays::from(3)), // 3 * 24 * 60 * 60 seconds
            stored: Size::new(256 * 1024),
        }),
        CwlGroup::try_from(log_group())
    );
}

#[test]
fn test_try_from_error() {
    fn missing_field_error(field_name: &'static str) -> ParseLogGroupError {
        ParseLogGroupError::MissingField {
            source: MissingFieldError::new(field_name),
        }
    }

    assert_eq!(
        Err(missing_field_error("arn")),
        CwlGroup::try_from(LogGroupRecord {
            arn: None,
            ..log_group()
        })
    );
    assert_eq!(
        Err(missing_field_error("creation_time")),
        CwlGroup::try_from(LogGroupRecord {
            creation_time: None,
            ..log_group()
        })
    );
    assert_eq!(
        Err(missing_field_error("log_group_name")),
        CwlGroup::try_from(LogGroupRecord {
            log_group_name: None,
            ..log_group()
        })
    );
    // `retention_in_days` is an optional field.
    assert_eq!(
        Err(missing_field_error("stored_bytes")),
        CwlGroup::try_from(LogGroupRecord {
            stored_bytes: None,
            ..log_group()
        })
    );
}

#[test]
fn test_try_from_negative_size() {
    assert_eq!(
        Err(ParseLogGroupError::Size {
            source: SizeError::Negative
        }),
        CwlGroup::try_from(LogGroupRecord {
            stored_bytes: Some(-1),
            ..log_group()
        })
    );
}
