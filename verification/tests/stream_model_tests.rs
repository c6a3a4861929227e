use razy_cwlogs::aws::cwlogs::mapper::Timestamp;
use razy_cwlogs::aws::cwlogs::stream::model::CwlStream;
use razy_cwlogs::aws::cwlogs::stream::model::LogStreamRecord;
use razy_cwlogs::aws::cwlogs::stream::model::ParseLogStreamError;
use razy_cwlogs::aws::errors::MissingFieldError;
use razy_cwlogs::aws::Arn;

fn log_stream() -> LogStreamRecord {
    let s = |s: &str| s.to_string();
    LogStreamRecord {
        arn: Some(s(
            "arn:aws:logs:ap-northeast-1:000000000000:log-group:LOG-GROUP:log-stream:LOG-STREAM",
        )),
        creation_time: Some(1604316153000), // 2020-11-02T11:22:33
        log_stream_name: Some(s("LOG-STREAM")),
        first_event_timestamp: Some(1604316153001), // 2020-11-02T11:22:33.001
        last_event_timestamp: Some(1604316153002),  // 2020-11-02T11:22:33.002
        last_ingestion_time: Some(1604316153003),   // 2020-11-02T11:22:33.003
    }
}

#[test]
fn model_test_try_from_success() {
    assert_eq!(
        Ok(CwlStream {
            arn: Arn::from(
                "arn:aws:logs:ap-northeast-1:000000000000:log-group:LOG-GROUP:log-stream:LOG-STREAM"
            ),
            creation_time: Timestamp::new(1604316153000),
            stream_name: String::from("LOG-STREAM"),
            first_event_time: Timestamp::new(1604316153001),
            last_event_time: Timestamp::new(1604316153002),
            last_ingestion_time: Timestamp::new(1604316153003),
        }),
        CwlStream::try_from(log_stream()),
    );
}

#[test]
fn model_test_try_from_error() {
    fn missing_field_error(field_name: &'static str) -> ParseLogStreamError {
        ParseLogStreamError::MissingField {
            source: MissingFieldError::new(field_name),
        }
    }

    assert_eq!(
        Err(missing_field_error("arn")),
        CwlStream::try_from(LogStreamRecord {
            arn: None,
            ..log_stream()
        })
    );
    assert_eq!(
        Err(missing_field_error("creation_time")),
        CwlStream::try_from(LogStreamRecord {
            creation_time: None,
            ..log_stream()
        })
    );
    assert_eq!(
        Err(missing_field_error("log_stream_name")),
        CwlStream::try_from(LogStreamRecord {
            log_stream_name: None,
            ..log_stream()
        })
    );
    assert_eq!(
        Err(missing_field_error("first_event_timestamp")),
        CwlStream::try_from(LogStreamRecord {
            first_event_timestamp: None,
            ..log_stream()
        })
    );
    assert_eq!(
        Err(missing_field_error("last_event_timestamp")),
        CwlStream::try_from(LogStreamRecord {
            last_event_timestamp: None,
            ..log_stream()
        })
    );
    assert_eq!(
        Err(missing_field_error("last_ingestion_time")),
        CwlStream::try_from(LogStreamRecord {
            last_ingestion_time: None,
            ..log_stream()
        })
    );
}
