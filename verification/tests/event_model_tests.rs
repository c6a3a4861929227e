use razy_cwlogs::aws::cwlogs::event::model::CwlEvent;
use razy_cwlogs::aws::cwlogs::event::model::EventId;
use razy_cwlogs::aws::cwlogs::event::model::FilteredLogEventRecord;
use razy_cwlogs::aws::cwlogs::event::model::ParseLogEventError;
use razy_cwlogs::aws::cwlogs::mapper::Timestamp;
use razy_cwlogs::aws::errors::MissingFieldError;

fn log_event() -> FilteredLogEventRecord {
    let s = |s: &str| s.to_string();
    FilteredLogEventRecord {
        event_id: Some(s("EVENT-ID")),
        ingestion_time: Some(1604316153000), // 2020-11-02T11:22:33
        log_stream_name: Some(s("STREAM-NAME")),
        message: Some(s("MESSAGE")),
        timestamp: Some(1604316153111), // 2020-11-02T11:22:33.111
    }
}

#[test]
fn event_model_test_try_from_success() {
    assert_eq!(
        Ok(CwlEvent {
            event_id: EventId::from("EVENT-ID"),
            ingestion_time: Timestamp::new(1604316153000),
            stream_name: String::from("STREAM-NAME"),
            message: String::from("MESSAGE"),
            event_time: Timestamp::new(1604316153111),
        }),
        CwlEvent::try_from(log_event())
    )
}

#[test]
fn event_model_test_try_from_error() {
    fn missing_field_error(field_name: &'static str) -> ParseLogEventError {
        ParseLogEventError::MissingField {
            source: MissingFieldError::new(field_name),
        }
    }

    assert_eq!(
        Err(missing_field_error("event_id")),
        CwlEvent::try_from(FilteredLogEventRecord {
            event_id: None,
            ..log_event()
        })
    );
    assert_eq!(
        Err(missing_field_error("ingestion_time")),
        CwlEvent::try_from(FilteredLogEventRecord {
            ingestion_time: None,
            ..log_event()
        })
    );
    assert_eq!(
        Err(missing_field_error("log_stream_name")),
        CwlEvent::try_from(FilteredLogEventRecord {
            log_stream_name: None,
            ..log_event()
        })
    );
    assert_eq!(
        Err(missing_field_error("message")),
        CwlEvent::try_from(FilteredLogEventRecord {
            message: None,
            ..log_event()
        })
    );
    assert_eq!(
        Err(missing_field_error("timestamp")),
        CwlEvent::try_from(FilteredLogEventRecord {
            timestamp: None,
            ..log_event()
        })
    );
}
