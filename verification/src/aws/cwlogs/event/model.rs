//! The log-event record and its parsing out of a raw remote record.
use vstd::prelude::*;

use crate::aws::cwlogs::mapper::map_field;
use crate::aws::cwlogs::mapper::map_unix_epoch_millis;
use crate::aws::cwlogs::mapper::Timestamp;
use crate::aws::cwlogs::stream::model::opt_chars;
use crate::aws::cwlogs::stream::model::opt_int;
use crate::aws::errors::MissingFieldError;
use crate::collection::store::Keyed;
use crate::order::SortKey;
use crate::order::SortKeyV;
use crate::text::chars_of;

verus! {

/// Identifier of a log event.
#[derive(Debug, Clone, PartialEq, Eq)]
pub struct EventId(String);

impl View for EventId {
    type V = Seq<char>;

    closed spec fn view(&self) -> Seq<char> {
        self.0@
    }
}

impl EventId {
    /// An identifier from raw text.
    pub fn from(s: &str) -> (r: EventId)
        ensures
            r@ == s@,
    {
        EventId(s.to_owned())
    }

    /// An identifier from an owned string.
    pub fn from_string(s: String) -> (r: EventId)
        ensures
            r@ == s@,
    {
        EventId(s)
    }

    /// The identifier's text.
    pub fn str(&self) -> (r: &str)
        ensures
            r@ == self@,
    {
        self.0.as_str()
    }

    /// A copy with the same view.
    pub fn dup(&self) -> (r: EventId)
        ensures
            r@ == self@,
    {
        EventId(self.0.clone())
    }
}

/// Why a raw log-event record could not be parsed.
#[derive(Debug, Clone, PartialEq, Eq)]
pub enum ParseLogEventError {
    /// A required field was absent.
    MissingField { source: MissingFieldError },
}

impl View for ParseLogEventError {
    type V = Seq<char>;

    open spec fn view(&self) -> Seq<char> {
        match self {
            ParseLogEventError::MissingField { source } => source@,
        }
    }
}

/// A raw log-event record as the remote listing returns it.
#[derive(Debug)]
pub struct FilteredLogEventRecord {
    pub event_id: Option<String>,
    pub ingestion_time: Option<i64>,
    pub log_stream_name: Option<String>,
    pub message: Option<String>,
    pub timestamp: Option<i64>,
}

/// A log event.
#[derive(Debug, Clone, PartialEq, Eq)]
pub struct CwlEvent {
    pub event_id: EventId,
    pub ingestion_time: Timestamp,
    pub stream_name: String,
    pub message: String,
    pub event_time: Timestamp,
}

/// Mathematical view of a log event.
pub struct CwlEventV {
    pub event_id: Seq<char>,
    pub ingestion_time: int,
    pub stream_name: Seq<char>,
    pub message: Seq<char>,
    pub event_time: int,
}

impl View for CwlEvent {
    type V = CwlEventV;

    open spec fn view(&self) -> CwlEventV {
        CwlEventV {
            event_id: self.event_id@,
            ingestion_time: self.ingestion_time.millis as int,
            stream_name: self.stream_name@,
            message: self.message@,
            event_time: self.event_time.millis as int,
        }
    }
}

impl Keyed for CwlEvent {
    /// Events are keyed by identifier.
    open spec fn pkey(v: CwlEventV) -> SortKeyV {
        SortKeyV::Text(v.event_id)
    }

    fn primary_key(&self) -> (k: SortKey)
        ensures
            k@ == Self::pkey(self@),
    {
        SortKey::Text(chars_of(self.event_id.str()))
    }

    fn dup(&self) -> (r: Self)
        ensures
            r@ == self@,
    {
        CwlEvent {
            event_id: self.event_id.dup(),
            ingestion_time: self.ingestion_time,
            stream_name: self.stream_name.clone(),
            message: self.message.clone(),
            event_time: self.event_time,
        }
    }
}

/// What parsing a raw event record yields: required fields checked front to
/// back.
pub open spec fn spec_event_from(
    event_id: Option<Seq<char>>,
    ingestion: Option<int>,
    name: Option<Seq<char>>,
    message: Option<Seq<char>>,
    timestamp: Option<int>,
) -> Result<CwlEventV, Seq<char>> {
    if event_id is None {
        Err("event_id"@)
    } else if ingestion is None {
        Err("ingestion_time"@)
    } else if name is None {
        Err("log_stream_name"@)
    } else if message is None {
        Err("message"@)
    } else if timestamp is None {
        Err("timestamp"@)
    } else {
        Ok(
            CwlEventV {
                event_id: event_id.unwrap(),
                ingestion_time: ingestion.unwrap(),
                stream_name: name.unwrap(),
                message: message.unwrap(),
                event_time: timestamp.unwrap(),
            },
        )
    }
}

impl CwlEvent {
    /// Parses a raw record, fail-fast on the first missing field.
    pub fn try_from(record: FilteredLogEventRecord) -> (r: Result<CwlEvent, ParseLogEventError>)
        ensures
            match r {
                Ok(e) => spec_event_from(
                    opt_chars(record.event_id),
                    opt_int(record.ingestion_time),
                    opt_chars(record.log_stream_name),
                    opt_chars(record.message),
                    opt_int(record.timestamp),
                ) == Ok::<CwlEventV, Seq<char>>(e@),
                Err(e) => spec_event_from(
                    opt_chars(record.event_id),
                    opt_int(record.ingestion_time),
                    opt_chars(record.log_stream_name),
                    opt_chars(record.message),
                    opt_int(record.timestamp),
                ) == Err::<CwlEventV, Seq<char>>(e@),
            },
    {
        let event_id = match map_field(record.event_id, "event_id") {
            Ok(s) => EventId::from_string(s),
            Err(source) => {
                return Err(ParseLogEventError::MissingField { source });
            },
        };
        let ingestion_time = match map_unix_epoch_millis(record.ingestion_time, "ingestion_time") {
            Ok(t) => t,
            Err(source) => {
                return Err(ParseLogEventError::MissingField { source });
            },
        };
        let stream_name = match map_field(record.log_stream_name, "log_stream_name") {
            Ok(s) => s,
            Err(source) => {
                return Err(ParseLogEventError::MissingField { source });
            },
        };
        let message = match map_field(record.message, "message") {
            Ok(s) => s,
            Err(source) => {
                return Err(ParseLogEventError::MissingField { source });
            },
        };
        let event_time = match map_unix_epoch_millis(record.timestamp, "timestamp") {
            Ok(t) => t,
            Err(source) => {
                return Err(ParseLogEventError::MissingField { source });
            },
        };
        Ok(CwlEvent { event_id, ingestion_time, stream_name, message, event_time })
    }
}

} // verus!
