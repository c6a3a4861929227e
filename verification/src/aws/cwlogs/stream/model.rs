//! The log-stream record and its parsing out of a raw remote record.
use vstd::prelude::*;

use crate::aws::cwlogs::mapper::map_field;
use crate::aws::cwlogs::mapper::map_unix_epoch_millis;
use crate::aws::cwlogs::mapper::Timestamp;
use crate::aws::errors::MissingFieldError;
use crate::aws::Arn;
use crate::collection::store::Keyed;
use crate::order::SortKey;
use crate::order::SortKeyV;
use crate::text::chars_of;

verus! {

/// Why a raw log-stream record could not be parsed.
#[derive(Debug, Clone, PartialEq, Eq)]
pub enum ParseLogStreamError {
    /// A required field was absent.
    MissingField { source: MissingFieldError },
}

impl View for ParseLogStreamError {
    type V = Seq<char>;

    open spec fn view(&self) -> Seq<char> {
        match self {
            ParseLogStreamError::MissingField { source } => source@,
        }
    }
}

/// A raw log-stream record as the remote listing returns it.
#[derive(Debug)]
pub struct LogStreamRecord {
    pub arn: Option<String>,
    pub log_stream_name: Option<String>,
    pub creation_time: Option<i64>,
    pub first_event_timestamp: Option<i64>,
    pub last_event_timestamp: Option<i64>,
    pub last_ingestion_time: Option<i64>,
}

impl Default for LogStreamRecord {
    /// A record with every field absent.
    fn default() -> (r: LogStreamRecord)
        ensures
            r.arn is None,
            r.log_stream_name is None,
            r.creation_time is None,
            r.first_event_timestamp is None,
            r.last_event_timestamp is None,
            r.last_ingestion_time is None,
    {
        LogStreamRecord {
            arn: None,
            log_stream_name: None,
            creation_time: None,
            first_event_timestamp: None,
            last_event_timestamp: None,
            last_ingestion_time: None,
        }
    }
}

/// A log stream.
#[derive(Debug, Clone, PartialEq, Eq)]
pub struct CwlStream {
    pub arn: Arn,
    pub creation_time: Timestamp,
    pub stream_name: String,
    pub first_event_time: Timestamp,
    pub last_event_time: Timestamp,
    pub last_ingestion_time: Timestamp,
}

/// Mathematical view of a log stream.
pub struct CwlStreamV {
    pub arn: Seq<char>,
    pub creation_time: int,
    pub stream_name: Seq<char>,
    pub first_event_time: int,
    pub last_event_time: int,
    pub last_ingestion_time: int,
}

impl View for CwlStream {
    type V = CwlStreamV;

    open spec fn view(&self) -> CwlStreamV {
        CwlStreamV {
            arn: self.arn@,
            creation_time: self.creation_time.millis as int,
            stream_name: self.stream_name@,
            first_event_time: self.first_event_time.millis as int,
            last_event_time: self.last_event_time.millis as int,
            last_ingestion_time: self.last_ingestion_time.millis as int,
        }
    }
}

impl Keyed for CwlStream {
    /// Streams are keyed by resource name.
    open spec fn pkey(v: CwlStreamV) -> SortKeyV {
        SortKeyV::Text(v.arn)
    }

    fn primary_key(&self) -> (k: SortKey)
        ensures
            k@ == Self::pkey(self@),
    {
        SortKey::Text(chars_of(self.arn.str()))
    }

    fn dup(&self) -> (r: Self)
        ensures
            r@ == self@,
    {
        CwlStream {
            arn: self.arn.dup(),
            creation_time: self.creation_time,
            stream_name: self.stream_name.clone(),
            first_event_time: self.first_event_time,
            last_event_time: self.last_event_time,
            last_ingestion_time: self.last_ingestion_time,
        }
    }
}

/// What parsing a raw stream record yields: required fields checked front to
/// back.
pub open spec fn spec_stream_from(
    arn: Option<Seq<char>>,
    name: Option<Seq<char>>,
    creation: Option<int>,
    first: Option<int>,
    last: Option<int>,
    ingestion: Option<int>,
) -> Result<CwlStreamV, Seq<char>> {
    if arn is None {
        Err("arn"@)
    } else if creation is None {
        Err("creation_time"@)
    } else if name is None {
        Err("log_stream_name"@)
    } else if first is None {
        Err("first_event_timestamp"@)
    } else if last is None {
        Err("last_event_timestamp"@)
    } else if ingestion is None {
        Err("last_ingestion_time"@)
    } else {
        Ok(
            CwlStreamV {
                arn: arn.unwrap(),
                creation_time: creation.unwrap(),
                stream_name: name.unwrap(),
                first_event_time: first.unwrap(),
                last_event_time: last.unwrap(),
                last_ingestion_time: ingestion.unwrap(),
            },
        )
    }
}

/// The view of an optional string field.
pub open spec fn opt_chars(s: Option<String>) -> Option<Seq<char>> {
    match s {
        Some(ref x) => Some(x@),
        None => None,
    }
}

/// The view of an optional integer field.
pub open spec fn opt_int(s: Option<i64>) -> Option<int> {
    match s {
        Some(x) => Some(x as int),
        None => None,
    }
}

impl CwlStream {
    /// Parses a raw record, fail-fast on the first missing field.
    pub fn try_from(record: LogStreamRecord) -> (r: Result<CwlStream, ParseLogStreamError>)
        ensures
            match r {
                Ok(s) => spec_stream_from(
                    opt_chars(record.arn),
                    opt_chars(record.log_stream_name),
                    opt_int(record.creation_time),
                    opt_int(record.first_event_timestamp),
                    opt_int(record.last_event_timestamp),
                    opt_int(record.last_ingestion_time),
                ) == Ok::<CwlStreamV, Seq<char>>(s@),
                Err(e) => spec_stream_from(
                    opt_chars(record.arn),
                    opt_chars(record.log_stream_name),
                    opt_int(record.creation_time),
                    opt_int(record.first_event_timestamp),
                    opt_int(record.last_event_timestamp),
                    opt_int(record.last_ingestion_time),
                ) == Err::<CwlStreamV, Seq<char>>(e@),
            },
    {
        let arn = match map_field(record.arn, "arn") {
            Ok(s) => Arn::from_string(s),
            Err(source) => {
                return Err(ParseLogStreamError::MissingField { source });
            },
        };
        let creation_time = match map_unix_epoch_millis(record.creation_time, "creation_time") {
            Ok(t) => t,
            Err(source) => {
                return Err(ParseLogStreamError::MissingField { source });
            },
        };
        let stream_name = match map_field(record.log_stream_name, "log_stream_name") {
            Ok(s) => s,
            Err(source) => {
                return Err(ParseLogStreamError::MissingField { source });
            },
        };
        let first_event_time = match map_unix_epoch_millis(
            record.first_event_timestamp,
            "first_event_timestamp",
        ) {
            Ok(t) => t,
            Err(source) => {
                return Err(ParseLogStreamError::MissingField { source });
            },
        };
        let last_event_time = match map_unix_epoch_millis(
            record.last_event_timestamp,
            "last_event_timestamp",
        ) {
            Ok(t) => t,
            Err(source) => {
                return Err(ParseLogStreamError::MissingField { source });
            },
        };
        let last_ingestion_time = match map_unix_epoch_millis(
            record.last_ingestion_time,
            "last_ingestion_time",
        ) {
            Ok(t) => t,
            Err(source) => {
                return Err(ParseLogStreamError::MissingField { source });
            },
        };
        Ok(
            CwlStream {
                arn,
                creation_time,
                stream_name,
                first_event_time,
                last_event_time,
                last_ingestion_time,
            },
        )
    }
}

} // verus!
