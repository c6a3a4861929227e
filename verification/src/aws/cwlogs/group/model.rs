//! The log-group record and its parsing out of a raw remote record.
use vstd::prelude::*;

use crate::aws::cwlogs::mapper::map_field;
use crate::aws::cwlogs::mapper::map_unix_epoch_millis;
use crate::aws::cwlogs::mapper::DurationDays;
use crate::aws::cwlogs::mapper::Timestamp;
use crate::aws::errors::MissingFieldError;
use crate::aws::Arn;
use crate::collection::store::Keyed;
use crate::order::SortKey;
use crate::order::SortKeyV;
use crate::size::Size;
use crate::size::SizeError;
use crate::text::chars_of;

verus! {

/// Why a raw log-group record could not be parsed.
#[derive(Debug, Clone, PartialEq, Eq)]
pub enum ParseLogGroupError {
    /// A required field was absent.
    MissingField { source: MissingFieldError },
    /// The stored-bytes field was out of range.
    Size { source: SizeError },
}

/// Mathematical view of a parse error.
pub enum ParseLogGroupErrorV {
    MissingField(Seq<char>),
    Size(SizeError),
}

impl View for ParseLogGroupError {
    type V = ParseLogGroupErrorV;

    open spec fn view(&self) -> ParseLogGroupErrorV {
        match self {
            ParseLogGroupError::MissingField { source } => ParseLogGroupErrorV::MissingField(
                source@,
            ),
            ParseLogGroupError::Size { source } => ParseLogGroupErrorV::Size(*source),
        }
    }
}

/// A raw log-group record as the remote listing returns it: every field
/// possibly absent.
#[derive(Debug)]
pub struct LogGroupRecord {
    pub arn: Option<String>,
    pub log_group_name: Option<String>,
    pub creation_time: Option<i64>,
    pub retention_in_days: Option<i64>,
    pub stored_bytes: Option<i64>,
}

/// Mathematical view of a raw record.
pub struct LogGroupRecordV {
    pub arn: Option<Seq<char>>,
    pub log_group_name: Option<Seq<char>>,
    pub creation_time: Option<int>,
    pub retention_in_days: Option<int>,
    pub stored_bytes: Option<int>,
}

impl View for LogGroupRecord {
    type V = LogGroupRecordV;

    open spec fn view(&self) -> LogGroupRecordV {
        LogGroupRecordV {
            arn: match self.arn {
                Some(ref s) => Some(s@),
                None => None,
            },
            log_group_name: match self.log_group_name {
                Some(ref s) => Some(s@),
                None => None,
            },
            creation_time: match self.creation_time {
                Some(t) => Some(t as int),
                None => None,
            },
            retention_in_days: match self.retention_in_days {
                Some(d) => Some(d as int),
                None => None,
            },
            stored_bytes: match self.stored_bytes {
                Some(b) => Some(b as int),
                None => None,
            },
        }
    }
}

impl Default for LogGroupRecord {
    /// A record with every field absent.
    fn default() -> (r: LogGroupRecord)
        ensures
            r@.arn is None,
            r@.log_group_name is None,
            r@.creation_time is None,
            r@.retention_in_days is None,
            r@.stored_bytes is None,
    {
        LogGroupRecord {
            arn: None,
            log_group_name: None,
            creation_time: None,
            retention_in_days: None,
            stored_bytes: None,
        }
    }
}

/// A log group.
#[derive(Debug, Clone, PartialEq, Eq)]
pub struct CwlGroup {
    pub arn: Arn,
    pub creation_time: Timestamp,
    pub group_name: String,
    pub retention: Option<DurationDays>,
    pub stored: Size,
}

/// Mathematical view of a log group.
pub struct CwlGroupV {
    pub arn: Seq<char>,
    pub creation_time: int,
    pub group_name: Seq<char>,
    pub retention: Option<int>,
    pub stored: int,
}

impl View for CwlGroup {
    type V = CwlGroupV;

    open spec fn view(&self) -> CwlGroupV {
        CwlGroupV {
            arn: self.arn@,
            creation_time: self.creation_time.millis as int,
            group_name: self.group_name@,
            retention: match self.retention {
                Some(d) => Some(d.0 as int),
                None => None,
            },
            stored: self.stored@,
        }
    }
}

impl Keyed for CwlGroup {
    /// Groups are keyed by resource name.
    open spec fn pkey(v: CwlGroupV) -> SortKeyV {
        SortKeyV::Text(v.arn)
    }

    fn primary_key(&self) -> (k: SortKey)
        ensures
            k@ == Self::pkey(self@),
    {
        SortKey::Text(chars_of(self.arn.str()))
    }

    fn dup(&self) -> (r: Self)
        ensures
            r@ == self@,
    {
        CwlGroup {
            arn: self.arn.dup(),
            creation_time: self.creation_time,
            group_name: self.group_name.clone(),
            retention: self.retention,
            stored: self.stored,
        }
    }
}

/// What parsing a raw record yields: required fields checked front to back,
/// the optional retention passed through, the stored byte count checked for
/// range.
pub open spec fn spec_group_from(rec: LogGroupRecordV) -> Result<CwlGroupV, ParseLogGroupErrorV> {
    if rec.arn is None {
        Err(ParseLogGroupErrorV::MissingField("arn"@))
    } else if rec.creation_time is None {
        Err(ParseLogGroupErrorV::MissingField("creation_time"@))
    } else if rec.log_group_name is None {
        Err(ParseLogGroupErrorV::MissingField("log_group_name"@))
    } else if rec.stored_bytes is None {
        Err(ParseLogGroupErrorV::MissingField("stored_bytes"@))
    } else if rec.stored_bytes.unwrap() < 0 {
        Err(ParseLogGroupErrorV::Size(SizeError::Negative))
    } else {
        Ok(
            CwlGroupV {
                arn: rec.arn.unwrap(),
                creation_time: rec.creation_time.unwrap(),
                group_name: rec.log_group_name.unwrap(),
                retention: rec.retention_in_days,
                stored: rec.stored_bytes.unwrap(),
            },
        )
    }
}

impl CwlGroup {
    /// Parses a raw record, fail-fast on the first missing or out-of-range
    /// field.
    pub fn try_from(record: LogGroupRecord) -> (r: Result<CwlGroup, ParseLogGroupError>)
        ensures
            match r {
                Ok(g) => spec_group_from(record@) == Ok::<CwlGroupV, ParseLogGroupErrorV>(g@),
                Err(e) => spec_group_from(record@) == Err::<CwlGroupV, ParseLogGroupErrorV>(e@),
            },
    {
        let arn = match map_field(record.arn, "arn") {
            Ok(s) => Arn::from_string(s),
            Err(source) => {
                return Err(ParseLogGroupError::MissingField { source });
            },
        };
        let creation_time = match map_unix_epoch_millis(record.creation_time, "creation_time") {
            Ok(t) => t,
            Err(source) => {
                return Err(ParseLogGroupError::MissingField { source });
            },
        };
        let group_name = match map_field(record.log_group_name, "log_group_name") {
            Ok(s) => s,
            Err(source) => {
                return Err(ParseLogGroupError::MissingField { source });
            },
        };
        let retention = match record.retention_in_days {
            Some(days) => Some(DurationDays::from(days)),
            None => None,
        };
        let stored_raw = match map_field(record.stored_bytes, "stored_bytes") {
            Ok(b) => b,
            Err(source) => {
                return Err(ParseLogGroupError::MissingField { source });
            },
        };
        let stored = match Size::try_from(stored_raw) {
            Ok(s) => s,
            Err(source) => {
                return Err(ParseLogGroupError::Size { source });
            },
        };
        Ok(CwlGroup { arn, creation_time, group_name, retention, stored })
    }
}

} // verus!
