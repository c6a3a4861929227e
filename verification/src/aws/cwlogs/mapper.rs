//! Mapping of optional remote record fields into required values.
use vstd::prelude::*;

use crate::aws::errors::MissingFieldError;
use vstd::std_specs::convert::FromSpec;

verus! {

/// A required field: present, or a `MissingFieldError` naming it.
pub fn map_field<T>(maybe_field: Option<T>, field_name: &'static str) -> (r: Result<
    T,
    MissingFieldError,
>)
    ensures
        match maybe_field {
            Some(f) => r == Ok::<T, MissingFieldError>(f),
            None => (r matches Err(e) && e@ == field_name@),
        },
{
    if let Some(f) = maybe_field {
        Ok(f)
    } else {
        Err(MissingFieldError::new(field_name))
    }
}

/// A required string field, converted into its owning type. When the
/// conversion obeys its specification, the result is pinned exactly.
pub fn map_string_field<T: From<String>>(
    maybe_field: Option<String>,
    field_name: &'static str,
) -> (r: Result<T, MissingFieldError>)
    ensures
        match maybe_field {
            Some(s) => (r matches Ok(v) && (T::obeys_from_spec() ==> v == T::from_spec(s))),
            None => (r matches Err(e) && e@ == field_name@),
        },
{
    let s = match map_field(maybe_field, field_name) {
        Ok(s) => s,
        Err(e) => {
            return Err(e);
        },
    };
    Ok(T::from(s))
}

/// An instant in time, as milliseconds since the unix epoch.
#[derive(Debug, Clone, Copy, PartialEq, Eq, Structural)]
pub struct Timestamp {
    pub millis: i64,
}

impl Timestamp {
    pub fn new(millis: i64) -> (r: Timestamp)
        ensures
            r.millis == millis,
    {
        Timestamp { millis }
    }
}

/// A required unix-epoch-milliseconds field.
pub fn map_unix_epoch_millis(maybe_field: Option<i64>, field_name: &'static str) -> (r: Result<
    Timestamp,
    MissingFieldError,
>)
    ensures
        match maybe_field {
            Some(ms) => r == Ok::<Timestamp, MissingFieldError>(Timestamp { millis: ms }),
            None => (r matches Err(e) && e@ == field_name@),
        },
{
    let ms = match map_field(maybe_field, field_name) {
        Ok(ms) => ms,
        Err(e) => {
            return Err(e);
        },
    };
    Ok(Timestamp::new(ms))
}

/// A retention period counted in days.
#[derive(Debug, Clone, Copy, PartialEq, Eq, Structural)]
pub struct DurationDays(pub i64);

impl DurationDays {
    /// A period from a raw day count.
    pub fn from(days: i64) -> (r: DurationDays)
        ensures
            r.0 == days,
    {
        DurationDays(days)
    }

    /// The period in seconds.
    pub fn as_duration(&self) -> (r: u64)
        requires
            0 <= self.0,
            self.0 * 86400 <= u64::MAX,
        ensures
            r == self.0 * 86400,
    {
        (self.0 as u64) * 86400
    }
}

} // verus!
