use vstd::prelude::*;
use crate::error::ScaffoldError;

verus! {

#[verifier::external_type_specification]
#[verifier::external_body]
pub struct ExOffsetDateTime(time::OffsetDateTime);

#[verifier::external_type_specification]
#[verifier::external_body]
pub struct ExIndeterminateOffset(time::error::IndeterminateOffset);

/// Relies on time's `OffsetDateTime::now_local`: the current time in the local offset,
/// or an error where that offset cannot be found. Nothing is promised of the value.
pub assume_specification[ time::OffsetDateTime::now_local ]() -> Result<
    time::OffsetDateTime,
    time::error::IndeterminateOffset,
>;

/// Relies on time's `OffsetDateTime::year`: a year lies within the crate's date range,
/// which is at most six digits either side of zero.
pub assume_specification[ time::OffsetDateTime::year ](t: time::OffsetDateTime) -> (r: i32)
    ensures
        -999_999 <= r <= 999_999,
;

/// The current calendar year in the local time zone.
pub fn current_year() -> (r: Result<i32, ScaffoldError>)
    ensures
        r is Err ==> r->Err_0 is NoLocalTime,
        r is Ok ==> -999_999 <= r->Ok_0 <= 999_999,
{
    match time::OffsetDateTime::now_local() {
        Ok(now) => Ok(now.year()),
        Err(_) => Err(ScaffoldError::NoLocalTime),
    }
}

} // verus!
