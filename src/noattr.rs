//! Turning the platform's "no such attribute" failure into an absent value.
use vstd::prelude::*;

verus! {

#[verifier::external_type_specification]
#[verifier::external_body]
pub struct ExIoError(std::io::Error);

/// The OS error code that `e` carries, if it came from the OS.
pub uninterp spec fn os_code_of(e: std::io::Error) -> Option<i32>;

/// Relies on `std::io::Error::raw_os_error`: it reads the OS error code that
/// the error carries, if any, and so depends on the error alone.
pub assume_specification[ std::io::Error::raw_os_error ](e: &std::io::Error) -> (r: Option<
    i32,
>)
    ensures
        r == os_code_of(*e),
;

/// The OS error code of a read's failure; none where the read succeeded.
pub open spec fn failure_code(result: Result<Vec<u8>, std::io::Error>) -> Option<i32> {
    match result {
        Ok(_) => None,
        Err(e) => os_code_of(e),
    }
}

/// The outcome of a read once a failure carrying `code`, the error code of
/// the failure, is compared with `noattr`, the "no such attribute" code: data
/// is present, a failure with that code means absent, and any other failure
/// stays as it was.
pub open spec fn classified(
    result: Result<Vec<u8>, std::io::Error>,
    code: Option<i32>,
    noattr: i32,
) -> Result<Option<Vec<u8>>, std::io::Error> {
    match result {
        Ok(v) => Ok(Some(v)),
        Err(e) => if code == Some(noattr) {
            Ok(None)
        } else {
            Err(e)
        },
    }
}

/// Classifies `result`, where `code` is the OS error code of its failure (if
/// it failed) and `noattr` is the code that means "no such attribute".
pub fn classify_noattr(
    result: Result<Vec<u8>, std::io::Error>,
    code: Option<i32>,
    noattr: i32,
) -> (r: Result<Option<Vec<u8>>, std::io::Error>)
    ensures
        r == classified(result, code, noattr),
{
    match result {
        Ok(v) => Ok(Some(v)),
        Err(e) => {
            if code == Some(noattr) {
                Ok(None)
            } else {
                Err(e)
            }
        },
    }
}

/// Maps a read's outcome to present data, absent (the failure carried the
/// code `noattr`, which the target uses for "no such attribute"), or the
/// original failure.
pub fn extract_noattr(result: Result<Vec<u8>, std::io::Error>, noattr: i32) -> (r: Result<
    Option<Vec<u8>>,
    std::io::Error,
>)
    ensures
        r == classified(result, failure_code(result), noattr),
{
    let code = match &result {
        Ok(_) => None,
        Err(e) => e.raw_os_error(),
    };
    classify_noattr(result, code, noattr)
}

/// A failure whose code is the "no such attribute" code is classified as
/// absent, never as a failure.
pub proof fn lemma_noattr_is_absent(e: std::io::Error, noattr: i32)
    ensures
        classified(Err(e), Some(noattr), noattr) == Ok::<Option<Vec<u8>>, std::io::Error>(None),
{
}

/// Data, and a failure with any other code (or with none), come back as they
/// were: the data as present, the failure unchanged.
pub proof fn lemma_others_unchanged(
    result: Result<Vec<u8>, std::io::Error>,
    code: Option<i32>,
    noattr: i32,
)
    requires
        result is Ok || code != Some(noattr),
    ensures
        classified(result, code, noattr) == match result {
            Ok(v) => Ok::<Option<Vec<u8>>, std::io::Error>(Some(v)),
            Err(e) => Err(e),
        },
{
}

} // verus!
