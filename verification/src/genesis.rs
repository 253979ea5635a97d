//! The arguments of pool creation as they arrive from the C side.
use crate::error::{Failure, FailureKind, FailureView};
use ffi_support::FfiStr;
use vstd::prelude::*;

verus! {

/// `ffi_support::FfiStr`, a C string as it is passed into a boundary function.
/// Nothing of what it points to is visible here.
#[verifier::external_type_specification]
#[verifier::external_body]
pub struct ExFfiStr<'a>(FfiStr<'a>);

/// `FfiStr::as_opt_str` reads the string behind the pointer. It answers `None`
/// for a null pointer and for bytes that are no UTF-8. What it answers depends
/// on the caller's memory, so nothing is claimed of the result.
pub assume_specification<'a>[ FfiStr::<'a>::as_opt_str ](s: &FfiStr<'a>) -> (text: Option<
    &'a str,
>)
;

/// The refusal of a call that gives no place for its result.
pub open spec fn missing_result_place() -> FailureView {
    FailureView { kind: FailureKind::Input, message: "Invalid pointer for result value"@ }
}

/// The refusal of a string argument that is null or no UTF-8.
pub open spec fn unreadable_text() -> FailureView {
    FailureView {
        kind: FailureKind::Invariant,
        message: "Unexpected null string pointer passed to rust"@,
    }
}

/// A string argument that must be there: the text itself, or the refusal of
/// the call where there is none.
pub fn required_text<'a>(text: Option<&'a str>) -> (res: Result<&'a str, Failure>)
    ensures
        match text {
            Some(t) => res == Ok::<&str, Failure>(t),
            None => res matches Err(failure) && failure@ == unreadable_text(),
        },
{
    match text {
        Some(t) => Ok(t),
        None => Err(
            Failure::with_text(
                FailureKind::Invariant,
                "Unexpected null string pointer passed to rust",
            ),
        ),
    }
}

/// Checks the arguments of pool creation and reads the path of the genesis
/// file. A call without a place for the handle is refused first, and the path
/// is then not read; a path that cannot be read is refused next.
pub fn genesis_path<'a>(path: &FfiStr<'a>, has_result_place: bool) -> (res: Result<
    &'a str,
    Failure,
>)
    ensures
        !has_result_place ==> (res matches Err(failure) && failure@ == missing_result_place()),
        has_result_place ==> match res {
            Ok(_) => true,
            Err(failure) => failure@ == unreadable_text(),
        },
{
    if !has_result_place {
        return Err(Failure::with_text(FailureKind::Input, "Invalid pointer for result value"));
    }
    required_text(path.as_opt_str())
}

} // verus!
