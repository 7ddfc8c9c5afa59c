//! The input rules that the account services share, and how their failures
//! are worded.

use vstd::prelude::*;
use vstd::string::StringExecFns;

verus! {

/// Whether an outcome of an account service is the expected one: success, or
/// a failure with the expected wording.
pub open spec fn said(outcome: Result<(), String>, expected: Result<(), Seq<char>>) -> bool {
    match (outcome, expected) {
        (Ok(_), Ok(_)) => true,
        (Err(message), Err(wording)) => message@ == wording,
        _ => false,
    }
}

/// Success where the condition holds, otherwise the given failure.
pub open spec fn spec_require(condition: bool, wording: Seq<char>) -> Result<(), Seq<char>> {
    if condition {
        Ok(())
    } else {
        Err(wording)
    }
}

/// Succeeds where the condition holds, and fails with the given wording
/// where it does not.
pub fn require(condition: bool, wording: &str) -> (outcome: Result<(), String>)
    ensures
        said(outcome, spec_require(condition, wording@)),
        outcome is Ok == condition,
{
    if condition {
        Ok(())
    } else {
        Err(String::from_str(wording))
    }
}

/// What a delete reports: the record, named by `what`, was not found where no
/// row went; otherwise that it is gone.
pub open spec fn spec_deleted(what: Seq<char>, id: Seq<char>, rows_affected: u64) -> Result<
    Seq<char>,
    Seq<char>,
> {
    if rows_affected == 0 {
        Err(what + " not found"@)
    } else {
        Ok(what + " "@ + id + " deleted successfully"@)
    }
}

/// Words the outcome of a delete from the number of rows that went.
pub fn deleted(what: &str, id: &str, rows_affected: u64) -> (outcome: Result<String, String>)
    ensures
        match (outcome, spec_deleted(what@, id@, rows_affected)) {
            (Ok(message), Ok(wording)) => message@ == wording,
            (Err(message), Err(wording)) => message@ == wording,
            _ => false,
        },
{
    if rows_affected == 0 {
        Err(String::from_str(what).concat(" not found"))
    } else {
        Ok(String::from_str(what).concat(" ").concat(id).concat(" deleted successfully"))
    }
}

/// The row that a lookup found, or the failure that the record, named by
/// `what`, was not found.
pub fn found<T>(what: &str, row: Option<T>) -> (outcome: Result<T, String>)
    ensures
        match row {
            Some(value) => outcome == Ok::<T, String>(value),
            None => outcome is Err && outcome->Err_0@ == what@ + " not found"@,
        },
{
    match row {
        Some(value) => Ok(value),
        None => Err(String::from_str(what).concat(" not found")),
    }
}

} // verus!
