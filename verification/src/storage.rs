//! Failures of the persistence layer, and the rule for updates that change
//! nothing.

use vstd::prelude::*;
use vstd::string::StringExecFns;

verus! {

/// Why a storage operation failed.
#[derive(Debug, Clone, PartialEq, Eq)]
pub enum DatabaseError {
    /// No row matched the predicate.
    NotFound,
    /// A uniqueness constraint rejected the write.
    UniqueViolation,
    /// The update named no field to change, so nothing was written.
    NoFieldsToUpdate,
    /// The storage engine did not answer in time.
    Timeout,
    /// Any other failure, with what is known about it.
    Other(String),
}

impl DatabaseError {
    /// The text that `message` renders: one fixed template for each variant,
    /// with the carried context put in.
    pub open spec fn message_text(self) -> Seq<char> {
        match self {
            DatabaseError::NotFound => "The requested resource was not found in the database"@,
            DatabaseError::UniqueViolation => "A unique constraint violation occurred"@,
            DatabaseError::NoFieldsToUpdate => "No fields were provided to be updated"@,
            DatabaseError::Timeout => "The storage operation timed out"@,
            DatabaseError::Other(context) => "An unknown error occurred: "@ + context@,
        }
    }

    /// Renders the failure for a log line.
    pub fn message(&self) -> (text: String)
        ensures
            text@ == self.message_text(),
    {
        match self {
            DatabaseError::NotFound => String::from_str(
                "The requested resource was not found in the database",
            ),
            DatabaseError::UniqueViolation => String::from_str(
                "A unique constraint violation occurred",
            ),
            DatabaseError::NoFieldsToUpdate => String::from_str(
                "No fields were provided to be updated",
            ),
            DatabaseError::Timeout => String::from_str("The storage operation timed out"),
            DatabaseError::Other(context) => String::from_str("An unknown error occurred: ").concat(
                context.as_str(),
            ),
        }
    }

    /// Whether an update that failed in this way is answered with the entity
    /// it was given: true of `NoFieldsToUpdate` and of nothing else.
    pub fn keeps_entity(&self) -> (keeps: bool)
        ensures
            keeps == (*self == DatabaseError::NoFieldsToUpdate),
    {
        match self {
            DatabaseError::NoFieldsToUpdate => true,
            _ => false,
        }
    }
}

/// What the caller of an update is handed, given the entity as it stood
/// before the update and what the storage layer answered.
pub open spec fn update_outcome<T>(entity: T, attempt: Result<T, DatabaseError>) -> Result<
    T,
    DatabaseError,
> {
    match attempt {
        Ok(updated) => Ok(updated),
        Err(DatabaseError::NoFieldsToUpdate) => Ok(entity),
        Err(failure) => Err(failure),
    }
}

/// Applies the rule for updates that change nothing to the answer of one
/// storage call. A successful update passes through. A failure with
/// `NoFieldsToUpdate` becomes a success that carries `entity`, the very
/// value that was handed in. Every other failure passes through as it came.
pub fn resolve_update<T>(entity: T, attempt: Result<T, DatabaseError>) -> (outcome: Result<
    T,
    DatabaseError,
>)
    ensures
        outcome == update_outcome(entity, attempt),
{
    match attempt {
        Ok(updated) => Ok(updated),
        Err(failure) => {
            if failure.keeps_entity() {
                Ok(entity)
            } else {
                Err(failure)
            }
        },
    }
}

/// Whether `outcome` is what the caller of a count is handed for `answer`:
/// the count itself, or an `Other` whose context names the query and drops
/// the cause.
pub open spec fn is_count_outcome<E>(
    answer: Result<i64, E>,
    outcome: Result<i64, DatabaseError>,
) -> bool {
    match answer {
        Ok(count) => outcome == Ok::<i64, DatabaseError>(count),
        Err(_) => {
            &&& outcome matches Err(DatabaseError::Other(context))
            &&& context@ == "Failed to get a count of payment methods"@
        },
    }
}

/// Classifies the answer of a count query. A count passes through. A failure
/// of any kind becomes `Other` with one fixed context.
pub fn count_outcome<E>(answer: Result<i64, E>) -> (outcome: Result<i64, DatabaseError>)
    ensures
        is_count_outcome(answer, outcome),
{
    match answer {
        Ok(count) => Ok(count),
        Err(_) => Err(
            DatabaseError::Other(String::from_str("Failed to get a count of payment methods")),
        ),
    }
}

/// An update that had nothing to change is answered with the entity it was
/// given, whatever that entity is.
pub proof fn empty_update_yields_entity<T>(entity: T)
    ensures
        update_outcome(entity, Err(DatabaseError::NoFieldsToUpdate)) == Ok::<T, DatabaseError>(
            entity,
        ),
{
}

/// Every failure but `NoFieldsToUpdate` reaches the caller as it came, and
/// so does every success.
pub proof fn other_answers_pass_through<T>(entity: T, attempt: Result<T, DatabaseError>)
    requires
        attempt != Err::<T, DatabaseError>(DatabaseError::NoFieldsToUpdate),
    ensures
        update_outcome(entity, attempt) == attempt,
{
}

/// The rule answers with a failure only where the storage layer failed, and
/// never invents one: a failure that comes out is the failure that went in.
pub proof fn failures_are_never_invented<T>(entity: T, attempt: Result<T, DatabaseError>)
    ensures
        update_outcome(entity, attempt) is Err ==> update_outcome(entity, attempt) == attempt,
{
}

} // verus!
