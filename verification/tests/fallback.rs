use hyperswitch_interfaces::errors::ConnectorError;
use hyperswitch_interfaces::outcome::{ApiErrorResponse, ErrorSwitch};
use hyperswitch_interfaces::storage::{count_outcome, resolve_update, DatabaseError};

#[derive(Debug, Clone, PartialEq)]
struct Entity {
    id: String,
    status: String,
    version: u32,
}

fn stored() -> Entity {
    Entity { id: "pm_1".to_string(), status: "active".to_string(), version: 3u32 }
}

#[test]
fn empty_update_returns_the_given_entity() {
    let given = stored();
    let outcome = resolve_update(given.clone(), Err(DatabaseError::NoFieldsToUpdate));
    assert_eq!(outcome, Ok(given));
}

#[test]
fn successful_update_returns_the_updated_entity() {
    let updated = Entity { id: "pm_1".to_string(), status: "inactive".to_string(), version: 4u32 };
    let outcome = resolve_update(stored(), Ok(updated.clone()));
    assert_eq!(outcome, Ok(updated));
}

#[test]
fn other_failures_propagate_unchanged() {
    assert_eq!(resolve_update(stored(), Err(DatabaseError::NotFound)), Err(DatabaseError::NotFound));
    assert_eq!(
        resolve_update(stored(), Err(DatabaseError::UniqueViolation)),
        Err(DatabaseError::UniqueViolation)
    );
    assert_eq!(resolve_update(stored(), Err(DatabaseError::Timeout)), Err(DatabaseError::Timeout));
    assert_eq!(
        resolve_update(stored(), Err(DatabaseError::Other("pool exhausted".to_string()))),
        Err(DatabaseError::Other("pool exhausted".to_string()))
    );
}

#[test]
fn only_an_empty_update_keeps_the_entity() {
    assert!(DatabaseError::NoFieldsToUpdate.keeps_entity());
    assert!(!DatabaseError::NotFound.keeps_entity());
    assert!(!DatabaseError::UniqueViolation.keeps_entity());
    assert!(!DatabaseError::Timeout.keeps_entity());
    assert!(!DatabaseError::Other("No fields were provided to be updated".to_string())
        .keeps_entity());
}

#[test]
fn the_rule_works_on_any_entity_type() {
    assert_eq!(resolve_update(7u64, Err(DatabaseError::NoFieldsToUpdate)), Ok(7u64));
    assert_eq!(resolve_update((), Err(DatabaseError::NotFound)), Err(DatabaseError::NotFound));
}

#[test]
fn a_count_passes_through() {
    let answer: Result<i64, String> = Ok(12i64);
    assert_eq!(count_outcome(answer), Ok(12i64));
    let none: Result<i64, ()> = Ok(0i64);
    assert_eq!(count_outcome(none), Ok(0i64));
}

#[test]
fn a_failed_count_loses_its_cause() {
    let answer: Result<i64, String> = Err("connection reset".to_string());
    assert_eq!(
        count_outcome(answer),
        Err(DatabaseError::Other("Failed to get a count of payment methods".to_string()))
    );
    let timed_out: Result<i64, DatabaseError> = Err(DatabaseError::Timeout);
    assert_eq!(
        count_outcome(timed_out),
        Err(DatabaseError::Other("Failed to get a count of payment methods".to_string()))
    );
}

#[test]
fn storage_failure_lifts_to_generic_connector_failure() {
    let lifted = DatabaseError::Other("pool exhausted".to_string()).to_connector_error();
    assert_eq!(
        lifted,
        ConnectorError::GenericError {
            error_message: "An unknown error occurred: pool exhausted".to_string(),
            error_object: serde_json::Value::String(
                "An unknown error occurred: pool exhausted".to_string()
            ),
        }
    );
    assert!(!lifted.is_connector_timeout());
    assert_eq!(lifted.switch(), ApiErrorResponse::InternalServerError);
    let not_found = DatabaseError::NotFound.to_connector_error();
    assert_eq!(
        not_found,
        ConnectorError::GenericError {
            error_message: "The requested resource was not found in the database".to_string(),
            error_object: serde_json::Value::String(
                "The requested resource was not found in the database".to_string()
            ),
        }
    );
}
