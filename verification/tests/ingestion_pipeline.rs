use pulsemetrics_backend::error::AppError;
use pulsemetrics_backend::event::{Event, EventBatch, FieldRule, ValidationFailure};
use pulsemetrics_backend::ingestion::{bulk_insert_sql, failure_message, ingest_precheck};
use pulsemetrics_backend::event::IngestionResponse;
use pulsemetrics_backend::ACCEPTED_STATUS;

fn event(project_id: &str, event_type: &str) -> Event {
    Event {
        id: uuid::Uuid::new_v4().as_u128(),
        time: chrono::Utc::now().timestamp_micros(),
        project_id: project_id.to_string(),
        event_type: event_type.to_string(),
        properties: None,
        user_id: None,
        session_id: None,
        value_bits: None,
    }
}

#[test]
fn test_precheck_accepts_valid_batch() {
    let batch = EventBatch::new(vec![event("demo", "click")]);
    assert!(ingest_precheck(&batch, 1000).is_ok());
}

#[test]
fn test_precheck_rejects_invalid_batch_as_validation_error() {
    let batch = EventBatch::new(vec![event("demo", "")]);
    match ingest_precheck(&batch, 1000) {
        Err(AppError::Validation(d)) => {
            assert_eq!(d, "event 0: event_type length must be between 1 and 50");
        }
        _ => panic!("expected Validation error"),
    }
}

#[test]
fn test_precheck_rejects_oversize_batch_as_bad_request() {
    // Every event is valid, only the configured ceiling is exceeded.
    let batch = EventBatch::new((0..6).map(|_| event("demo", "click")).collect());
    match ingest_precheck(&batch, 5) {
        Err(e @ AppError::BadRequest(_)) => {
            assert_eq!(e.status_code(), 400);
            assert_eq!(e.message(), "Batch size 6 exceeds maximum of 5");
        }
        _ => panic!("expected BadRequest"),
    }
}

#[test]
fn test_overlong_batch_rejected_before_any_insert() {
    // 1001 individually valid events: validation itself rejects the batch, so
    // the pipeline never reaches the datastore.
    let batch = EventBatch::new((0..1001).map(|_| event("demo", "click")).collect());
    match ingest_precheck(&batch, 1000) {
        Err(e @ AppError::Validation(_)) => {
            assert_eq!(e.status_code(), 400);
            assert_eq!(e.message(), "events: batch length must be between 1 and 1000");
        }
        _ => panic!("expected Validation error"),
    }
}

#[test]
fn test_single_event_accepted_with_count_one() {
    let batch = EventBatch::new(vec![event("demo", "click")]);
    assert!(ingest_precheck(&batch, 1000).is_ok());
    let response = IngestionResponse::new(batch.len());
    assert_eq!(response.accepted, 1);
    assert!(response.timestamp_micros > 0);
    assert_eq!(ACCEPTED_STATUS, 202);
}

#[test]
fn test_failure_messages() {
    assert_eq!(
        failure_message(ValidationFailure::BatchLength),
        "events: batch length must be between 1 and 1000"
    );
    assert_eq!(
        failure_message(ValidationFailure::Field(12, FieldRule::ProjectIdLength)),
        "event 12: project_id length must be between 1 and 100"
    );
    assert_eq!(
        failure_message(ValidationFailure::Field(0, FieldRule::UserIdLength)),
        "event 0: user_id length must be at most 100"
    );
}

#[test]
fn test_bulk_insert_sql_one_row() {
    assert_eq!(
        bulk_insert_sql(1),
        "INSERT INTO events (id, time, project_id, event_type, properties, user_id, session_id, value) \
         VALUES ($1, $2, $3, $4, $5, $6, $7, $8)"
    );
}

#[test]
fn test_bulk_insert_sql_two_rows() {
    assert_eq!(
        bulk_insert_sql(2),
        "INSERT INTO events (id, time, project_id, event_type, properties, user_id, session_id, value) \
         VALUES ($1, $2, $3, $4, $5, $6, $7, $8), ($9, $10, $11, $12, $13, $14, $15, $16)"
    );
}

#[test]
fn test_bulk_insert_sql_matches_reference_builder() {
    for n in [1usize, 2, 3, 17, 1000] {
        let mut builder: sqlx::QueryBuilder<sqlx::Postgres> = sqlx::QueryBuilder::new(
            "INSERT INTO events (id, time, project_id, event_type, properties, user_id, session_id, value) ",
        );
        builder.push_values(0..n, |mut row, _| {
            row.push_bind(0i64)
                .push_bind(0i64)
                .push_bind("p")
                .push_bind("t")
                .push_bind(None::<String>)
                .push_bind(None::<String>)
                .push_bind(None::<i64>)
                .push_bind(None::<f64>);
        });
        assert_eq!(bulk_insert_sql(n), builder.sql().as_str());
    }
}
