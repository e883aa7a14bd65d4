//! The ingestion pipeline's decisions: after parsing, a batch is validated,
//! checked against the configured maximum batch size, and only then handed to
//! the bulk insert; every failure is a typed error. The multi-row insert
//! statement covering a whole batch in one round trip is built here too.

use crate::error::AppError;
use crate::event::{
    spec_batch_valid, spec_event_blame, spec_event_valid, Event, EventBatch, FieldRule,
    ValidationFailure, MAX_BATCH_LEN, MIN_BATCH_LEN,
};
use crate::render::{push_char, spec_dec_digits, usize_dec};
use vstd::prelude::*;
use vstd::string::StringExecFns;

verus! {

/// The wording that names each broken per-event rule.
pub open spec fn spec_rule_message(rule: FieldRule) -> Seq<char> {
    match rule {
        FieldRule::ProjectIdLength => "project_id length must be between 1 and 100"@,
        FieldRule::EventTypeLength => "event_type length must be between 1 and 50"@,
        FieldRule::UserIdLength => "user_id length must be at most 100"@,
    }
}

/// The wording of a validation failure: which rule failed, and for a
/// per-event rule at which event.
pub open spec fn spec_failure_message(f: ValidationFailure) -> Seq<char> {
    match f {
        ValidationFailure::BatchLength => "events: batch length must be between 1 and 1000"@,
        ValidationFailure::Field(i, rule) => "event "@ + spec_dec_digits(i as nat) + ": "@
            + spec_rule_message(rule),
    }
}

/// The failure `f` really is what `EventBatch::validate` reports first on a
/// batch holding `events`.
pub open spec fn spec_failure_witness(events: Seq<Event>, f: ValidationFailure) -> bool {
    match f {
        ValidationFailure::BatchLength => !(MIN_BATCH_LEN <= events.len() <= MAX_BATCH_LEN),
        ValidationFailure::Field(i, rule) => {
            &&& 0 <= i < events.len()
            &&& !spec_event_valid(events[i as int])
            &&& forall|j: int| 0 <= j < i ==> spec_event_valid(#[trigger] events[j])
            &&& spec_event_blame(events[i as int]) == Some(rule)
        },
    }
}

/// The message of the error rejecting a batch longer than the configured
/// maximum.
pub open spec fn spec_size_message(len: nat, max: nat) -> Seq<char> {
    "Batch size "@ + spec_dec_digits(len) + " exceeds maximum of "@ + spec_dec_digits(max)
}

/// Render a validation failure as its message.
pub fn failure_message(f: ValidationFailure) -> (r: String)
    ensures
        r@ == spec_failure_message(f),
{
    match f {
        ValidationFailure::BatchLength => String::from_str(
            "events: batch length must be between 1 and 1000",
        ),
        ValidationFailure::Field(i, rule) => {
            let mut m = String::from_str("event ");
            let index = usize_dec(i);
            m.append(index.as_str());
            m.append(": ");
            match rule {
                FieldRule::ProjectIdLength => m.append(
                    "project_id length must be between 1 and 100",
                ),
                FieldRule::EventTypeLength => m.append(
                    "event_type length must be between 1 and 50",
                ),
                FieldRule::UserIdLength => m.append("user_id length must be at most 100"),
            }
            proof {
                assert(m@ =~= spec_failure_message(f));
            }
            m
        },
    }
}

/// Decide whether a batch may be inserted: it must validate and must not
/// exceed the configured maximum batch size. Exactly the batches that pass
/// both checks are let through; an invalid batch is rejected as a validation
/// error carrying the first failure's message, an over-long valid batch as a
/// bad request stating the limit.
pub fn ingest_precheck(batch: &EventBatch, max_batch_size: usize) -> (r: Result<(), AppError>)
    ensures
        r is Ok <==> (spec_batch_valid(batch.events@) && batch.events@.len() <= max_batch_size),
        r matches Err(e) ==> match e {
            AppError::Validation(d) => {
                &&& !spec_batch_valid(batch.events@)
                &&& exists|f: ValidationFailure|
                    #[trigger] spec_failure_message(f) == d@ && spec_failure_witness(
                        batch.events@,
                        f,
                    )
            },
            AppError::BadRequest(d) => {
                &&& spec_batch_valid(batch.events@)
                &&& batch.events@.len() > max_batch_size
                &&& d@ == spec_size_message(batch.events@.len(), max_batch_size as nat)
            },
            _ => false,
        },
{
    match batch.validate() {
        Err(f) => {
            let d = failure_message(f);
            proof {
                assert(spec_failure_message(f) == d@ && spec_failure_witness(batch.events@, f));
            }
            Err(AppError::Validation(d))
        },
        Ok(()) => {
            let n = batch.len();
            if n > max_batch_size {
                let mut m = String::from_str("Batch size ");
                let len_dec = usize_dec(n);
                m.append(len_dec.as_str());
                m.append(" exceeds maximum of ");
                let max_dec = usize_dec(max_batch_size);
                m.append(max_dec.as_str());
                proof {
                    assert(m@ =~= spec_size_message(batch.events@.len(), max_batch_size as nat));
                }
                Err(AppError::BadRequest(m))
            } else {
                Ok(())
            }
        },
    }
}

/// The opening of the multi-row insert statement, up to its first placeholder
/// tuple.
pub open spec fn spec_insert_prefix() -> Seq<char> {
    "INSERT INTO events (id, time, project_id, event_type, properties, user_id, session_id, value) VALUES "@
}

/// The text of the `k`-th bind placeholder.
pub open spec fn spec_placeholder(k: nat) -> Seq<char> {
    seq!['$'] + spec_dec_digits(k)
}

/// The first `j` placeholders of row `i`'s tuple, separated by `, `: row `i`
/// binds the placeholders numbered `8 * i + 1` through `8 * i + 8`, one per
/// inserted column.
pub open spec fn spec_row_cols(i: nat, j: nat) -> Seq<char>
    decreases j,
{
    if j == 0 {
        Seq::empty()
    } else if j == 1 {
        spec_placeholder(8 * i + 1)
    } else {
        spec_row_cols(i, (j - 1) as nat) + ", "@ + spec_placeholder(8 * i + j)
    }
}

/// The parenthesized placeholder tuple for row `i`.
pub open spec fn spec_row(i: nat) -> Seq<char> {
    seq!['('] + spec_row_cols(i, 8) + seq![')']
}

/// The first `n` placeholder tuples, separated by `, `.
pub open spec fn spec_rows(n: nat) -> Seq<char>
    decreases n,
{
    if n == 0 {
        Seq::empty()
    } else if n == 1 {
        spec_row(0)
    } else {
        spec_rows((n - 1) as nat) + ", "@ + spec_row((n - 1) as nat)
    }
}

/// The whole multi-row insert statement for `n` events: one tuple of eight
/// placeholders per event, numbered consecutively in input order.
pub open spec fn spec_bulk_insert_sql(n: nat) -> Seq<char> {
    spec_insert_prefix() + spec_rows(n)
}

fn append_row(s: &mut String, i: usize)
    requires
        i < MAX_BATCH_LEN,
    ensures
        final(s)@ == old(s)@ + spec_row(i as nat),
{
    let ghost orig: Seq<char> = s@;
    push_char(s, '(');
    let mut j: usize = 0;
    while j < 8
        invariant
            i < MAX_BATCH_LEN,
            j <= 8,
            s@ == orig + seq!['('] + spec_row_cols(i as nat, j as nat),
        decreases 8 - j,
    {
        if j > 0 {
            s.append(", ");
        }
        push_char(s, '$');
        let k = 8 * i + j + 1;
        let placeholder_index = usize_dec(k);
        s.append(placeholder_index.as_str());
        proof {
            assert(s@ =~= orig + seq!['('] + spec_row_cols(i as nat, j as nat + 1));
        }
        j += 1;
    }
    push_char(s, ')');
    proof {
        assert(s@ =~= orig + spec_row(i as nat));
    }
}

/// Build the single statement that inserts a whole batch of `n` events in one
/// round trip: all rows are committed by one execution or none are.
pub fn bulk_insert_sql(n: usize) -> (r: String)
    requires
        MIN_BATCH_LEN <= n <= MAX_BATCH_LEN,
    ensures
        r@ == spec_bulk_insert_sql(n as nat),
{
    let mut s = String::from_str(
        "INSERT INTO events (id, time, project_id, event_type, properties, user_id, session_id, value) VALUES ",
    );
    let mut i: usize = 0;
    while i < n
        invariant
            MIN_BATCH_LEN <= n <= MAX_BATCH_LEN,
            i <= n,
            s@ == spec_insert_prefix() + spec_rows(i as nat),
        decreases n - i,
    {
        if i > 0 {
            s.append(", ");
        }
        append_row(&mut s, i);
        proof {
            assert(s@ =~= spec_insert_prefix() + spec_rows(i as nat + 1));
        }
        i += 1;
    }
    s
}

} // verus!
