//! The event model: a single analytics event, a batch of events submitted
//! together, the acknowledgment returned on success, and the validation
//! rules a batch must satisfy before it may be inserted.

use vstd::prelude::*;
use vstd::string::StrSliceExecFns;

verus! {

/// Shortest accepted batch.
pub const MIN_BATCH_LEN: usize = 1;
/// Longest accepted batch.
pub const MAX_BATCH_LEN: usize = 1000;
/// Longest accepted `project_id`, in characters.
pub const MAX_PROJECT_ID_LEN: usize = 100;
/// Longest accepted `event_type`, in characters.
pub const MAX_EVENT_TYPE_LEN: usize = 50;
/// Longest accepted `user_id`, in characters.
pub const MAX_USER_ID_LEN: usize = 100;

/// One observed occurrence. Identifiers are carried as their 128-bit value,
/// timestamps as microseconds since the Unix epoch, the free-form properties
/// document as its serialized text, and the optional numeric measurement as
/// its IEEE-754 bit pattern; absence of an optional field is distinct from
/// any present value.
#[derive(Debug, Clone)]
pub struct Event {
    pub id: u128,
    pub time: i64,
    pub project_id: String,
    pub event_type: String,
    pub properties: Option<String>,
    pub user_id: Option<String>,
    pub session_id: Option<u128>,
    pub value_bits: Option<u64>,
}

/// An ordered collection of events submitted together; accepted or rejected
/// as a whole.
#[derive(Debug, Clone)]
pub struct EventBatch {
    pub events: Vec<Event>,
}

/// The per-event validation rule that a rejected event broke.
#[derive(Debug, Clone, Copy, PartialEq, Eq, Structural)]
pub enum FieldRule {
    ProjectIdLength,
    EventTypeLength,
    UserIdLength,
}

/// Why a batch failed validation: its length is out of bounds, or the event
/// at the given index broke the given rule.
#[derive(Debug, Clone, Copy, PartialEq, Eq, Structural)]
pub enum ValidationFailure {
    BatchLength,
    Field(usize, FieldRule),
}

/// `project_id` has between 1 and 100 characters.
pub open spec fn spec_project_id_ok(e: Event) -> bool {
    1 <= e.project_id@.len() <= MAX_PROJECT_ID_LEN
}

/// `event_type` has between 1 and 50 characters.
pub open spec fn spec_event_type_ok(e: Event) -> bool {
    1 <= e.event_type@.len() <= MAX_EVENT_TYPE_LEN
}

/// `user_id`, when present, has at most 100 characters.
pub open spec fn spec_user_id_ok(e: Event) -> bool {
    e.user_id matches Some(u) ==> u@.len() <= MAX_USER_ID_LEN
}

/// An event satisfies every per-event rule.
pub open spec fn spec_event_valid(e: Event) -> bool {
    &&& spec_project_id_ok(e)
    &&& spec_event_type_ok(e)
    &&& spec_user_id_ok(e)
}

/// The first rule an event breaks, in the order `project_id`, `event_type`,
/// `user_id`; `None` when the event is valid.
pub open spec fn spec_event_blame(e: Event) -> Option<FieldRule> {
    if !spec_project_id_ok(e) {
        Some(FieldRule::ProjectIdLength)
    } else if !spec_event_type_ok(e) {
        Some(FieldRule::EventTypeLength)
    } else if !spec_user_id_ok(e) {
        Some(FieldRule::UserIdLength)
    } else {
        None
    }
}

/// A batch is valid: its length is in [1, 1000] and every contained event is
/// individually valid.
pub open spec fn spec_batch_valid(events: Seq<Event>) -> bool {
    &&& MIN_BATCH_LEN <= events.len() <= MAX_BATCH_LEN
    &&& forall|i: int| 0 <= i < events.len() ==> spec_event_valid(#[trigger] events[i])
}

impl Event {
    /// Check this event against the per-event rules, blaming the first broken
    /// rule in the order `project_id`, `event_type`, `user_id`.
    pub fn validate(&self) -> (r: Result<(), FieldRule>)
        ensures
            r is Ok <==> spec_event_valid(*self),
            r matches Err(rule) ==> spec_event_blame(*self) == Some(rule),
    {
        let project_id_len = self.project_id.as_str().unicode_len();
        if project_id_len < 1 || project_id_len > MAX_PROJECT_ID_LEN {
            return Err(FieldRule::ProjectIdLength);
        }
        let event_type_len = self.event_type.as_str().unicode_len();
        if event_type_len < 1 || event_type_len > MAX_EVENT_TYPE_LEN {
            return Err(FieldRule::EventTypeLength);
        }
        match &self.user_id {
            Some(user_id) => {
                if user_id.as_str().unicode_len() > MAX_USER_ID_LEN {
                    return Err(FieldRule::UserIdLength);
                }
            },
            None => {},
        }
        Ok(())
    }
}

impl EventBatch {
    /// Wrap a list of events as a batch; no rule is checked here, validation
    /// is a separate step.
    pub fn new(events: Vec<Event>) -> (r: Self)
        ensures
            r.events == events,
    {
        Self { events }
    }

    /// How many events the batch holds.
    pub fn len(&self) -> (r: usize)
        ensures
            r == self.events@.len(),
    {
        self.events.len()
    }

    /// Whether the batch holds no event at all.
    pub fn is_empty(&self) -> (r: bool)
        ensures
            r == (self.events@.len() == 0),
    {
        self.events.is_empty()
    }

    /// Check the batch as one unit: its length must be in [1, 1000] and every
    /// event must be individually valid. On failure the result blames the
    /// length, or the first invalid event and the first rule it broke.
    pub fn validate(&self) -> (r: Result<(), ValidationFailure>)
        ensures
            r is Ok <==> spec_batch_valid(self.events@),
            r == Err::<(), ValidationFailure>(ValidationFailure::BatchLength)
                <==> !(MIN_BATCH_LEN <= self.events@.len() <= MAX_BATCH_LEN),
            r matches Err(ValidationFailure::Field(i, rule)) ==> {
                &&& 0 <= i < self.events@.len()
                &&& !spec_event_valid(self.events@[i as int])
                &&& forall|j: int| 0 <= j < i ==> spec_event_valid(#[trigger] self.events@[j])
                &&& spec_event_blame(self.events@[i as int]) == Some(rule)
            },
    {
        let n = self.events.len();
        if n < MIN_BATCH_LEN || n > MAX_BATCH_LEN {
            return Err(ValidationFailure::BatchLength);
        }
        let mut i: usize = 0;
        while i < n
            invariant
                n == self.events@.len(),
                MIN_BATCH_LEN <= n <= MAX_BATCH_LEN,
                i <= n,
                forall|j: int| 0 <= j < i ==> spec_event_valid(#[trigger] self.events@[j]),
            decreases n - i,
        {
            match self.events[i].validate() {
                Ok(()) => {},
                Err(rule) => {
                    return Err(ValidationFailure::Field(i, rule));
                },
            }
            i += 1;
        }
        Ok(())
    }
}

/// Acknowledgment of a successful ingestion: how many events were accepted,
/// stamped with the server time of acceptance (microseconds since the Unix
/// epoch). Constructed only after a successful insert.
#[derive(Debug, Clone)]
pub struct IngestionResponse {
    pub accepted: usize,
    pub timestamp_micros: i64,
}

/// Relies on chrono::Utc::now: the current time, taken as microseconds since
/// the Unix epoch. Nothing is promised of the value.
#[verifier::external_body]
fn now_timestamp_micros() -> i64 {
    chrono::Utc::now().timestamp_micros()
}

impl IngestionResponse {
    /// Acknowledge `accepted` events as of the current server time.
    pub fn new(accepted: usize) -> (r: Self)
        ensures
            r.accepted == accepted,
    {
        Self { accepted, timestamp_micros: now_timestamp_micros() }
    }
}

/// Law: a batch whose length lies outside [1, 1000] is invalid, whatever its
/// events hold; one whose length lies in [1, 1000] and whose every event is
/// individually valid is valid.
pub proof fn lemma_batch_length_rule(events: Seq<Event>)
    ensures
        events.len() < MIN_BATCH_LEN || events.len() > MAX_BATCH_LEN ==> !spec_batch_valid(
            events,
        ),
        (MIN_BATCH_LEN <= events.len() <= MAX_BATCH_LEN && (forall|i: int|
            0 <= i < events.len() ==> spec_event_valid(#[trigger] events[i])))
            ==> spec_batch_valid(events),
{
}

/// Law: an event whose `project_id` has 0 or more than 100 characters is
/// invalid; a `project_id` of 1 to 100 characters satisfies its rule.
pub proof fn lemma_project_id_rule(e: Event)
    ensures
        e.project_id@.len() == 0 || e.project_id@.len() > MAX_PROJECT_ID_LEN
            ==> !spec_event_valid(e),
        1 <= e.project_id@.len() <= MAX_PROJECT_ID_LEN ==> spec_project_id_ok(e),
{
}

/// Law: an event whose `event_type` has 0 or more than 50 characters is
/// invalid; an `event_type` of 1 to 50 characters satisfies its rule.
pub proof fn lemma_event_type_rule(e: Event)
    ensures
        e.event_type@.len() == 0 || e.event_type@.len() > MAX_EVENT_TYPE_LEN
            ==> !spec_event_valid(e),
        1 <= e.event_type@.len() <= MAX_EVENT_TYPE_LEN ==> spec_event_type_ok(e),
{
}

/// Law: an event whose `user_id` is present with more than 100 characters is
/// invalid; an absent `user_id` always satisfies its rule.
pub proof fn lemma_user_id_rule(e: Event)
    ensures
        (e.user_id matches Some(u) && u@.len() > MAX_USER_ID_LEN) ==> !spec_event_valid(e),
        e.user_id is None ==> spec_user_id_ok(e),
{
}

} // verus!
