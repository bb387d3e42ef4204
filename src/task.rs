//! Creating, reading, updating and removing tasks.
use vstd::prelude::*;
use crate::error::{ApiError, FieldError};
use crate::rules::{into_outcome, length_rule, length_within};

verus! {

/// A task as it is stored.
#[derive(Debug)]
pub struct TaskRecord {
    pub id: i32,
    pub title: String,
    pub priority: Option<String>,
    pub description: Option<String>,
}

/// The fields of a task to be created, or the new fields of a task.
#[derive(Debug)]
pub struct TaskRequest {
    pub title: String,
    pub priority: Option<String>,
    pub description: Option<String>,
}

/// A task as the service answers it.
#[derive(Debug)]
pub struct TaskResponse {
    pub id: i32,
    pub title: String,
    pub priority: Option<String>,
    pub description: Option<String>,
}

/// The priority that a listing of tasks is narrowed to.
#[derive(Debug)]
pub struct GetTaskQueryParams {
    pub priority: String,
}

/// The least and the greatest number of characters of a title.
pub const TITLE_MIN: u64 = 3;
pub const TITLE_MAX: u64 = 32;
/// The greatest number of characters of a priority.
pub const PRIORITY_MAX: u64 = 3;
/// The least and the greatest number of characters of a description.
pub const DESCRIPTION_MIN: u64 = 3;
pub const DESCRIPTION_MAX: u64 = 120;

/// Whether an optional text meets a length rule; an absent one always does.
pub open spec fn optional_within(s: Option<String>, min: Option<u64>, max: Option<u64>) -> bool {
    match s {
        None => true,
        Some(t) => length_rule(t@.len(), min, max, None),
    }
}

fn optional_length_within(s: &Option<String>, min: Option<u64>, max: Option<u64>) -> (r: bool)
    ensures
        r == optional_within(*s, min, max),
{
    match s {
        None => true,
        Some(t) => length_within(t.as_str(), min, max, None),
    }
}

impl TaskRequest {
    /// The rules that this request breaks, in the order of the fields.
    pub open spec fn errors(&self) -> Seq<FieldError> {
        (if length_rule(self.title@.len(), Some(TITLE_MIN), Some(TITLE_MAX), None) {
            Seq::empty()
        } else {
            seq![FieldError::TitleLength]
        }) + (if optional_within(self.priority, None, Some(PRIORITY_MAX)) {
            Seq::empty()
        } else {
            seq![FieldError::PriorityTooLong]
        }) + (if optional_within(self.description, Some(DESCRIPTION_MIN), Some(DESCRIPTION_MAX)) {
            Seq::empty()
        } else {
            seq![FieldError::DescriptionLength]
        })
    }

    /// Checks the fields against their rules: a title of three to thirty-two
    /// characters, a priority, where given, of at most three, and a
    /// description, where given, of three to 120.
    pub fn validate(&self) -> (r: Result<(), Vec<FieldError>>)
        ensures
            r is Ok <==> self.errors().len() == 0,
            r matches Err(e) ==> e@ == self.errors(),
    {
        let mut errors: Vec<FieldError> = Vec::new();
        if !length_within(self.title.as_str(), Some(TITLE_MIN), Some(TITLE_MAX), None) {
            errors.push(FieldError::TitleLength);
        }
        if !optional_length_within(&self.priority, None, Some(PRIORITY_MAX)) {
            errors.push(FieldError::PriorityTooLong);
        }
        if !optional_length_within(&self.description, Some(DESCRIPTION_MIN), Some(DESCRIPTION_MAX)) {
            errors.push(FieldError::DescriptionLength);
        }
        proof {
            assert(errors@ =~= self.errors());
        }
        into_outcome(errors)
    }
}

impl GetTaskQueryParams {
    /// The rules that these parameters break.
    pub open spec fn errors(&self) -> Seq<FieldError> {
        if length_rule(self.priority@.len(), None, Some(PRIORITY_MAX), None) {
            Seq::empty()
        } else {
            seq![FieldError::PriorityTooLong]
        }
    }

    /// Checks that the priority has at most three characters.
    pub fn validate(&self) -> (r: Result<(), Vec<FieldError>>)
        ensures
            r is Ok <==> self.errors().len() == 0,
            r matches Err(e) ==> e@ == self.errors(),
    {
        let mut errors: Vec<FieldError> = Vec::new();
        if !length_within(self.priority.as_str(), None, Some(PRIORITY_MAX), None) {
            errors.push(FieldError::PriorityTooLong);
        }
        proof {
            assert(errors@ =~= self.errors());
        }
        into_outcome(errors)
    }
}

/// A stored task as the service answers it.
pub open spec fn response_of(t: TaskRecord) -> TaskResponse {
    TaskResponse { id: t.id, title: t.title, priority: t.priority, description: t.description }
}

fn respond(t: TaskRecord) -> (r: TaskResponse)
    ensures
        r == response_of(t),
{
    TaskResponse { id: t.id, title: t.title, priority: t.priority, description: t.description }
}

/// Answers the request for one task once its id has been looked up.
pub fn found_task(found: Option<TaskRecord>) -> (r: Result<TaskResponse, ApiError>)
    ensures
        match found {
            None => r matches Err(ApiError::TaskNotFound),
            Some(t) => r == Ok::<TaskResponse, ApiError>(response_of(t)),
        },
{
    match found {
        None => Err(ApiError::TaskNotFound),
        Some(t) => Ok(respond(t)),
    }
}

/// The priority that a listing is narrowed to: none without parameters, the
/// given one where it meets its rule, and a failure otherwise.
pub fn priority_filter(params: Option<GetTaskQueryParams>) -> (r: Result<Option<String>, ApiError>)
    ensures
        match params {
            None => r == Ok::<Option<String>, ApiError>(None),
            Some(p) => if p.errors().len() == 0 {
                r == Ok::<Option<String>, ApiError>(Some(p.priority))
            } else {
                r matches Err(ApiError::Invalid(e)) && e@ == p.errors()
            },
        },
{
    match params {
        None => Ok(None),
        Some(p) => match p.validate() {
            Err(e) => Err(ApiError::Invalid(e)),
            Ok(()) => Ok(Some(p.priority)),
        },
    }
}

/// The answer to a listing: one entry for each task, in their order.
pub fn task_responses(tasks: Vec<TaskRecord>) -> (r: Vec<TaskResponse>)
    ensures
        r@ == tasks@.map_values(|t: TaskRecord| response_of(t)),
{
    let mut tasks = tasks;
    let ghost all = tasks@;
    let mut reversed: Vec<TaskResponse> = Vec::new();
    while tasks.len() > 0
        invariant
            tasks@ == all.subrange(0, tasks@.len() as int),
            reversed@.len() + tasks@.len() == all.len(),
            forall|i: int| 0 <= i < reversed@.len() ==> reversed@[i] == response_of(#[trigger] all[all.len() - 1 - i]),
        decreases tasks@.len(),
    {
        let t = tasks.pop().unwrap();
        reversed.push(respond(t));
    }
    let mut r: Vec<TaskResponse> = Vec::new();
    while reversed.len() > 0
        invariant
            r@.len() + reversed@.len() == all.len(),
            forall|i: int| 0 <= i < reversed@.len() ==> reversed@[i] == response_of(#[trigger] all[all.len() - 1 - i]),
            forall|i: int| 0 <= i < r@.len() ==> r@[i] == response_of(#[trigger] all[i]),
        decreases reversed@.len(),
    {
        let ghost k = reversed@.len() - 1;
        proof {
            assert(reversed@[k] == response_of(all[all.len() - 1 - k]));
        }
        let e = reversed.pop().unwrap();
        r.push(e);
    }
    proof {
        assert(r@ =~= all.map_values(|t: TaskRecord| response_of(t)));
    }
    r
}

/// Decides an update once the task's id has been looked up: the task with
/// its id kept and its fields replaced by the request's, or the failure.
pub fn apply_update(request: TaskRequest, found: Option<TaskRecord>) -> (r: Result<TaskRecord, ApiError>)
    ensures
        request.errors().len() > 0 ==> (r matches Err(ApiError::Invalid(e)) && e@ == request.errors()),
        request.errors().len() == 0 ==> match found {
            None => r matches Err(ApiError::TaskNotFound),
            Some(t) => r == Ok::<TaskRecord, ApiError>(TaskRecord {
                id: t.id,
                title: request.title,
                priority: request.priority,
                description: request.description,
            }),
        },
{
    if let Err(e) = request.validate() {
        return Err(ApiError::Invalid(e));
    }
    match found {
        None => Err(ApiError::TaskNotFound),
        Some(t) => Ok(TaskRecord {
            id: t.id,
            title: request.title,
            priority: request.priority,
            description: request.description,
        }),
    }
}

/// The answer to an update, from the task as it was stored.
pub fn updated_request(saved: TaskRecord) -> (r: TaskRequest)
    ensures
        r == (TaskRequest { title: saved.title, priority: saved.priority, description: saved.description }),
{
    TaskRequest { title: saved.title, priority: saved.priority, description: saved.description }
}

/// Decides the removal of a task once its id has been looked up: the task to
/// remove, or the failure.
pub fn task_to_delete(found: Option<TaskRecord>) -> (r: Result<TaskRecord, ApiError>)
    ensures
        match found {
            None => r matches Err(ApiError::TaskNotFound),
            Some(t) => r == Ok::<TaskRecord, ApiError>(t),
        },
{
    match found {
        None => Err(ApiError::TaskNotFound),
        Some(t) => Ok(t),
    }
}

} // verus!
