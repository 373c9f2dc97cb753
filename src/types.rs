//! Records of the task-based todo service.
use vstd::prelude::*;
use vstd::string::*;
use crate::text::same_text;

verus! {

/// A task to create.
#[derive(Debug)]
pub struct Todo {
    pub task: String,
}

/// Progress of a task.
#[derive(Clone, Debug, PartialEq, Eq, Structural)]
pub enum Status {
    PENDING,
    DONE,
}

/// A stored task as the service returns it.
#[derive(Clone, PartialEq, Debug)]
pub struct TodoResponse {
    pub id: i64,
    pub task: String,
    pub status: Status,
}

/// A partial change to a task.
#[derive(Debug)]
pub struct UpdateTodoType {
    pub task: Option<String>,
    pub status: Option<String>,
}

/// The service's envelope around a list of tasks.
#[derive(Clone, PartialEq, Debug)]
pub struct ApiResponse {
    pub message: String,
    pub data: Vec<TodoResponse>,
}

/// The wire name of a status.
pub open spec fn status_name(s: Status) -> Seq<char> {
    match s {
        Status::PENDING => "PENDING"@,
        Status::DONE => "DONE"@,
    }
}

/// The status a wire name stands for: anything but `DONE` reads as pending.
pub open spec fn status_of_name(name: Seq<char>) -> Status {
    if name == "DONE"@ {
        Status::DONE
    } else {
        Status::PENDING
    }
}

impl Status {
    /// The wire name of this status.
    pub fn as_str(&self) -> (r: &'static str)
        ensures
            r@ == status_name(*self),
    {
        match self {
            Status::PENDING => "PENDING",
            Status::DONE => "DONE",
        }
    }

    /// The status a wire name stands for; unknown names read as pending.
    pub fn from_str(status: &str) -> (r: Self)
        ensures
            r == status_of_name(status@),
    {
        if same_text(status, "DONE") {
            Status::DONE
        } else {
            Status::PENDING
        }
    }
}

/// Reading back the wire name of a status gives that status.
pub proof fn lemma_status_name_round_trip(s: Status)
    ensures
        status_of_name(status_name(s)) == s,
{
    reveal_strlit("PENDING");
    reveal_strlit("DONE");
    assert("PENDING"@ != "DONE"@) by {
        assert("PENDING"@.len() != "DONE"@.len());
    }
}

} // verus!
