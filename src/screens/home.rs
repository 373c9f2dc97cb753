//! The home screen of the task-based service: a list of tasks and a form
//! to add one.
use vstd::prelude::*;
use vstd::string::*;
use crate::api::{request, ApiRequest, Method, Payload, Reply};
use crate::text::{is_blank, trim, trimmed};
use crate::types::{ApiResponse, Todo, TodoResponse};
use crate::utils::joined;

verus! {

/// The path of the task collection.
pub open spec fn tasks_path() -> Seq<char> {
    "todo"@
}

/// The tasks a reply to a fetch leaves shown: the returned list when its
/// body decoded, the shown list when it did not, and none when the
/// service could not be reached.
pub open spec fn tasks_after(shown: Seq<TodoResponse>, reply: Reply<ApiResponse>) -> Seq<TodoResponse> {
    match reply {
        Reply::Answered(_, Some(r)) => r.data@,
        Reply::Answered(_, None) => shown,
        _ => Seq::empty(),
    }
}

/// State of the home screen.
#[derive(Debug)]
pub struct Home {
    pub origin: String,
    pub todos: Vec<TodoResponse>,
    pub loading: bool,
    pub task_input: String,
}

impl Home {
    /// An empty home screen for the service at `origin`.
    pub fn new(origin: String) -> (r: Home)
        ensures
            r.origin == origin,
            r.todos@.len() == 0,
            !r.loading,
            r.task_input@.len() == 0,
    {
        Home { origin, todos: Vec::new(), loading: false, task_input: String::new() }
    }

    /// Fetches the task list.
    pub fn fetch(&mut self) -> (r: ApiRequest)
        ensures
            final(self).loading,
            final(self).origin == old(self).origin,
            final(self).todos == old(self).todos,
            final(self).task_input == old(self).task_input,
            r.method == Method::Get,
            r.url@ == joined(old(self).origin@, tasks_path()),
            r.authorization is None,
            r.body is Empty,
    {
        self.loading = true;
        let none: Option<String> = None;
        request(Method::Get, self.origin.as_str(), "todo", &none, Payload::Empty)
    }

    /// Takes the reply to a fetch.
    pub fn on_fetched(&mut self, reply: Reply<ApiResponse>)
        ensures
            !final(self).loading,
            final(self).origin == old(self).origin,
            final(self).todos@ == tasks_after(old(self).todos@, reply),
            final(self).task_input == old(self).task_input,
    {
        match reply {
            Reply::Answered(_, Some(r)) => {
                self.todos = r.data;
            },
            Reply::Answered(_, None) => {},
            _ => {
                self.todos = Vec::new();
            },
        }
        self.loading = false;
    }

    /// Replaces the draft task.
    pub fn set_input(&mut self, value: String)
        ensures
            final(self).task_input == value,
            final(self).origin == old(self).origin,
            final(self).todos == old(self).todos,
            final(self).loading == old(self).loading,
    {
        self.task_input = value;
    }

    /// Submits the draft task: a blank draft sends nothing; otherwise its
    /// trimmed text is posted.
    pub fn submit(&mut self) -> (r: Option<ApiRequest>)
        ensures
            *final(self) == *old(self),
            r is Some <==> !is_blank(old(self).task_input@),
            r is Some ==> {
                &&& r->0.method == Method::Post
                &&& r->0.url@ == joined(old(self).origin@, tasks_path())
                &&& r->0.authorization is None
                &&& match r->0.body {
                    Payload::NewTask(t) => t.task@ == trimmed(old(self).task_input@),
                    _ => false,
                }
            },
    {
        let task = trim(self.task_input.as_str());
        if task.unicode_len() == 0 {
            return None;
        }
        let none: Option<String> = None;
        Some(request(Method::Post, self.origin.as_str(), "todo", &none, Payload::NewTask(Todo { task })))
    }

    /// Takes the reply to an added task: once the service has answered, the
    /// draft is cleared and the list fetched again.
    pub fn on_added(&mut self, reply: Reply<()>) -> (r: Option<ApiRequest>)
        ensures
            final(self).origin == old(self).origin,
            final(self).todos == old(self).todos,
            reply is Answered ==> {
                &&& final(self).task_input@.len() == 0
                &&& final(self).loading
                &&& r is Some
                &&& r->0.method == Method::Get
                &&& r->0.url@ == joined(old(self).origin@, tasks_path())
                &&& r->0.authorization is None
                &&& r->0.body is Empty
            },
            !(reply is Answered) ==> *final(self) == *old(self) && r is None,
    {
        match reply {
            Reply::Answered(_, _) => {
                self.task_input = String::new();
                Some(self.fetch())
            },
            _ => None,
        }
    }
}

} // verus!
