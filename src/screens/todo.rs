//! The todo list screen: the list as the backend last returned it, the
//! draft of a new todo, at most one todo being edited, and how many
//! requests are in flight.
use vstd::prelude::*;
use vstd::string::*;
use crate::api::{
    answered_status, carries_token, classified, classify, request, status_of, ApiRequest, Method,
    Payload, Reply,
};
use crate::session::Session;
use crate::text::{decimal, is_blank, push_decimal, trim, trimmed};
use crate::utils::joined;

verus! {

/// Progress of a todo.
#[derive(Clone, Debug, PartialEq, Eq, Structural)]
pub enum Status {
    PENDING,
    DONE,
}

/// A todo to create.
#[derive(Clone, PartialEq, Debug)]
pub struct Todo {
    pub title: String,
    pub completed: bool,
}

/// A stored todo as the backend returns it.
#[derive(Clone, PartialEq, Debug)]
pub struct TodoResponse {
    pub id: i64,
    pub title: String,
    pub description: Option<String>,
    pub completed: bool,
    pub created_at: String,
    pub updated_at: String,
}

/// A change to a todo; the todo is named by `id` in the body.
#[derive(Clone, PartialEq, Debug)]
pub struct UpdateTodoType {
    pub id: Option<i64>,
    pub title: Option<String>,
    pub description: Option<String>,
    pub completed: Option<bool>,
}

/// The path of the todo collection.
pub open spec fn todos_path() -> Seq<char> {
    "api/v1/todo"@
}

/// The path of one todo.
pub open spec fn todo_path(id: i64) -> Seq<char> {
    "api/v1/todo/"@ + decimal(id as int)
}

/// A call to the backend that the screen makes.
pub enum TodoCall {
    /// Read the whole list.
    FetchAll,
    /// Create a todo, not completed.
    Create { title: Seq<char> },
    /// Read one todo.
    ReadOne { id: i64 },
    /// Replace a todo's title and completion; its description is not sent.
    Update { id: i64, title: Seq<char>, completed: bool },
    /// Delete a todo.
    Remove { id: i64 },
}

/// Whether `r` is the request for `call`, at `origin`, carrying `token`.
pub open spec fn sends(r: ApiRequest, origin: Seq<char>, token: Option<String>, call: TodoCall) -> bool {
    &&& carries_token(r.authorization, token)
    &&& match call {
        TodoCall::FetchAll => r.method == Method::Get && r.url@ == joined(origin, todos_path())
            && r.body is Empty,
        TodoCall::Create { title } => r.method == Method::Post && r.url@ == joined(
            origin,
            todos_path(),
        ) && match r.body {
            Payload::NewTodo(t) => t.title@ == title && !t.completed,
            _ => false,
        },
        TodoCall::ReadOne { id } => r.method == Method::Get && r.url@ == joined(
            origin,
            todo_path(id),
        ) && r.body is Empty,
        TodoCall::Update { id, title, completed } => r.method == Method::Put && r.url@ == joined(
            origin,
            todos_path(),
        ) && match r.body {
            Payload::Update(u) => u.id == Some(id) && u.title is Some && u.title->0@ == title
                && u.description is None && u.completed == Some(completed),
            _ => false,
        },
        TodoCall::Remove { id } => r.method == Method::Delete && r.url@ == joined(
            origin,
            todo_path(id),
        ) && r.body is Empty,
    }
}

/// Whether `r` is the request for `call`, or no request when there is no call.
pub open spec fn sends_step(
    r: Option<ApiRequest>,
    origin: Seq<char>,
    token: Option<String>,
    call: Option<TodoCall>,
) -> bool {
    match call {
        Some(c) => r is Some && sends(r->0, origin, token, c),
        None => r is None,
    }
}

/// The screen's state, as values.
pub struct TodoModel {
    pub origin: Seq<char>,
    pub todos: Seq<TodoResponse>,
    pub input: Seq<char>,
    pub edit_id: Option<i64>,
    pub edit_text: Seq<char>,
    pub pending: u64,
}

/// One more request in flight.
pub open spec fn inc(n: u64) -> u64 {
    if n < u64::MAX {
        (n + 1) as u64
    } else {
        n
    }
}

/// One request fewer in flight.
pub open spec fn dec(n: u64) -> u64 {
    if n > 0 {
        (n - 1) as u64
    } else {
        0
    }
}

/// A request has been sent.
pub open spec fn started(m: TodoModel) -> TodoModel {
    TodoModel { pending: inc(m.pending), ..m }
}

/// A request has ended with nothing further to send.
pub open spec fn settled(m: TodoModel) -> TodoModel {
    TodoModel { pending: dec(m.pending), ..m }
}

/// Whether the todo with `id`, first found in `todos`, is completed; false
/// when there is none.
pub open spec fn completed_in(todos: Seq<TodoResponse>, id: i64) -> bool
    decreases todos.len(),
{
    if todos.len() == 0 {
        false
    } else if todos[0].id == id {
        todos[0].completed
    } else {
        completed_in(todos.drop_first(), id)
    }
}

/// The list that a reply to a fetch yields: `None` when it yields none.
pub open spec fn fetch_outcome(reply: Reply<Vec<TodoResponse>>) -> Option<Seq<TodoResponse>> {
    match classified(reply) {
        Ok(v) => Some(v@),
        Err(_) => None,
    }
}

/// The todo that a reply to a read of one todo yields.
pub open spec fn read_outcome(reply: Reply<TodoResponse>) -> Option<TodoResponse> {
    match classified(reply) {
        Ok(t) => Some(t),
        Err(_) => None,
    }
}

/// Starts a fetch of the whole list.
pub open spec fn start_fetch(m: TodoModel) -> (TodoModel, TodoCall) {
    (started(m), TodoCall::FetchAll)
}

/// A fetch ended: the list becomes what the backend returned, or empty when
/// it returned nothing usable.
pub open spec fn after_fetch(m: TodoModel, list: Option<Seq<TodoResponse>>) -> TodoModel {
    TodoModel {
        todos: match list {
            Some(l) => l,
            None => Seq::empty(),
        },
        pending: dec(m.pending),
        ..m
    }
}

/// Submits the draft: a blank draft sends nothing; otherwise its trimmed
/// text is created.
pub open spec fn submit_draft(m: TodoModel) -> (TodoModel, Option<TodoCall>) {
    if is_blank(m.input) {
        (m, None)
    } else {
        (started(m), Some(TodoCall::Create { title: trimmed(m.input) }))
    }
}

/// A create ended: status 201 clears the draft and fetches the list; any
/// other outcome leaves the draft.
pub open spec fn after_create(m: TodoModel, status: Option<u16>) -> (TodoModel, Option<TodoCall>) {
    if status == Some(201u16) {
        (TodoModel { input: Seq::empty(), ..m }, Some(TodoCall::FetchAll))
    } else {
        (settled(m), None)
    }
}

/// Starts a toggle by reading the todo's current state.
pub open spec fn start_toggle(m: TodoModel, id: i64) -> (TodoModel, TodoCall) {
    (started(m), TodoCall::ReadOne { id })
}

/// The read of a toggle ended: the todo is written back with its title and
/// its completion inverted, or the toggle ends.
pub open spec fn after_toggle_read(m: TodoModel, id: i64, current: Option<TodoResponse>) -> (
    TodoModel,
    Option<TodoCall>,
) {
    match current {
        Some(t) => (m, Some(TodoCall::Update { id, title: t.title@, completed: !t.completed })),
        None => (settled(m), None),
    }
}

/// An update or a delete ended: status 200 fetches the list.
pub open spec fn after_write(m: TodoModel, status: Option<u16>) -> (TodoModel, Option<TodoCall>) {
    if status == Some(200u16) {
        (m, Some(TodoCall::FetchAll))
    } else {
        (settled(m), None)
    }
}

/// Starts editing a todo: any edit under way is dropped, unsent.
pub open spec fn begin_edit(m: TodoModel, id: i64, title: Seq<char>) -> TodoModel {
    TodoModel { edit_id: Some(id), edit_text: title, ..m }
}

/// Saves the edit under way: its trimmed text is written with the
/// completion the list shows; a blank text or no edit sends nothing.
pub open spec fn save_edit(m: TodoModel) -> (TodoModel, Option<TodoCall>) {
    match m.edit_id {
        Some(id) => if is_blank(m.edit_text) {
            (m, None)
        } else {
            (
                started(m),
                Some(
                    TodoCall::Update {
                        id,
                        title: trimmed(m.edit_text),
                        completed: completed_in(m.todos, id),
                    },
                ),
            )
        },
        None => (m, None),
    }
}

/// A save ended: status 200 ends the edit and fetches the list.
pub open spec fn after_edit_saved(m: TodoModel, status: Option<u16>) -> (
    TodoModel,
    Option<TodoCall>,
) {
    if status == Some(200u16) {
        (TodoModel { edit_id: None, ..m }, Some(TodoCall::FetchAll))
    } else {
        (settled(m), None)
    }
}

/// After a create, a toggle, an edit or a delete that the backend accepts,
/// the next request is a fetch of the whole list, and once it returns, the
/// list shown is exactly what it returned, whatever was shown before.
pub proof fn lemma_write_then_fetch_shows_server_list(
    m: TodoModel,
    current: TodoResponse,
    id: i64,
    list: Seq<TodoResponse>,
)
    ensures
        after_create(m, Some(201u16)).1 == Some(TodoCall::FetchAll),
        after_fetch(after_create(m, Some(201u16)).0, Some(list)).todos == list,
        after_toggle_read(m, id, Some(current)).1 is Some,
        after_write(after_toggle_read(m, id, Some(current)).0, Some(200u16)).1 == Some(
            TodoCall::FetchAll,
        ),
        after_fetch(after_write(after_toggle_read(m, id, Some(current)).0, Some(200u16)).0, Some(list)).todos
            == list,
        after_edit_saved(m, Some(200u16)).1 == Some(TodoCall::FetchAll),
        after_fetch(after_edit_saved(m, Some(200u16)).0, Some(list)).todos == list,
        after_write(m, Some(200u16)).1 == Some(TodoCall::FetchAll),
        after_fetch(after_write(m, Some(200u16)).0, Some(list)).todos == list,
{
}

/// At most one todo is edited at a time: starting to edit `id` replaces
/// whatever edit was under way, text included, and sends nothing.
pub proof fn lemma_begin_edit_replaces(m: TodoModel, id: i64, title: Seq<char>)
    ensures
        begin_edit(m, id, title).edit_id == Some(id),
        begin_edit(m, id, title).edit_text == title,
        begin_edit(m, id, title).todos == m.todos,
        begin_edit(m, id, title).pending == m.pending,
{
}

/// A draft that is blank once trimmed is never sent.
pub proof fn lemma_blank_draft_not_sent(m: TodoModel)
    requires
        is_blank(m.input),
    ensures
        submit_draft(m) == (m, None::<TodoCall>),
{
}

/// Starts a delete.
pub open spec fn start_delete(m: TodoModel, id: i64) -> (TodoModel, TodoCall) {
    (started(m), TodoCall::Remove { id })
}

} // verus!

verus! {

/// State of the todo list screen.
#[derive(Debug)]
pub struct TodoScreen {
    pub origin: String,
    pub todos: Vec<TodoResponse>,
    pub input: String,
    pub edit_id: Option<i64>,
    pub edit_text: String,
    pub pending: u64,
}

impl View for TodoScreen {
    type V = TodoModel;

    open spec fn view(&self) -> TodoModel {
        TodoModel {
            origin: self.origin@,
            todos: self.todos@,
            input: self.input@,
            edit_id: self.edit_id,
            edit_text: self.edit_text@,
            pending: self.pending,
        }
    }
}

/// The path of one todo.
fn item_path(id: i64) -> (r: String)
    ensures
        r@ == todo_path(id),
{
    let mut p = String::from_str("api/v1/todo/");
    push_decimal(&mut p, id);
    p
}

fn call_fetch(origin: &str, token: &Option<String>) -> (r: ApiRequest)
    ensures
        sends(r, origin@, *token, TodoCall::FetchAll),
{
    request(Method::Get, origin, "api/v1/todo", token, Payload::Empty)
}

fn call_update(origin: &str, token: &Option<String>, id: i64, title: String, completed: bool) -> (r: ApiRequest)
    ensures
        sends(r, origin@, *token, TodoCall::Update { id, title: title@, completed }),
{
    let body = UpdateTodoType {
        id: Some(id),
        title: Some(title),
        description: None,
        completed: Some(completed),
    };
    request(Method::Put, origin, "api/v1/todo", token, Payload::Update(body))
}

impl TodoScreen {
    /// An empty screen for the backend at `origin`.
    pub fn new(origin: String) -> (r: TodoScreen)
        ensures
            r@ == (TodoModel {
                origin: origin@,
                todos: Seq::empty(),
                input: Seq::empty(),
                edit_id: None,
                edit_text: Seq::empty(),
                pending: 0,
            }),
    {
        TodoScreen {
            origin,
            todos: Vec::new(),
            input: String::new(),
            edit_id: None,
            edit_text: String::new(),
            pending: 0,
        }
    }

    fn begin_request(&mut self)
        ensures
            final(self)@ == started(old(self)@),
    {
        if self.pending < u64::MAX {
            self.pending = self.pending + 1;
        }
    }

    fn end_request(&mut self)
        ensures
            final(self)@ == settled(old(self)@),
    {
        if self.pending > 0 {
            self.pending = self.pending - 1;
        }
    }

    /// Whether any request is in flight.
    pub fn is_loading(&self) -> (r: bool)
        ensures
            r == (self.pending > 0),
    {
        self.pending > 0
    }

    /// Whether the add control is enabled: nothing in flight and a draft
    /// that is not blank.
    pub fn can_add(&self) -> (r: bool)
        ensures
            r == (self.pending == 0 && !is_blank(self.input@)),
    {
        let t = trim(self.input.as_str());
        self.pending == 0 && t.unicode_len() > 0
    }

    /// Replaces the draft of a new todo.
    pub fn set_input(&mut self, value: String)
        ensures
            final(self)@ == (TodoModel { input: value@, ..old(self)@ }),
    {
        self.input = value;
    }

    /// Whether the todo with `id` is being edited.
    pub fn is_editing(&self, id: i64) -> (r: bool)
        ensures
            r == (self.edit_id == Some(id)),
    {
        match self.edit_id {
            Some(e) => e == id,
            None => false,
        }
    }

    /// Fetches the whole list.
    pub fn fetch(&mut self, session: &Session) -> (r: ApiRequest)
        ensures
            final(self)@ == start_fetch(old(self)@).0,
            sends(r, old(self)@.origin, session.token, start_fetch(old(self)@).1),
    {
        self.begin_request();
        call_fetch(self.origin.as_str(), &session.token)
    }

    /// Takes the reply to a fetch: the list becomes exactly what the backend
    /// returned, in its order, or empty when it returned nothing usable.
    pub fn on_fetched(&mut self, reply: Reply<Vec<TodoResponse>>)
        ensures
            final(self)@ == after_fetch(old(self)@, fetch_outcome(reply)),
    {
        match classify(reply) {
            Ok(list) => {
                self.todos = list;
            },
            Err(_) => {
                self.todos = Vec::new();
            },
        }
        self.end_request();
    }

    /// Submits the draft of a new todo.
    pub fn submit(&mut self, session: &Session) -> (r: Option<ApiRequest>)
        ensures
            final(self)@ == submit_draft(old(self)@).0,
            sends_step(r, old(self)@.origin, session.token, submit_draft(old(self)@).1),
    {
        let title = trim(self.input.as_str());
        if title.unicode_len() == 0 {
            return None;
        }
        self.begin_request();
        let body = Todo { title, completed: false };
        Some(request(Method::Post, self.origin.as_str(), "api/v1/todo", &session.token, Payload::NewTodo(body)))
    }

    /// Takes the reply to a create.
    pub fn on_created(&mut self, reply: Reply<()>, session: &Session) -> (r: Option<ApiRequest>)
        ensures
            final(self)@ == after_create(old(self)@, answered_status(reply)).0,
            sends_step(r, old(self)@.origin, session.token, after_create(old(self)@, answered_status(reply)).1),
    {
        if status_of(&reply) == Some(201u16) {
            self.input = String::new();
            Some(call_fetch(self.origin.as_str(), &session.token))
        } else {
            self.end_request();
            None
        }
    }

    /// Toggles a todo's completion, starting with a read of its current state.
    pub fn toggle(&mut self, id: i64, session: &Session) -> (r: ApiRequest)
        ensures
            final(self)@ == start_toggle(old(self)@, id).0,
            sends(r, old(self)@.origin, session.token, start_toggle(old(self)@, id).1),
    {
        self.begin_request();
        let path = item_path(id);
        request(Method::Get, self.origin.as_str(), path.as_str(), &session.token, Payload::Empty)
    }

    /// Takes the reply to the read of a toggle.
    pub fn on_toggle_read(&mut self, id: i64, reply: Reply<TodoResponse>, session: &Session) -> (r: Option<ApiRequest>)
        ensures
            final(self)@ == after_toggle_read(old(self)@, id, read_outcome(reply)).0,
            sends_step(r, old(self)@.origin, session.token, after_toggle_read(old(self)@, id, read_outcome(reply)).1),
    {
        match classify(reply) {
            Ok(current) => Some(call_update(self.origin.as_str(), &session.token, id, current.title, !current.completed)),
            Err(_) => {
                self.end_request();
                None
            },
        }
    }

    /// Takes the reply to the write of a toggle.
    pub fn on_updated(&mut self, reply: Reply<()>, session: &Session) -> (r: Option<ApiRequest>)
        ensures
            final(self)@ == after_write(old(self)@, answered_status(reply)).0,
            sends_step(r, old(self)@.origin, session.token, after_write(old(self)@, answered_status(reply)).1),
    {
        if status_of(&reply) == Some(200u16) {
            Some(call_fetch(self.origin.as_str(), &session.token))
        } else {
            self.end_request();
            None
        }
    }

    /// Starts editing the todo `id`, whose title is `title`; an edit under
    /// way is dropped without a request.
    pub fn begin_edit(&mut self, id: i64, title: String)
        ensures
            final(self)@ == begin_edit(old(self)@, id, title@),
    {
        self.edit_id = Some(id);
        self.edit_text = title;
    }

    /// Replaces the text of the edit under way.
    pub fn set_edit_text(&mut self, value: String)
        ensures
            final(self)@ == (TodoModel { edit_text: value@, ..old(self)@ }),
    {
        self.edit_text = value;
    }

    /// Abandons the edit under way, without a request.
    pub fn cancel_edit(&mut self)
        ensures
            final(self)@ == (TodoModel { edit_id: None, ..old(self)@ }),
    {
        self.edit_id = None;
    }

    /// Whether the todo `id` is completed, as the list shows it.
    pub fn completed_of(&self, id: i64) -> (r: bool)
        ensures
            r == completed_in(self.todos@, id),
    {
        let n: usize = self.todos.len();
        let mut i: usize = 0;
        assert(self.todos@.subrange(0, n as int) =~= self.todos@);
        while i < n
            invariant
                n == self.todos@.len(),
                i <= n,
                completed_in(self.todos@.subrange(i as int, n as int), id) == completed_in(self.todos@, id),
            decreases n - i,
        {
            assert(self.todos@.subrange(i as int, n as int).drop_first() =~= self.todos@.subrange(i + 1, n as int));
            if self.todos[i].id == id {
                return self.todos[i].completed;
            }
            i = i + 1;
        }
        false
    }

    /// Saves the edit under way.
    pub fn save_edit(&mut self, session: &Session) -> (r: Option<ApiRequest>)
        ensures
            final(self)@ == save_edit(old(self)@).0,
            sends_step(r, old(self)@.origin, session.token, save_edit(old(self)@).1),
    {
        match self.edit_id {
            Some(id) => {
                let title = trim(self.edit_text.as_str());
                if title.unicode_len() == 0 {
                    return None;
                }
                let completed = self.completed_of(id);
                self.begin_request();
                Some(call_update(self.origin.as_str(), &session.token, id, title, completed))
            },
            None => None,
        }
    }

    /// Takes the reply to a save.
    pub fn on_edit_saved(&mut self, reply: Reply<()>, session: &Session) -> (r: Option<ApiRequest>)
        ensures
            final(self)@ == after_edit_saved(old(self)@, answered_status(reply)).0,
            sends_step(r, old(self)@.origin, session.token, after_edit_saved(old(self)@, answered_status(reply)).1),
    {
        if status_of(&reply) == Some(200u16) {
            self.edit_id = None;
            Some(call_fetch(self.origin.as_str(), &session.token))
        } else {
            self.end_request();
            None
        }
    }

    /// Deletes the todo `id`.
    pub fn delete(&mut self, id: i64, session: &Session) -> (r: ApiRequest)
        ensures
            final(self)@ == start_delete(old(self)@, id).0,
            sends(r, old(self)@.origin, session.token, start_delete(old(self)@, id).1),
    {
        self.begin_request();
        let path = item_path(id);
        request(Method::Delete, self.origin.as_str(), path.as_str(), &session.token, Payload::Empty)
    }

    /// Takes the reply to a delete.
    pub fn on_deleted(&mut self, reply: Reply<()>, session: &Session) -> (r: Option<ApiRequest>)
        ensures
            final(self)@ == after_write(old(self)@, answered_status(reply)).0,
            sends_step(r, old(self)@.origin, session.token, after_write(old(self)@, answered_status(reply)).1),
    {
        self.on_updated(reply, session)
    }
}

} // verus!
