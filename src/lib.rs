//! State and rules of a todo-list web client: the session token, the
//! requests sent to the backend, the routes, and the view state of each
//! screen with the transitions that user actions and backend replies cause.
pub mod api;
pub mod components;
pub mod router;
pub mod screens;
pub mod session;
pub mod text;
pub mod types;
pub mod utils;
