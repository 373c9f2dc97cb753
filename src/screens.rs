//! The view state of each screen.
pub mod form;
pub mod home;
pub mod login;
pub mod register;
pub mod todo;
