//! State shared by every screen.
pub mod header;
