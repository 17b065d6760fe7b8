pub mod administrators;
pub mod comments;
pub mod departments;
