pub mod note;
pub mod user;
