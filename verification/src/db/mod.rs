pub mod admin;
pub mod users;
