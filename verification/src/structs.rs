pub mod api;
pub mod person;
