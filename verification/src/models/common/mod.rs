//! Descriptions shared by the handles and the events.
pub mod commit;
pub mod issue;
pub mod repository;
pub mod team;
pub mod user;
