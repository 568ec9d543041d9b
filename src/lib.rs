pub mod command;
pub mod messages;
pub mod plan;
pub mod query_count;
pub mod updates;
