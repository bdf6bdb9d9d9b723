pub mod db;
pub mod messages;
