//! The manager's services: what each command decides between its file
//! system and process work.
pub mod services;
