//! Blackcurrant's backup synchronisation engine and the form rules of its
//! record-keeping screens, each function with a contract that Verus proves.

pub mod config;
pub mod controller;
pub mod entry;
pub mod export;
pub mod filters;
pub mod laws;
pub mod loopback;
pub mod modal;
pub mod panel;
pub mod protocol;
pub mod quantity;
pub mod records;
pub mod remote;
pub mod retention;
pub mod seq_facts;
pub mod sign;
pub mod store;
pub mod students;
pub mod summary;
pub mod table;
pub mod text;
pub mod timestamp;
pub mod worker;
