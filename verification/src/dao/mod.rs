//! The tables that the service keeps in memory, selections from the rows
//! that the store holds, and what is written to it.

pub mod assignments;
pub mod sessions;
pub mod statements;
pub mod tickets;
pub mod users;
