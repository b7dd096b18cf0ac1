//! Core rules of the Tira ticket tracker: sessions and the authentication
//! guard, the bounded notification queue and its worker, and the workflows
//! that create tickets, comments and assignments.
//!
//! The data store, the HTTP layer and the mail relay are collaborators: the
//! functions here take what was read from them as plain values and return
//! what is to be written or sent.

pub mod config;
pub mod controller;
pub mod dao;
pub mod errors;
pub mod models;
pub mod service;
pub mod text;
