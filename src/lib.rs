//! A small user service: the `users` table, the mapping of its rows to users,
//! and the handling of the list and create requests.

pub mod row;
pub mod service;
pub mod table;
pub mod timestamp;
pub mod user;
