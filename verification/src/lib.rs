//! Decisions of a small relay service: it reads the statistics of one mailing
//! list, turns them into a short HTML summary and passes that on to a team
//! chat. Everything here is a function of plain values; fetching, posting and
//! serving are left to the program built around this library.

pub mod config;
pub mod envelope;
pub mod pipeline;
pub mod routes;
pub mod stats;
pub mod text;
