//! The rules by which a puzzle hunt server handles requests: which errors a
//! request is refused with and how they are worded, answered and logged, what
//! wrong answers cost, what a session says about its user, which team a request
//! acts for, and what the replies of the database mean.

pub mod clock;
pub mod error;
pub mod penalty;
pub mod request;
pub mod session;
pub mod store;
pub mod team;
pub mod text;
