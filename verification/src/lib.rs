//! Tennis match results read from the markup of a results page.

pub mod crawler;
pub mod dom;
pub mod text;
pub mod tmatch;
pub mod tournament;
