//! The logic of a command-line client for a cryptocurrency market-data
//! service: which address each command asks, what it makes of the records
//! that come back, and the text it shows.
//!
//! The library performs no input or output. A caller runs a [`session`]:
//! it is told which address to fetch, hands back what it received, and is
//! told what to print or with which error to stop.

pub mod error;
pub mod price;
pub mod records;
pub mod report;
pub mod request;
pub mod session;
pub mod text;
