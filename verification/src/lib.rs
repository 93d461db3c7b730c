//! Client for a Phant data-logging server.
//!
//! A [`Phant`] collects one row of named values, renders it as a query
//! string, and describes the four HTTP exchanges of the service (create a
//! stream, push a row, clear the server's rows, delete the stream) as plain
//! [`Request`] values. The exchange itself is performed by a function that the
//! caller hands in.

pub mod error;
pub mod json;
pub mod lemmas;
pub mod phant;
pub mod query;
pub mod row;
pub mod web;

pub use error::{Error, ErrorKind};
pub use phant::{Phant, StreamSpec};
pub use row::Row;
pub use web::{Method, Request};
