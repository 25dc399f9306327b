//! Verified core of a relay between an assistant and the companion extension
//! of a desktop mail client.
//!
//! - [`auth`] finds the shared secret that the extension wrote at startup.
//! - [`bridge`] holds the rules of one authenticated exchange with the
//!   extension: what is sent, and what becomes of the answer.
//! - [`sanitize`] removes control characters from an answer before it is
//!   parsed.
//! - [`tools`] gives, for each tool, the request it makes; [`request`] is
//!   the shape of such a request.
//! - [`json`] and [`text`] hold what the others share.
//!
//! The library reads no file and sends no request. Files are read and
//! requests are sent by the caller, who hands the outcome back.

pub mod auth;
pub mod bridge;
pub mod json;
pub mod request;
pub mod sanitize;
pub mod text;
pub mod tools;
