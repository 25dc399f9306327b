//! The tools of the extension, each as the request it makes.

pub mod compose;
pub mod contacts;
pub mod filters;
pub mod mail;
