//! Content visibility and session authorization for a forum backend.

pub mod text;
pub mod model;
pub mod security;
pub mod sanitize;
pub mod visibility;
pub mod form_validation;
pub mod upload;
pub mod convert;
pub mod content;
