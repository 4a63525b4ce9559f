//! Verified core of a self-hosted blog platform: text utilities, URL and
//! upload validation, HTML rendering of content blocks and site chrome, the
//! planning of a statically generated site and its deployment, and the
//! decisions of its HTTP API.
pub mod text;
pub mod json;
pub mod json_text;
pub mod util;
pub mod render;
pub mod ssg;
pub mod site;
pub mod deploy;
pub mod errors;
pub mod api;
pub mod handlers;
