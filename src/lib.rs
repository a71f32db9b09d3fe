//! A gateway core that turns a multipart request (a template, JSON data, image
//! assets and fonts) into the typed input of a document engine, guards it with
//! a shared secret, and maps every outcome to a response.
pub mod assets;
pub mod auth;
pub mod convert;
pub mod error;
pub mod intake;
pub mod json;
pub mod laws;
pub mod reply;
pub mod value;
