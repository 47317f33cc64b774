//! Typed request/response bridge between a desktop UI and a JSON backend.
pub mod catalog;
pub mod decode;
pub mod encode;
pub mod error;
pub mod json;
pub mod method;
pub mod model;
pub mod request;
pub mod text;
