//! The decision core of an SVG-to-PNG rendering service.

pub mod dispatcher;
pub mod error;
pub mod pipeline;
pub mod request;
pub mod resolver;
pub mod response;
pub mod text;
