//! Search client core for a remote catalogue of AI-assistant skills: the query
//! model, the request builder, a tolerant decoder for the service's JSON answer,
//! and the projection of that answer into a compact output document.

pub mod json;
pub mod model;
pub mod decode;
pub mod project;
pub mod request;
