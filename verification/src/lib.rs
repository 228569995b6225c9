//! Query building, response normalisation, candidate selection and bounded
//! image retrieval for two image-board providers.

pub mod api;
pub mod details;
pub mod fetch;
pub mod filters;
pub mod json;
pub mod record;
