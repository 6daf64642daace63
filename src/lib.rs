//! A GitHub repository browser's core: decoding API responses, ordering
//! repositories by stars, tracking the API rate limit, and the state
//! machines that drive a search and the application around it.

pub mod app_state;
pub mod decimal;
pub mod decode;
pub mod json;
pub mod model;
pub mod rate_limit;
pub mod search;
pub mod sort;
