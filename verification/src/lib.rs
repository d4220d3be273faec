//! Popular-post lookup for Pixiv search terms: builds the search request,
//! interprets the JSON answer and renders the two ranked lists as console lines.

pub mod json;
pub mod payload;
pub mod post;
pub mod report;
pub mod request;
pub mod text;
