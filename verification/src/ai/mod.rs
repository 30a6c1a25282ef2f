//! The text generator: what is asked of it, and what is made of its answer
//! on the way to the commit messages that are offered.

pub mod answer;
pub mod error;
pub mod line;
pub mod request;

pub use self::answer::{
    collect_block, first_suggestion, interpret_response, process_api_response_candidates,
    strip_fences, ApiErrorDetail, Candidate, ModelContent, ModelPart,
};
pub use self::error::AiError;
pub use self::line::{clean_line, keeps, strip_marker, strip_objection};
pub use self::request::{candidate_count, request_url};
