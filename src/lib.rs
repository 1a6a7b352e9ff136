//! Verified core of a set of challenge-task solutions: the lazily populated vector
//! collection behind question answering (lifecycle, population, search, grounding
//! context), and the text rules of the individual tasks.

pub mod collection;
pub mod error;
pub mod friends;
pub mod pipeline;
pub mod question;
pub mod record;
pub mod render;
pub mod render_form;
pub mod scraper;
pub mod search_api;
pub mod tasks;
pub mod text;
