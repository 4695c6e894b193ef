//! Fetching and presenting jokes: the payload model, the classification of a
//! payload into a presentable joke, and the decisions of a bounded retry session.
pub mod classifier;
pub mod models;
pub mod session;

pub use classifier::classify;
pub use models::{Joke, JokeType};
pub use session::{Action, Session};
