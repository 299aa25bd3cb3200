//! Verified core of a Discord bot: reply texts, argument handling and the
//! decision logic of its commands.
pub mod text;
pub mod duration;
pub mod models;
pub mod amimir;
pub mod discord;
pub mod user;
pub mod nickname;
pub mod replies;

pub use duration::format_duration;
pub use models::{AmimirUrl, NewAmimirUrl};
