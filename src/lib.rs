//! The state and decision engine of a fishing-places chat bot: the place
//! catalog with its lazily filled place-info cache, the inline search over
//! it, the classification of inbound updates, the vote board of published
//! reports, and the messages the bot renders.

pub mod bot;
pub mod fish;
pub mod router;
pub mod search;
pub mod telegram;
pub mod text;
