//! Metadata resolution and sync-notification logic of an NFT-aware wallet.
//!
//! - [`collection_id`]: the stable local identity of an NFT collection.
//! - [`metadata`]: the typed off-chain metadata document.
//! - [`resolver`]: turns an owner identity and a metadata document into a
//!   [`resolver::ComputedNftInfo`].
//! - [`events`]: translation of internal sync events into coarse notifications.
//! - [`relay`]: the state machine of the notification relay.
//! - [`session`]: the one-shot start guard of a wallet session.
//! - [`requests`], [`anticounterfeit`]: plain data contracts of the wallet API.
pub mod anticounterfeit;
pub mod collection_id;
pub mod events;
pub mod metadata;
pub mod relay;
pub mod requests;
pub mod resolver;
pub mod session;
