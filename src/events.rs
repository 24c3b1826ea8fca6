//! Internal sync-engine events and the coarse notifications sent outward.
use vstd::prelude::*;

verus! {

/// An event of the wallet's sync engine.
#[derive(Clone, Debug, PartialEq, Eq)]
pub enum SyncEvent {
    /// Connected to a peer, whose address is given.
    Start(String),
    Stop,
    Subscribed,
    DerivationIndex { next_index: u32 },
    CoinsUpdated,
    TransactionUpdated { transaction_id: [u8; 32] },
    TransactionEnded { transaction_id: [u8; 32], success: bool },
    OfferUpdated { offer_id: [u8; 32] },
    PuzzleBatchSynced,
    CatInfo,
    DidInfo,
    NftData,
}

/// A notification for external consumers, who re-query state on receipt.
#[derive(Clone, Debug, PartialEq, Eq)]
pub enum ApiEvent {
    Start { ip: String },
    Stop,
    Subscribed,
    Derivation,
    CoinState,
    PuzzleBatchSynced,
    CatInfo,
    DidInfo,
    NftInfo,
}

/// Whether an event reports a change of coin, transaction or offer state.
pub open spec fn is_coin_state_cause(e: SyncEvent) -> bool {
    match e {
        SyncEvent::CoinsUpdated => true,
        SyncEvent::TransactionUpdated { .. } => true,
        SyncEvent::TransactionEnded { .. } => true,
        SyncEvent::OfferUpdated { .. } => true,
        _ => false,
    }
}

/// The notification that an internal event becomes.
pub open spec fn translate_spec(e: SyncEvent) -> ApiEvent {
    match e {
        SyncEvent::Start(ip) => ApiEvent::Start { ip },
        SyncEvent::Stop => ApiEvent::Stop,
        SyncEvent::Subscribed => ApiEvent::Subscribed,
        SyncEvent::DerivationIndex { .. } => ApiEvent::Derivation,
        SyncEvent::CoinsUpdated => ApiEvent::CoinState,
        SyncEvent::TransactionUpdated { .. } => ApiEvent::CoinState,
        SyncEvent::TransactionEnded { .. } => ApiEvent::CoinState,
        SyncEvent::OfferUpdated { .. } => ApiEvent::CoinState,
        SyncEvent::PuzzleBatchSynced => ApiEvent::PuzzleBatchSynced,
        SyncEvent::CatInfo => ApiEvent::CatInfo,
        SyncEvent::DidInfo => ApiEvent::DidInfo,
        SyncEvent::NftData => ApiEvent::NftInfo,
    }
}

/// Translates an internal event into its external notification.
pub fn translate(e: SyncEvent) -> (r: ApiEvent)
    ensures
        r == translate_spec(e),
{
    match e {
        SyncEvent::Start(ip) => ApiEvent::Start { ip },
        SyncEvent::Stop => ApiEvent::Stop,
        SyncEvent::Subscribed => ApiEvent::Subscribed,
        SyncEvent::DerivationIndex { .. } => ApiEvent::Derivation,
        SyncEvent::CoinsUpdated
        | SyncEvent::TransactionUpdated { .. }
        | SyncEvent::TransactionEnded { .. }
        | SyncEvent::OfferUpdated { .. } => ApiEvent::CoinState,
        SyncEvent::PuzzleBatchSynced => ApiEvent::PuzzleBatchSynced,
        SyncEvent::CatInfo => ApiEvent::CatInfo,
        SyncEvent::DidInfo => ApiEvent::DidInfo,
        SyncEvent::NftData => ApiEvent::NftInfo,
    }
}

/// Every internal event maps to one notification (the mapping is a total
/// function, an exhaustive match), and that notification is `CoinState`
/// exactly for the coin, transaction and offer updates.
pub proof fn lemma_coin_state_causes(e: SyncEvent)
    ensures
        (translate_spec(e) == ApiEvent::CoinState) <==> is_coin_state_cause(e),
{
}

} // verus!
