//! Request and response shapes of the wallet's transaction API. They are
//! handed through to the transaction engine as they are; an absent
//! `auto_submit` reads as `false`.
use vstd::prelude::*;

verus! {

/// An amount in the chain's smallest unit.
#[derive(Clone, Copy, Debug, PartialEq, Eq, Structural)]
pub struct Amount(pub u128);

/// A coin, its ids written in hex.
#[derive(Clone, Debug)]
pub struct CoinJson {
    pub parent_coin_info: String,
    pub puzzle_hash: String,
    pub amount: Amount,
}

/// A coin spend, its programs written in hex.
#[derive(Clone, Debug)]
pub struct CoinSpendJson {
    pub coin: CoinJson,
    pub puzzle_reveal: String,
    pub solution: String,
}

/// A set of coin spends with their aggregated signature.
#[derive(Clone, Debug)]
pub struct SpendBundleJson {
    pub coin_spends: Vec<CoinSpendJson>,
    pub aggregated_signature: String,
}

/// What a transaction spends and creates, for review before submission.
#[derive(Clone, Debug)]
pub struct TransactionSummary {
    pub fee: Amount,
    pub input_coin_ids: Vec<String>,
    pub output_coin_ids: Vec<String>,
}

#[derive(Clone, Debug)]
pub struct SendXch {
    pub address: String,
    pub amount: Amount,
    pub fee: Amount,
    pub auto_submit: bool,
}

#[derive(Clone, Debug)]
pub struct CombineXch {
    pub coin_ids: Vec<String>,
    pub fee: Amount,
    pub auto_submit: bool,
}

#[derive(Clone, Debug)]
pub struct SplitXch {
    pub coin_ids: Vec<String>,
    pub output_count: u32,
    pub fee: Amount,
    pub auto_submit: bool,
}

#[derive(Clone, Debug)]
pub struct CombineCat {
    pub coin_ids: Vec<String>,
    pub fee: Amount,
    pub auto_submit: bool,
}

#[derive(Clone, Debug)]
pub struct SplitCat {
    pub coin_ids: Vec<String>,
    pub output_count: u32,
    pub fee: Amount,
    pub auto_submit: bool,
}

#[derive(Clone, Debug)]
pub struct IssueCat {
    pub name: String,
    pub ticker: String,
    pub amount: Amount,
    pub fee: Amount,
    pub auto_submit: bool,
}

#[derive(Clone, Debug)]
pub struct SendCat {
    pub asset_id: String,
    pub address: String,
    pub amount: Amount,
    pub fee: Amount,
    pub auto_submit: bool,
}

#[derive(Clone, Debug)]
pub struct CreateDid {
    pub name: String,
    pub fee: Amount,
    pub auto_submit: bool,
}

#[derive(Clone, Debug)]
pub struct BulkMintNfts {
    pub mints: Vec<NftMint>,
    pub did_id: String,
    pub fee: Amount,
    pub auto_submit: bool,
}

#[derive(Clone, Debug)]
pub struct NftMint {
    pub edition_number: Option<u32>,
    pub edition_total: Option<u32>,
    pub data_uris: Vec<String>,
    pub metadata_uris: Vec<String>,
    pub license_uris: Vec<String>,
    pub royalty_address: Option<String>,
    pub royalty_percent: Amount,
}

#[derive(Clone, Debug)]
pub struct TransferNfts {
    pub nft_ids: Vec<String>,
    pub address: String,
    pub fee: Amount,
    pub auto_submit: bool,
}

#[derive(Clone, Debug)]
pub struct AddNftUri {
    pub nft_id: String,
    pub uri: String,
    pub fee: Amount,
    pub kind: NftUriKind,
    pub auto_submit: bool,
}

/// Which URI list of an NFT a new URI joins.
#[derive(Clone, Copy, Debug, PartialEq, Eq, Structural)]
pub enum NftUriKind {
    Data,
    Metadata,
    License,
}

#[derive(Clone, Debug)]
pub struct AssignNftsToDid {
    pub nft_ids: Vec<String>,
    pub did_id: Option<String>,
    pub fee: Amount,
    pub auto_submit: bool,
}

#[derive(Clone, Debug)]
pub struct TransferDids {
    pub did_ids: Vec<String>,
    pub address: String,
    pub fee: Amount,
    pub auto_submit: bool,
}

#[derive(Clone, Debug)]
pub struct SignCoinSpends {
    pub coin_spends: Vec<CoinSpendJson>,
    pub auto_submit: bool,
}

#[derive(Clone, Debug)]
pub struct SignCoinSpendsResponse {
    pub spend_bundle: SpendBundleJson,
}

#[derive(Clone, Debug)]
pub struct SubmitTransaction {
    pub spend_bundle: SpendBundleJson,
}

#[derive(Clone, Copy, Debug, PartialEq, Eq, Structural)]
pub struct SubmitTransactionResponse {}

#[derive(Clone, Debug)]
pub struct TransactionResponse {
    pub summary: TransactionSummary,
    pub coin_spends: Vec<CoinSpendJson>,
}

} // verus!
