//! Resolution of an NFT's off-chain metadata into locally trusted fields.
use vstd::prelude::*;
use crate::collection_id::{calculate_collection_id, collection_id_of};
use crate::metadata::{first_icon, find_icon, marker_is_sensitive, Collection, MetadataDocument};

verus! {

/// A collection as the wallet stores it, keyed by `collection_id`.
#[derive(Clone, Debug, PartialEq, Eq)]
pub struct CollectionRow {
    pub collection_id: [u8; 32],
    pub did_id: [u8; 32],
    pub metadata_collection_id: String,
    pub name: Option<String>,
    pub icon: Option<String>,
    pub visible: bool,
}

/// What the wallet takes from an NFT's off-chain metadata.
#[derive(Clone, Debug, PartialEq, Eq)]
pub struct ComputedNftInfo {
    pub name: Option<String>,
    pub sensitive_content: bool,
    pub collection: Option<CollectionRow>,
}

/// The result when no usable metadata is at hand.
pub open spec fn empty_info() -> ComputedNftInfo {
    ComputedNftInfo { name: None, sensitive_content: false, collection: None }
}

impl Default for ComputedNftInfo {
    fn default() -> (r: Self)
        ensures
            r == empty_info(),
    {
        ComputedNftInfo { name: None, sensitive_content: false, collection: None }
    }
}

/// The icon that a declared collection carries.
pub open spec fn collection_icon(c: Collection) -> Option<String> {
    match c.attributes {
        Some(attrs) => first_icon(attrs@),
        None => None,
    }
}

/// `row` is the record of collection `c`, curated by `owner`.
pub open spec fn is_collection_row(row: CollectionRow, owner: [u8; 32], c: Collection) -> bool {
    &&& row.collection_id@ == collection_id_of(owner@, c.id@)
    &&& row.did_id == owner
    &&& row.metadata_collection_id == c.id
    &&& row.name == Some(c.name)
    &&& row.icon == collection_icon(c)
    &&& row.visible
}

/// `r` is what resolving `doc` for the optional owner `did_id` yields.
pub open spec fn is_resolution(
    r: ComputedNftInfo,
    did_id: Option<[u8; 32]>,
    doc: Option<MetadataDocument>,
) -> bool {
    match doc {
        None => r == empty_info(),
        Some(d) => {
            &&& r.name == Some(d.name)
            &&& r.sensitive_content == marker_is_sensitive(d.sensitive_content)
            &&& match (did_id, d.collection) {
                (Some(owner), Some(c)) => r.collection matches Some(row) && is_collection_row(
                    row,
                    owner,
                    c,
                ),
                _ => r.collection.is_none(),
            }
        },
    }
}

/// Builds the record of collection `c` curated by `owner`.
fn collection_row(owner: [u8; 32], c: Collection) -> (row: CollectionRow)
    ensures
        is_collection_row(row, owner, c),
{
    let collection_id = calculate_collection_id(owner, c.id.as_str());
    let icon = match &c.attributes {
        Some(attrs) => find_icon(attrs),
        None => None,
    };
    CollectionRow {
        collection_id,
        did_id: owner,
        metadata_collection_id: c.id,
        name: Some(c.name),
        icon,
        visible: true,
    }
}

/// Resolves an NFT's metadata document, if one could be read, for the
/// optional identity that owns the NFT. Missing or unreadable metadata
/// yields the empty result; a collection is recorded only where both an
/// owner and a declared collection are present.
pub fn compute_nft_info(did_id: Option<[u8; 32]>, metadata: Option<MetadataDocument>) -> (r:
    ComputedNftInfo)
    ensures
        is_resolution(r, did_id, metadata),
{
    let doc = match metadata {
        Some(doc) => doc,
        None => return ComputedNftInfo::default(),
    };
    let sensitive_content = doc.is_sensitive();
    let collection = match (did_id, doc.collection) {
        (Some(owner), Some(c)) => Some(collection_row(owner, c)),
        _ => None,
    };
    ComputedNftInfo { name: Some(doc.name), sensitive_content, collection }
}

/// Without metadata the result is the empty one, whoever the owner is.
pub proof fn lemma_absent_metadata_gives_empty(r: ComputedNftInfo, did_id: Option<[u8; 32]>)
    requires
        is_resolution(r, did_id, None),
    ensures
        r == empty_info(),
{
}

/// Without an owner no collection is recorded, even where the document
/// declares one; the name and the sensitivity flag still come from it.
pub proof fn lemma_no_owner_no_collection(r: ComputedNftInfo, doc: MetadataDocument)
    requires
        is_resolution(r, None, Some(doc)),
    ensures
        r.collection.is_none(),
        r.name == Some(doc.name),
        r.sensitive_content == marker_is_sensitive(doc.sensitive_content),
{
}

} // verus!
