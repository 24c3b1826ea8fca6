use wallet_core::collection_id::calculate_collection_id;
use wallet_core::metadata::{
    find_icon, Collection, CollectionAttribute, MetadataDocument, SensitiveContent,
};
use wallet_core::resolver::{compute_nft_info, ComputedNftInfo};

fn attr(kind: Option<&str>, value: Option<&str>) -> CollectionAttribute {
    CollectionAttribute {
        kind: kind.map(|k| k.to_string()),
        value: value.map(|v| v.to_string()),
    }
}

fn document(
    sensitive: Option<SensitiveContent>,
    attributes: Option<Vec<CollectionAttribute>>,
) -> MetadataDocument {
    MetadataDocument {
        name: "Sunrise #1".to_string(),
        sensitive_content: sensitive,
        collection: Some(Collection {
            id: "c1".to_string(),
            name: "Sunrises".to_string(),
            attributes,
        }),
    }
}

fn empty() -> ComputedNftInfo {
    ComputedNftInfo {
        name: None,
        sensitive_content: false,
        collection: None,
    }
}

#[test]
fn no_owner_no_metadata_gives_default() {
    assert_eq!(compute_nft_info(None, None), empty());
}

#[test]
fn owner_without_metadata_gives_default() {
    assert_eq!(compute_nft_info(Some([7u8; 32]), None), empty());
}

#[test]
fn default_info_is_empty() {
    assert_eq!(ComputedNftInfo::default(), empty());
}

#[test]
fn no_owner_means_no_collection() {
    let info = compute_nft_info(None, Some(document(None, None)));
    assert_eq!(info.collection, None);
    assert_eq!(info.name, Some("Sunrise #1".to_string()));
    assert!(!info.sensitive_content);
}

#[test]
fn no_declared_collection_means_no_collection() {
    let mut doc = document(None, None);
    doc.collection = None;
    let info = compute_nft_info(Some([7u8; 32]), Some(doc));
    assert_eq!(info.collection, None);
    assert_eq!(info.name, Some("Sunrise #1".to_string()));
}

#[test]
fn first_icon_attribute_wins() {
    let attrs = vec![
        attr(Some("other"), Some("x")),
        attr(Some("icon"), Some("u1")),
        attr(Some("icon"), Some("u2")),
    ];
    let info = compute_nft_info(Some([7u8; 32]), Some(document(None, Some(attrs))));
    let row = info.collection.expect("collection");
    assert_eq!(row.icon, Some("u1".to_string()));
}

#[test]
fn icon_kind_is_case_sensitive_and_needs_a_value() {
    let attrs = vec![
        attr(Some("Icon"), Some("a")),
        attr(Some("icon"), None),
        attr(None, Some("b")),
        attr(Some("icon"), Some("u3")),
    ];
    assert_eq!(find_icon(&attrs), Some("u3".to_string()));
}

#[test]
fn no_icon_attribute_gives_none() {
    let attrs = vec![attr(Some("banner"), Some("b"))];
    assert_eq!(find_icon(&attrs), None);
    assert_eq!(find_icon(&Vec::new()), None);
}

#[test]
fn full_resolution_builds_collection_row() {
    let owner = [9u8; 32];
    let info = compute_nft_info(Some(owner), Some(document(None, None)));
    assert_eq!(info.name, Some("Sunrise #1".to_string()));
    assert!(!info.sensitive_content);
    let row = info.collection.expect("collection");
    assert_eq!(row.collection_id, calculate_collection_id(owner, "c1"));
    assert_ne!(row.collection_id, owner);
    assert_eq!(row.did_id, owner);
    assert_eq!(row.metadata_collection_id, "c1");
    assert_eq!(row.name, Some("Sunrises".to_string()));
    assert_eq!(row.icon, None);
    assert!(row.visible);
}

#[test]
fn resolution_is_repeatable() {
    let a = compute_nft_info(Some([3u8; 32]), Some(document(None, None)));
    let b = compute_nft_info(Some([3u8; 32]), Some(document(None, None)));
    assert_eq!(a, b);
}

#[test]
fn sensitive_flag_is_taken_from_document() {
    let on = compute_nft_info(None, Some(document(Some(SensitiveContent::Flag(true)), None)));
    assert!(on.sensitive_content);
    let off = compute_nft_info(None, Some(document(Some(SensitiveContent::Flag(false)), None)));
    assert!(!off.sensitive_content);
}

#[test]
fn sensitive_items_count_when_not_empty() {
    let some = SensitiveContent::Items(vec!["violence".to_string()]);
    assert!(compute_nft_info(None, Some(document(Some(some), None))).sensitive_content);
    let none = SensitiveContent::Items(Vec::new());
    assert!(!compute_nft_info(None, Some(document(Some(none), None))).sensitive_content);
}
