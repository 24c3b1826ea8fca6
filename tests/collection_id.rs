use wallet_core::collection_id::calculate_collection_id;

fn hex(bytes: &[u8]) -> String {
    bytes.iter().map(|b| format!("{:02x}", b)).collect()
}

fn owner(first: u8) -> [u8; 32] {
    let mut id = [0u8; 32];
    for (i, b) in id.iter_mut().enumerate() {
        *b = first.wrapping_add(i as u8);
    }
    id
}

#[test]
fn collection_id_is_deterministic() {
    let a = calculate_collection_id(owner(0), "c1");
    let b = calculate_collection_id(owner(0), "c1");
    assert_eq!(a, b);
}

#[test]
fn collection_id_is_scoped_by_owner() {
    let a = calculate_collection_id(owner(0), "c1");
    let b = calculate_collection_id(owner(1), "c1");
    assert_ne!(a, b);
}

#[test]
fn collection_id_depends_on_external_id() {
    let a = calculate_collection_id(owner(0), "c1");
    let b = calculate_collection_id(owner(0), "c2");
    assert_ne!(a, b);
}

#[test]
fn collection_id_is_sha256_of_owner_then_id() {
    let id = calculate_collection_id(owner(0), "c1");
    assert_eq!(
        hex(&id),
        "6e20624fc695e40903be7a8b26c32c0fa3e67beb87039c9c23952bd5e8ef96c8"
    );
}

#[test]
fn collection_id_with_empty_external_id() {
    let id = calculate_collection_id([0u8; 32], "");
    assert_eq!(
        hex(&id),
        "66687aadf862bd776c8fc18b8e9f8e20089714856ee233b3902a591d0d5f2925"
    );
}
