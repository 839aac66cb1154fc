use veriflair::nft::{
    icrc7_collection_metadata, icrc7_token_metadata, icrc7_tokens_of, icrc7_total_supply,
    icrc7_transfer, is_backend_canister, mint, nat_to_u64, set_backend_canister, text_to_u64,
    tokens_of, Attribute, TokenMetadata, TransferArgs,
};

fn pair(name: &str, value: &str) -> (String, String) {
    (name.to_string(), value.to_string())
}

fn token(token_id: u64) -> TokenMetadata {
    TokenMetadata {
        token_id,
        name: "Commit Master".to_string(),
        description: "d".to_string(),
        image: "/i.svg".to_string(),
        attributes: vec![
            Attribute { name: "Tier".to_string(), value: "Gold I".to_string() },
            Attribute { name: "".to_string(), value: "".to_string() },
        ],
        created_at: 12,
    }
}

fn owners() -> Vec<(u64, Vec<u8>)> {
    vec![
        (1, vec![1]),
        (2, vec![2]),
        (3, vec![1]),
        (4, vec![1]),
        (7, vec![2]),
        (9, vec![1]),
        (u64::MAX, vec![1]),
    ]
}

#[test]
fn texts_read_as_numbers_or_zero() {
    assert_eq!(text_to_u64("0"), 0);
    assert_eq!(text_to_u64("999"), 999);
    assert_eq!(text_to_u64("+5"), 5);
    assert_eq!(text_to_u64("18446744073709551615"), u64::MAX);
    assert_eq!(text_to_u64("18446744073709551616"), 0);
    assert_eq!(text_to_u64("1_000"), 0);
    assert_eq!(text_to_u64(""), 0);
    assert_eq!(text_to_u64("-1"), 0);
    assert_eq!(text_to_u64("12 "), 0);
}

#[test]
fn naturals_go_by_their_text() {
    assert_eq!(nat_to_u64(&candid::Nat::from(0u32)), 0);
    assert_eq!(nat_to_u64(&candid::Nat::from(7u32)), 7);
    assert_eq!(nat_to_u64(&candid::Nat::from(999u32)), 999);
    // From a thousand on the text groups the digits, and reads as no number.
    assert_eq!(nat_to_u64(&candid::Nat::from(1000u32)), 0);
    assert_eq!(nat_to_u64(&candid::Nat::from(u64::MAX)), 0);
    for n in [0u32, 5, 100, 999, 1000, 123456] {
        let number = candid::Nat::from(n);
        assert_eq!(nat_to_u64(&number), number.to_string().parse::<u64>().unwrap_or(0));
    }
}

#[test]
fn minter_is_named_once() {
    assert_eq!(set_backend_canister(None, vec![1, 2]), Ok(vec![1, 2]));
    assert_eq!(
        set_backend_canister(Some(&[9]), vec![1, 2]),
        Err("Backend canister already set".to_string())
    );
    assert_eq!(
        set_backend_canister(Some(&[1, 2]), vec![1, 2]),
        Err("Backend canister already set".to_string())
    );
}

#[test]
fn only_the_minter_mints() {
    assert_eq!(is_backend_canister(Some(&[1, 2]), &[1, 2]), Ok(()));
    assert_eq!(is_backend_canister(Some(&[]), &[]), Ok(()));
    assert_eq!(
        is_backend_canister(Some(&[1, 2]), &[1, 3]),
        Err("Only backend canister can mint tokens".to_string())
    );
    assert_eq!(
        is_backend_canister(Some(&[1, 2]), &[1]),
        Err("Only backend canister can mint tokens".to_string())
    );
    assert_eq!(
        is_backend_canister(None, &[1, 2]),
        Err("Backend canister not configured".to_string())
    );
}

#[test]
fn collection_describes_itself() {
    assert_eq!(
        icrc7_collection_metadata(),
        vec![
            pair("icrc7:name", "VeriFlair Badges"),
            pair("icrc7:symbol", "VFB"),
            pair(
                "icrc7:description",
                "Soulbound NFT badges representing verified developer skills and achievements"
            ),
            pair("icrc7:max_supply", "18446744073709551615"),
            pair("icrc7:supply_cap", "18446744073709551615"),
            pair("icrc7:transfer_restrictions", "Soulbound - transfers not allowed"),
        ]
    );
}

#[test]
fn supply_is_one_less_than_the_next_number() {
    assert_eq!(icrc7_total_supply(1), 0);
    assert_eq!(icrc7_total_supply(42), 41);
    assert_eq!(icrc7_total_supply(u64::MAX), u64::MAX - 1);
    assert_eq!(icrc7_total_supply(0), u64::MAX);
}

#[test]
fn token_describes_itself() {
    assert_eq!(
        icrc7_token_metadata(&token(31)),
        vec![
            pair("name", "Commit Master"),
            pair("description", "d"),
            pair("image", "/i.svg"),
            pair("attr_Tier", "Gold I"),
            pair("attr_", ""),
            pair("token_id", "31"),
            pair("created_at", "12"),
        ]
    );
    let mut bare = token(0);
    bare.attributes.clear();
    bare.created_at = u64::MAX;
    assert_eq!(
        icrc7_token_metadata(&bare),
        vec![
            pair("name", "Commit Master"),
            pair("description", "d"),
            pair("image", "/i.svg"),
            pair("token_id", "0"),
            pair("created_at", "18446744073709551615"),
        ]
    );
}

#[test]
fn tokens_never_change_hands() {
    assert!(icrc7_transfer(&[]).is_empty());
    let args = [
        TransferArgs { from: vec![1], to: vec![2], token_id: 1 },
        TransferArgs { from: vec![2], to: vec![2], token_id: 99 },
    ];
    assert_eq!(
        icrc7_transfer(&args),
        vec![
            Some("Soulbound tokens cannot be transferred".to_string()),
            Some("Soulbound tokens cannot be transferred".to_string()),
        ]
    );
}

#[test]
fn tokens_are_listed_in_pages() {
    let all = owners();
    assert_eq!(tokens_of(&all, &[1], None, 100), vec![1, 3, 4, 9, u64::MAX]);
    assert_eq!(tokens_of(&all, &[1], None, 2), vec![1, 3]);
    assert_eq!(tokens_of(&all, &[1], Some(3), 2), vec![4, 9]);
    assert_eq!(tokens_of(&all, &[1], Some(9), 2), vec![u64::MAX]);
    assert_eq!(tokens_of(&all, &[1], Some(0), 1), vec![1]);
    assert_eq!(tokens_of(&all, &[2], None, 100), vec![2, 7]);
    assert_eq!(tokens_of(&all, &[3], None, 100), Vec::<u64>::new());
    assert_eq!(tokens_of(&all, &[1], None, 0), Vec::<u64>::new());
    assert_eq!(tokens_of(&[], &[1], None, 5), Vec::<u64>::new());
    // Behind the last number the listing starts over.
    assert_eq!(tokens_of(&all, &[1], Some(u64::MAX), 2), vec![1, 3]);
}

#[test]
fn pages_are_asked_for_in_naturals() {
    let all = owners();
    let nat = |n: u32| candid::Nat::from(n);
    assert_eq!(icrc7_tokens_of(&all, &[1], None, None), vec![1, 3, 4, 9, u64::MAX]);
    assert_eq!(icrc7_tokens_of(&all, &[1], None, Some(&nat(2))), vec![1, 3]);
    assert_eq!(icrc7_tokens_of(&all, &[1], Some(&nat(3)), Some(&nat(2))), vec![4, 9]);
    assert_eq!(icrc7_tokens_of(&all, &[1], Some(&nat(3)), None), vec![4, 9, u64::MAX]);
    assert_eq!(icrc7_tokens_of(&all, &[1], None, Some(&nat(0))), Vec::<u64>::new());
    // A limit of a thousand or more reads as zero, a start likewise.
    assert_eq!(icrc7_tokens_of(&all, &[1], None, Some(&nat(1000))), Vec::<u64>::new());
    assert_eq!(icrc7_tokens_of(&all, &[1], Some(&nat(5000)), Some(&nat(2))), vec![1, 3]);
}

#[test]
fn minting_numbers_the_token() {
    let r = mint(5, Some(2), token(0), 99);
    let mut expected = token(5);
    expected.created_at = 99;
    assert_eq!(r.token, expected);
    assert_eq!(r.next_token_id, 6);
    assert_eq!(r.balance, 3);
    let r = mint(1, None, token(77), 0);
    assert_eq!(r.token.token_id, 1);
    assert_eq!(r.token.created_at, 0);
    assert_eq!(r.next_token_id, 2);
    assert_eq!(r.balance, 1);
    let r = mint(u64::MAX, Some(u64::MAX), token(0), 1);
    assert_eq!(r.token.token_id, u64::MAX);
    assert_eq!(r.next_token_id, 0);
    assert_eq!(r.balance, 0);
}
