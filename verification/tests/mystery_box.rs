use vault::metadata::{box_nft_metadata, collection_nft_metadata};
use vault::mystery_box::{
    avatar_for_digest, avatar_for_timestamp, avatar_name, base_uri_for_roll, draw_box, open_box,
    rarity_for_roll, rarity_roll, rate_for_rarity, timestamp_seed, AVATAR_COUNT,
};
use vault::pubkey::Pubkey;

const COMMON_URI: &str = "https://bafybeifgvugqgl72xxztucdsv2l3x6fl67wksogqdrggnmomscqm5xte4u.ipfs.w3s.link/";
const RARE_URI: &str = "https://bafybeia3hjnbr3jhmsidlp226pffotky5xuhmbj4waotmm5owohcygs6nm.ipfs.w3s.link/";
const EPIC_URI: &str = "https://bafybeigoivokvnbgv6aib27k3g76kx562xmqsksgk7mpusqb4abqicscdy.ipfs.w3s.link/";

#[test]
fn seed_is_big_endian() {
    assert_eq!(timestamp_seed(0x0102030405060708), [1, 2, 3, 4, 5, 6, 7, 8]);
    assert_eq!(timestamp_seed(-1), [255; 8]);
    assert_eq!(timestamp_seed(1_700_000_000), 1_700_000_000i64.to_be_bytes());
}

#[test]
fn avatar_comes_from_keccak_of_the_time() {
    // First digest bytes: 0 -> 0x01, 1 -> 0x6c, -1 -> 0xad, 1725029869 -> 0xae, 1700000005 -> 0x62.
    assert_eq!(avatar_for_timestamp(0), 1);
    assert_eq!(avatar_for_timestamp(1), 0);
    assert_eq!(avatar_for_timestamp(-1), 2);
    assert_eq!(avatar_for_timestamp(1_725_029_869), 3);
    assert_eq!(avatar_for_timestamp(1_700_000_001), 5);
    assert_eq!(avatar_for_timestamp(1_700_000_005), 8);
}

#[test]
fn avatar_for_digest_uses_first_byte() {
    let mut d = [0u8; 32];
    d[0] = 200;
    d[1] = 7;
    assert_eq!(avatar_for_digest(&d), 200 % 9);
    assert_eq!(AVATAR_COUNT, 9);
}

#[test]
fn catalogue_names() {
    let names = [
        "GIRL-NINJA", "BLUE-NINJA", "ROBOT", "EVIL-NINJA-1", "EVIL-NINJA-2", "GHOST", "WHITE-NINJA",
        "BLACK-NINJA", "SAMURAI",
    ];
    for (i, n) in names.iter().enumerate() {
        assert_eq!(avatar_name(i), *n);
    }
}

#[test]
fn rarity_roll_values() {
    assert_eq!(rarity_roll(0), 1);
    assert_eq!(rarity_roll(1), 6);
    assert_eq!(rarity_roll(-1), 53);
    assert_eq!(rarity_roll(1_700_000_000), 90);
    assert_eq!(rarity_roll(1_700_000_002), 84);
    assert_eq!(rarity_roll(1_700_000_003), 89);
}

#[test]
fn rarity_thresholds_and_rates() {
    assert_eq!(rarity_for_roll(0), 1);
    assert_eq!(rarity_for_roll(69), 1);
    assert_eq!(rarity_for_roll(70), 2);
    assert_eq!(rarity_for_roll(89), 2);
    assert_eq!(rarity_for_roll(90), 3);
    assert_eq!(rarity_for_roll(99), 3);
    assert_eq!(rate_for_rarity(1), 1825);
    assert_eq!(rate_for_rarity(2), 2920);
    assert_eq!(rate_for_rarity(3), 3650);
    assert_eq!(base_uri_for_roll(10), COMMON_URI);
    assert_eq!(base_uri_for_roll(70), RARE_URI);
    assert_eq!(base_uri_for_roll(95), EPIC_URI);
}

#[test]
fn open_box_builds_uri() {
    let b = open_box(8, 75);
    assert_eq!(b.avatar, 8);
    assert_eq!(b.rarity, 2);
    assert_eq!(b.interest_rate, 2920);
    assert_eq!(b.uri, format!("{}SAMURAI.json", RARE_URI));
}

#[test]
fn drawn_boxes() {
    let b = draw_box(1_725_029_869, 1_725_029_869);
    assert_eq!((b.avatar, b.roll, b.rarity, b.interest_rate), (3, 6, 1, 1825));
    assert_eq!(b.uri, format!("{}EVIL-NINJA-1.json", COMMON_URI));
    let b = draw_box(1_700_000_001, 1_700_000_002);
    assert_eq!((b.avatar, b.roll, b.rarity, b.interest_rate), (5, 84, 2, 2920));
    assert_eq!(b.uri, format!("{}GHOST.json", RARE_URI));
    let b = draw_box(1_700_000_005, 1_700_000_000);
    assert_eq!((b.avatar, b.roll, b.rarity, b.interest_rate), (8, 90, 3, 3650));
    assert_eq!(b.uri, format!("{}SAMURAI.json", EPIC_URI));
}

#[test]
fn box_metadata() {
    let b = draw_box(0, 0);
    let m = box_nft_metadata(&b);
    assert_eq!(m.name, "HERO");
    assert_eq!(m.symbol, "HERO");
    assert_eq!(m.uri, format!("{}BLUE-NINJA.json", COMMON_URI));
    assert_eq!(m.seller_fee_basis_points, 1);
    assert!(m.creators.is_none());
    assert_eq!(m.collection_size, None);
    assert!(m.is_mutable && m.update_authority_is_signer);
    assert_eq!(m.max_supply, Some(0));
}

#[test]
fn collection_metadata() {
    let authority = Pubkey { bytes: [4; 32] };
    let m = collection_nft_metadata(authority, "Heroes".to_string(), "HRO".to_string(), "https://x/c.json".to_string());
    assert_eq!(m.name, "Heroes");
    assert_eq!(m.symbol, "HRO");
    assert_eq!(m.uri, "https://x/c.json");
    assert_eq!(m.seller_fee_basis_points, 0);
    let creators = m.creators.unwrap();
    assert_eq!(creators.len(), 1);
    assert_eq!(creators[0].address, authority);
    assert!(!creators[0].verified);
    assert_eq!(creators[0].share, 100);
    assert_eq!(m.collection_size, Some(0));
    assert_eq!(m.max_supply, Some(0));
}
