//! What a purchased mystery box contains.
//!
//! The avatar is picked by the first byte of the Keccak-256 digest of the
//! purchase time; the rarity by a small linear congruential step over the
//! bytes of the purchase time.  Rarer boxes carry a higher interest rate and
//! point at a different image collection.

use vstd::prelude::*;

verus! {

/// Number of avatars a box can hold.
pub const AVATAR_COUNT: usize = 9;

/// Multiplier of the linear congruential step that rolls the rarity.
pub const RARITY_MULTIPLIER: u64 = 6364136223846793005;

/// Yearly interest rates granted by a common, a rare and an epic box.
pub const COMMON_RATE: u64 = 1825;
pub const RARE_RATE: u64 = 2920;
pub const EPIC_RATE: u64 = 3650;

pub open spec fn avatar_name_spec(index: int) -> Seq<char> {
    if index == 0 {
        "GIRL-NINJA"@
    } else if index == 1 {
        "BLUE-NINJA"@
    } else if index == 2 {
        "ROBOT"@
    } else if index == 3 {
        "EVIL-NINJA-1"@
    } else if index == 4 {
        "EVIL-NINJA-2"@
    } else if index == 5 {
        "GHOST"@
    } else if index == 6 {
        "WHITE-NINJA"@
    } else if index == 7 {
        "BLACK-NINJA"@
    } else {
        "SAMURAI"@
    }
}

/// The avatar stored at `index` of the catalogue.
pub fn avatar_name(index: usize) -> (name: &'static str)
    requires
        index < AVATAR_COUNT,
    ensures
        name@ == avatar_name_spec(index as int),
{
    if index == 0 {
        "GIRL-NINJA"
    } else if index == 1 {
        "BLUE-NINJA"
    } else if index == 2 {
        "ROBOT"
    } else if index == 3 {
        "EVIL-NINJA-1"
    } else if index == 4 {
        "EVIL-NINJA-2"
    } else if index == 5 {
        "GHOST"
    } else if index == 6 {
        "WHITE-NINJA"
    } else if index == 7 {
        "BLACK-NINJA"
    } else {
        "SAMURAI"
    }
}

/// Byte `k` (most significant first) of the 8-byte two's-complement encoding of `t`.
pub open spec fn be_byte(t: i64, k: int) -> u8 {
    ((t as u64) >> ((56 - 8 * k) as u64)) as u8
}

/// The big-endian bytes of `t`.
pub open spec fn be_bytes(t: i64) -> Seq<u8> {
    Seq::new(8, |k: int| be_byte(t, k))
}

/// The big-endian bytes of a timestamp, the seed of both draws.
pub fn timestamp_seed(t: i64) -> (seed: [u8; 8])
    ensures
        seed@ == be_bytes(t),
{
    let u = t as u64;
    let seed = [
        (u >> 56u64) as u8,
        (u >> 48u64) as u8,
        (u >> 40u64) as u8,
        (u >> 32u64) as u8,
        (u >> 24u64) as u8,
        (u >> 16u64) as u8,
        (u >> 8u64) as u8,
        u as u8,
    ];
    assert(seed@ =~= be_bytes(t)) by {
        assert((u >> 0u64) == u) by (bit_vector);
    }
    seed
}

/// The Keccak-256 digest of `data`.
pub uninterp spec fn keccak256(data: Seq<u8>) -> Seq<u8>;

/// Calls `solana_program::keccak::hash` (through `anchor_lang`), which returns
/// the 32-byte Keccak-256 digest of `data`.  The contract only names the
/// digest as a function of the bytes hashed; what Keccak-256 computes is not
/// stated.
#[verifier::external_body]
fn keccak_digest(data: &[u8]) -> (digest: [u8; 32])
    ensures
        digest@ == keccak256(data@),
{
    anchor_lang::solana_program::keccak::hash(data).to_bytes()
}

/// The catalogue index a digest selects: its first byte modulo the catalogue size.
pub fn avatar_for_digest(digest: &[u8; 32]) -> (index: usize)
    ensures
        index == digest@[0] as int % AVATAR_COUNT as int,
        index < AVATAR_COUNT,
{
    (digest[0] as usize) % AVATAR_COUNT
}

/// The catalogue index of the avatar drawn at time `t`.
pub fn avatar_for_timestamp(t: i64) -> (index: usize)
    ensures
        index == keccak256(be_bytes(t))[0] as int % AVATAR_COUNT as int,
        index < AVATAR_COUNT,
{
    let seed = timestamp_seed(t);
    let digest = keccak_digest(&seed);
    avatar_for_digest(&digest)
}

pub open spec fn byte_sum(s: Seq<u8>) -> int
    decreases s.len(),
{
    if s.len() == 0 {
        0
    } else {
        byte_sum(s.drop_last()) + s.last()
    }
}

/// The rarity roll in `0..100`: sum the seed bytes, then one wrapping step
/// `x * RARITY_MULTIPLIER + 1` modulo 2^64, then the remainder by 100.
pub open spec fn rarity_roll_spec(t: i64) -> int {
    let x = byte_sum(be_bytes(t));
    (((x * RARITY_MULTIPLIER) % 0x1_0000_0000_0000_0000 + 1) % 0x1_0000_0000_0000_0000) % 100
}

/// The yearly rate of the box whose rarity is rolled at time `t`.
pub fn drawn_rate(t: i64) -> (rate: u64)
    ensures
        rate == drawn_rate_spec(t),
{
    rate_for_rarity(rarity_for_roll(rarity_roll(t)))
}

/// The rarity roll of a box bought at time `t`.
pub fn rarity_roll(t: i64) -> (roll: u8)
    ensures
        roll == rarity_roll_spec(t),
        roll < 100,
{
    let seed = timestamp_seed(t);
    let mut acc: u64 = 0;
    let mut i: usize = 0;
    while i < 8
        invariant
            i <= 8,
            seed@ == be_bytes(t),
            acc == byte_sum(seed@.take(i as int)),
            acc <= 255 * i,
        decreases 8 - i,
    {
        assert(seed@.take(i + 1).drop_last() =~= seed@.take(i as int));
        acc = acc.wrapping_add(seed[i] as u64);
        i = i + 1;
    }
    assert(seed@.take(8) =~= seed@);
    let hash = acc.wrapping_mul(RARITY_MULTIPLIER).wrapping_add(1);
    (hash % 100) as u8
}

/// The rarity a roll yields: 1 (common) below 70, 2 (rare) below 90, else 3 (epic).
pub open spec fn rarity_spec(roll: int) -> u16 {
    if roll < 70 {
        1
    } else if roll < 90 {
        2
    } else {
        3
    }
}

pub open spec fn rate_for_rarity_spec(rarity: u16) -> u64 {
    if rarity == 1 {
        COMMON_RATE
    } else if rarity == 2 {
        RARE_RATE
    } else {
        EPIC_RATE
    }
}

pub open spec fn base_uri_spec(roll: int) -> Seq<char> {
    if roll < 70 {
        "https://bafybeifgvugqgl72xxztucdsv2l3x6fl67wksogqdrggnmomscqm5xte4u.ipfs.w3s.link/"@
    } else if roll < 90 {
        "https://bafybeia3hjnbr3jhmsidlp226pffotky5xuhmbj4waotmm5owohcygs6nm.ipfs.w3s.link/"@
    } else {
        "https://bafybeigoivokvnbgv6aib27k3g76kx562xmqsksgk7mpusqb4abqicscdy.ipfs.w3s.link/"@
    }
}

/// The rarity of a roll.
pub fn rarity_for_roll(roll: u8) -> (rarity: u16)
    ensures
        rarity == rarity_spec(roll as int),
{
    if roll < 70 {
        1
    } else if roll < 90 {
        2
    } else {
        3
    }
}

/// The yearly interest rate a box of the given rarity grants.
pub fn rate_for_rarity(rarity: u16) -> (rate: u64)
    ensures
        rate == rate_for_rarity_spec(rarity),
{
    if rarity == 1 {
        COMMON_RATE
    } else if rarity == 2 {
        RARE_RATE
    } else {
        EPIC_RATE
    }
}

/// The image collection a roll points at.
pub fn base_uri_for_roll(roll: u8) -> (uri: &'static str)
    ensures
        uri@ == base_uri_spec(roll as int),
{
    if roll < 70 {
        "https://bafybeifgvugqgl72xxztucdsv2l3x6fl67wksogqdrggnmomscqm5xte4u.ipfs.w3s.link/"
    } else if roll < 90 {
        "https://bafybeia3hjnbr3jhmsidlp226pffotky5xuhmbj4waotmm5owohcygs6nm.ipfs.w3s.link/"
    } else {
        "https://bafybeigoivokvnbgv6aib27k3g76kx562xmqsksgk7mpusqb4abqicscdy.ipfs.w3s.link/"
    }
}

/// The content of one mystery box.
#[derive(Debug)]
pub struct MysteryBox {
    /// Index of the avatar in the catalogue.
    pub avatar: usize,
    /// The roll in `0..100` that decided the rarity.
    pub roll: u8,
    /// 1 (common), 2 (rare) or 3 (epic); also the NFT's seller fee in basis points.
    pub rarity: u16,
    /// The yearly interest rate the box grants.
    pub interest_rate: u64,
    /// Where the box's metadata lives: `<collection of the rarity><avatar>.json`.
    pub uri: String,
}

/// The box drawn from an avatar index and a rarity roll.
pub fn open_box(avatar: usize, roll: u8) -> (b: MysteryBox)
    requires
        avatar < AVATAR_COUNT,
    ensures
        b.avatar == avatar,
        b.roll == roll,
        b.rarity == rarity_spec(roll as int),
        b.interest_rate == rate_for_rarity_spec(rarity_spec(roll as int)),
        b.uri@ == base_uri_spec(roll as int) + avatar_name_spec(avatar as int) + ".json"@,
{
    let name = avatar_name(avatar);
    let rarity = rarity_for_roll(roll);
    let interest_rate = rate_for_rarity(rarity);
    let mut uri = String::from_str(base_uri_for_roll(roll));
    uri.append(name);
    uri.append(".json");
    MysteryBox { avatar, roll, rarity, interest_rate, uri }
}

/// The yearly rate of the box whose rarity is rolled at time `t`.
pub open spec fn drawn_rate_spec(t: i64) -> u64 {
    rate_for_rarity_spec(rarity_spec(rarity_roll_spec(t)))
}

/// `b` is the box bought with the clock read as `avatar_time` and then as
/// `rarity_time`: the avatar from the Keccak-256 digest of the first
/// reading, the rarity from the roll of the second, the rate of that rarity,
/// and the URI `<collection of the rarity><avatar>.json`.
pub open spec fn drawn_box(b: MysteryBox, avatar_time: i64, rarity_time: i64) -> bool {
    &&& b.avatar == keccak256(be_bytes(avatar_time))[0] as int % AVATAR_COUNT as int
    &&& b.roll == rarity_roll_spec(rarity_time)
    &&& b.rarity == rarity_spec(b.roll as int)
    &&& b.interest_rate == rate_for_rarity_spec(b.rarity)
    &&& b.uri@ == base_uri_spec(b.roll as int) + avatar_name_spec(b.avatar as int) + ".json"@
}

/// The box bought at a time: the avatar is drawn from the first reading of
/// the clock, the rarity from the second.
pub fn draw_box(avatar_time: i64, rarity_time: i64) -> (b: MysteryBox)
    ensures
        drawn_box(b, avatar_time, rarity_time),
        b.interest_rate == drawn_rate_spec(rarity_time),
{
    let avatar = avatar_for_timestamp(avatar_time);
    let roll = rarity_roll(rarity_time);
    open_box(avatar, roll)
}

} // verus!
