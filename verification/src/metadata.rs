//! The metadata the vault asks the token-metadata program to attach to the
//! NFTs it mints, as plain values.

use vstd::prelude::*;
use crate::pubkey::Pubkey;
use crate::mystery_box::MysteryBox;

verus! {

/// A creator listed on an NFT.
#[derive(Clone, Copy, Debug)]
pub struct Creator {
    pub address: Pubkey,
    pub verified: bool,
    /// Share of royalties, in percent.
    pub share: u8,
}

/// Metadata of one NFT and of its master edition.
#[derive(Debug)]
pub struct NftMetadata {
    pub name: String,
    pub symbol: String,
    pub uri: String,
    pub seller_fee_basis_points: u16,
    pub creators: Option<Vec<Creator>>,
    /// `Some(size)` marks the NFT as a sized collection.
    pub collection_size: Option<u64>,
    pub is_mutable: bool,
    pub update_authority_is_signer: bool,
    /// Maximum number of prints of the master edition.
    pub max_supply: Option<u64>,
}

/// `m` is the metadata of the collection NFT created by `authority`.
pub open spec fn is_collection_metadata(m: NftMetadata, authority: Pubkey, name: Seq<char>, symbol: Seq<char>, uri: Seq<char>) -> bool {
    &&& m.name@ == name
    &&& m.symbol@ == symbol
    &&& m.uri@ == uri
    &&& m.seller_fee_basis_points == 0
    &&& m.creators matches Some(c) && c@.len() == 1 && c@[0].address@ == authority@
        && !c@[0].verified && c@[0].share == 100
    &&& m.collection_size == Some(0u64)
    &&& m.is_mutable
    &&& m.update_authority_is_signer
    &&& m.max_supply == Some(0u64)
}

/// `m` is the metadata of the NFT minted for box `b`.
pub open spec fn is_box_metadata(m: NftMetadata, b: MysteryBox) -> bool {
    &&& m.name@ == "HERO"@
    &&& m.symbol@ == "HERO"@
    &&& m.uri@ == b.uri@
    &&& m.seller_fee_basis_points == b.rarity
    &&& m.creators is None
    &&& m.collection_size is None
    &&& m.is_mutable
    &&& m.update_authority_is_signer
    &&& m.max_supply == Some(0u64)
}

/// The metadata of the collection NFT: the given name, symbol and URI, no
/// seller fee, the authority as sole (unverified) creator with the whole
/// share, an empty sized collection, and a master edition without prints.
pub fn collection_nft_metadata(authority: Pubkey, name: String, symbol: String, uri: String) -> (m: NftMetadata)
    ensures
        is_collection_metadata(m, authority, name@, symbol@, uri@),
{
    let mut creators: Vec<Creator> = Vec::new();
    creators.push(Creator { address: authority, verified: false, share: 100 });
    NftMetadata {
        name,
        symbol,
        uri,
        seller_fee_basis_points: 0,
        creators: Some(creators),
        collection_size: Some(0),
        is_mutable: true,
        update_authority_is_signer: true,
        max_supply: Some(0),
    }
}

/// The metadata of the NFT a box mints: named and ticketed "HERO", pointing
/// at the box's URI, with the rarity as seller fee, no creators, not a
/// collection itself, and a master edition without prints.
pub fn box_nft_metadata(b: &MysteryBox) -> (m: NftMetadata)
    ensures
        is_box_metadata(m, *b),
{
    NftMetadata {
        name: String::from_str("HERO"),
        symbol: String::from_str("HERO"),
        uri: b.uri.clone(),
        seller_fee_basis_points: b.rarity,
        creators: None,
        collection_size: None,
        is_mutable: true,
        update_authority_is_signer: true,
        max_supply: Some(0),
    }
}

} // verus!
