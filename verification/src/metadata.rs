use vstd::prelude::*;
use crate::key::Pubkey;
use mpl_token_metadata::state::TokenMetadataAccount;

verus! {

/// A creator of a token, as the token metadata program records it.
#[derive(Clone, Copy, Debug, PartialEq, Eq)]
pub struct Creator {
    pub address: Pubkey,
    pub verified: bool,
    pub share: u8,
}

/// The descriptive data of a token's metadata: name, symbol, uri, royalty and
/// creators.
#[derive(Debug)]
pub struct MetadataData {
    pub name: String,
    pub symbol: String,
    pub uri: String,
    pub seller_fee_basis_points: u16,
    pub creators: Option<Vec<Creator>>,
}

/// The descriptive data of a token as a mathematical value.
pub struct MetadataDataView {
    pub name: Seq<char>,
    pub symbol: Seq<char>,
    pub uri: Seq<char>,
    pub seller_fee_basis_points: u16,
    pub creators: Option<Seq<Creator>>,
}

/// The creators list as a mathematical value.
pub open spec fn creators_view(creators: Option<Vec<Creator>>) -> Option<Seq<Creator>> {
    match creators {
        Some(v) => Some(v@),
        None => None,
    }
}

impl View for MetadataData {
    type V = MetadataDataView;

    open spec fn view(&self) -> MetadataDataView {
        MetadataDataView {
            name: self.name@,
            symbol: self.symbol@,
            uri: self.uri@,
            seller_fee_basis_points: self.seller_fee_basis_points,
            creators: creators_view(self.creators),
        }
    }
}

/// A collection a token belongs to.
#[derive(Clone, Copy, Debug, PartialEq, Eq)]
pub struct Collection {
    pub verified: bool,
    pub key: Pubkey,
}

/// How the uses of a token are spent.
#[derive(Clone, Copy, Debug, PartialEq, Eq, Structural)]
pub enum UseMethod {
    Burn,
    Multiple,
    Single,
}

/// The uses of a token.
#[derive(Clone, Copy, Debug, PartialEq, Eq)]
pub struct Uses {
    pub use_method: UseMethod,
    pub remaining: u64,
    pub total: u64,
}

/// The data that an `UpdateMetadataAccountV2` instruction writes: the
/// descriptive data with a collection and uses.
#[derive(Debug)]
pub struct DataV2 {
    pub name: String,
    pub symbol: String,
    pub uri: String,
    pub seller_fee_basis_points: u16,
    pub creators: Option<Vec<Creator>>,
    pub collection: Option<Collection>,
    pub uses: Option<Uses>,
}

/// `DataV2` as a mathematical value.
pub struct DataV2View {
    pub name: Seq<char>,
    pub symbol: Seq<char>,
    pub uri: Seq<char>,
    pub seller_fee_basis_points: u16,
    pub creators: Option<Seq<Creator>>,
    pub collection: Option<Collection>,
    pub uses: Option<Uses>,
}

impl View for DataV2 {
    type V = DataV2View;

    open spec fn view(&self) -> DataV2View {
        DataV2View {
            name: self.name@,
            symbol: self.symbol@,
            uri: self.uri@,
            seller_fee_basis_points: self.seller_fee_basis_points,
            creators: creators_view(self.creators),
            collection: self.collection,
            uses: self.uses,
        }
    }
}

/// An `UpdateMetadataAccountV2` instruction of the token metadata program,
/// to be invoked with the given signer seeds: the arguments of
/// `mpl_token_metadata::instruction::update_metadata_accounts_v2`.
#[derive(Debug)]
pub struct UpdateMetadataAccountsCall {
    pub program_id: Pubkey,
    pub metadata_account: Pubkey,
    pub update_authority: Pubkey,
    pub new_update_authority: Option<Pubkey>,
    pub data: Option<DataV2>,
    pub primary_sale_happened: Option<bool>,
    pub is_mutable: Option<bool>,
    pub signer_seeds: Vec<Vec<u8>>,
}

/// The written data of a call, as a mathematical value.
pub open spec fn data_v2_view(data: Option<DataV2>) -> Option<DataV2View> {
    match data {
        Some(d) => Some(d@),
        None => None,
    }
}

/// The length of a metadata account of the token metadata program.
pub const MAX_METADATA_LEN: usize = 679;

/// The address of the token metadata program,
/// `metaqbxxUerdq28cj1RbAWkYQm3ybzjb6a8bt518x1s`.
pub open spec fn spec_token_metadata_program_id() -> Seq<u8> {
    seq![11u8, 112, 101, 177, 227, 209, 124, 69, 56, 157, 82, 127, 107, 4, 195, 205,
        88, 184, 108, 115, 26, 160, 253, 181, 73, 182, 209, 188, 3, 248, 41, 70]
}

/// Calls `mpl_token_metadata::id()`.
/// Claimed: it is the address that the crate declares with `declare_id!`,
/// `metaqbxxUerdq28cj1RbAWkYQm3ybzjb6a8bt518x1s`, whose bytes are spelled out.
#[verifier::external_body]
pub(crate) fn token_metadata_program_id() -> (id: Pubkey)
    ensures
        id@ == spec_token_metadata_program_id(),
{
    Pubkey(mpl_token_metadata::id().to_bytes())
}

/// The descriptive data that the token metadata program's `Metadata` account
/// decoder (`TokenMetadataAccount::safe_deserialize`) reads from account bytes,
/// or `None` where it refuses them.
pub uninterp spec fn decoded_metadata_data(data: Seq<u8>) -> Option<MetadataDataView>;

/// The descriptive data as a mathematical value, where there is some.
pub open spec fn metadata_data_view(m: Option<MetadataData>) -> Option<MetadataDataView> {
    match m {
        Some(d) => Some(d@),
        None => None,
    }
}

/// Calls `<mpl_token_metadata::state::Metadata as TokenMetadataAccount>::safe_deserialize`
/// on the bytes of an account and keeps the `data` part of the result.
/// Claimed: the result is `decoded_metadata_data` of the bytes, and it is
/// `None` when the bytes are not exactly `MAX_METADATA_LEN` long (the decoder
/// checks the account type and size first). How the bytes decode is left unsaid.
#[verifier::external_body]
pub(crate) fn decode_metadata_data(data: &Vec<u8>) -> (m: Option<MetadataData>)
    ensures
        metadata_data_view(m) == decoded_metadata_data(data@),
        data@.len() != MAX_METADATA_LEN ==> m is None,
{
    match mpl_token_metadata::state::Metadata::safe_deserialize(data.as_slice()) {
        Ok(md) => Some(MetadataData {
            name: md.data.name,
            symbol: md.data.symbol,
            uri: md.data.uri,
            seller_fee_basis_points: md.data.seller_fee_basis_points,
            creators: md.data.creators.map(|cs| cs.iter().map(|c| Creator { address: Pubkey(c.address.to_bytes()), verified: c.verified, share: c.share }).collect()),
        }),
        Err(_) => None,
    }
}

} // verus!
