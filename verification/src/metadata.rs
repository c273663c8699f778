//! Descriptive records: the metadata of one token and of the contract as a whole.
//!
//! The ledger stores token metadata and hands it back unchanged. Contract
//! metadata is checked once, when the contract is created.

use vstd::prelude::*;

verus! {

/// The characters of an optional text.
pub open spec fn text_view(t: Option<String>) -> Option<Seq<char>> {
    match t {
        Some(s) => Some(s@),
        None => None,
    }
}

/// The bytes of an optional byte string.
pub open spec fn bytes_view(b: Option<Vec<u8>>) -> Option<Seq<u8>> {
    match b {
        Some(v) => Some(v@),
        None => None,
    }
}

/// A copy of an optional text.
pub fn copy_text(t: &Option<String>) -> (r: Option<String>)
    ensures
        text_view(r) == text_view(*t),
{
    match t {
        Some(s) => Some(s.clone()),
        None => None,
    }
}

/// A copy of an optional byte string.
pub fn copy_bytes(b: &Option<Vec<u8>>) -> (r: Option<Vec<u8>>)
    ensures
        bytes_view(r) == bytes_view(*b),
{
    match b {
        Some(v) => {
            let c = v.clone();
            assert(c@ =~= v@);
            Some(c)
        },
        None => None,
    }
}

/// The length in bytes that a content hash must have.
pub const HASH_LEN: usize = 32;

/// What a token says about itself.
#[derive(Debug, PartialEq, Eq)]
pub struct TokenMetadata {
    pub title: Option<String>,
    pub description: Option<String>,
    pub media: Option<String>,
    pub media_hash: Option<Vec<u8>>,
    pub copies: Option<u64>,
    pub issued_at: Option<String>,
    pub expires_at: Option<String>,
    pub starts_at: Option<String>,
    pub updated_at: Option<String>,
    pub extra: Option<String>,
    pub reference: Option<String>,
    pub reference_hash: Option<Vec<u8>>,
}

/// The mathematical content of a [`TokenMetadata`].
pub struct TokenMetadataView {
    pub title: Option<Seq<char>>,
    pub description: Option<Seq<char>>,
    pub media: Option<Seq<char>>,
    pub media_hash: Option<Seq<u8>>,
    pub copies: Option<u64>,
    pub issued_at: Option<Seq<char>>,
    pub expires_at: Option<Seq<char>>,
    pub starts_at: Option<Seq<char>>,
    pub updated_at: Option<Seq<char>>,
    pub extra: Option<Seq<char>>,
    pub reference: Option<Seq<char>>,
    pub reference_hash: Option<Seq<u8>>,
}

impl View for TokenMetadata {
    type V = TokenMetadataView;

    open spec fn view(&self) -> TokenMetadataView {
        TokenMetadataView {
            title: text_view(self.title),
            description: text_view(self.description),
            media: text_view(self.media),
            media_hash: bytes_view(self.media_hash),
            copies: self.copies,
            issued_at: text_view(self.issued_at),
            expires_at: text_view(self.expires_at),
            starts_at: text_view(self.starts_at),
            updated_at: text_view(self.updated_at),
            extra: text_view(self.extra),
            reference: text_view(self.reference),
            reference_hash: bytes_view(self.reference_hash),
        }
    }
}

impl Clone for TokenMetadata {
    fn clone(&self) -> (r: Self)
        ensures
            r@ == self@,
    {
        TokenMetadata {
            title: copy_text(&self.title),
            description: copy_text(&self.description),
            media: copy_text(&self.media),
            media_hash: copy_bytes(&self.media_hash),
            copies: self.copies,
            issued_at: copy_text(&self.issued_at),
            expires_at: copy_text(&self.expires_at),
            starts_at: copy_text(&self.starts_at),
            updated_at: copy_text(&self.updated_at),
            extra: copy_text(&self.extra),
            reference: copy_text(&self.reference),
            reference_hash: copy_bytes(&self.reference_hash),
        }
    }
}

/// The mathematical content of an optional [`TokenMetadata`].
pub open spec fn metadata_view(m: Option<TokenMetadata>) -> Option<TokenMetadataView> {
    match m {
        Some(t) => Some(t@),
        None => None,
    }
}

/// A copy of an optional [`TokenMetadata`].
pub fn copy_metadata(m: &Option<TokenMetadata>) -> (r: Option<TokenMetadata>)
    ensures
        metadata_view(r) == metadata_view(*m),
{
    match m {
        Some(t) => Some(t.clone()),
        None => None,
    }
}

/// What the contract says about itself.
#[derive(Debug, PartialEq, Eq)]
pub struct NFTContractMetadata {
    pub spec: String,
    pub name: String,
    pub symbol: String,
    pub icon: Option<String>,
    pub base_uri: Option<String>,
    pub reference: Option<String>,
    pub reference_hash: Option<Vec<u8>>,
}

/// The mathematical content of an [`NFTContractMetadata`].
pub struct NFTContractMetadataView {
    pub spec: Seq<char>,
    pub name: Seq<char>,
    pub symbol: Seq<char>,
    pub icon: Option<Seq<char>>,
    pub base_uri: Option<Seq<char>>,
    pub reference: Option<Seq<char>>,
    pub reference_hash: Option<Seq<u8>>,
}

impl NFTContractMetadataView {
    /// The schema of contract metadata: the version tag is the supported one,
    /// and a reference comes with its hash of [`HASH_LEN`] bytes, or neither is given.
    pub open spec fn valid(self) -> bool {
        &&& self.spec == "nft-1.0.0"@
        &&& (self.reference is Some) == (self.reference_hash is Some)
        &&& (self.reference_hash matches Some(h) ==> h.len() == HASH_LEN)
    }
}

impl View for NFTContractMetadata {
    type V = NFTContractMetadataView;

    open spec fn view(&self) -> NFTContractMetadataView {
        NFTContractMetadataView {
            spec: self.spec@,
            name: self.name@,
            symbol: self.symbol@,
            icon: text_view(self.icon),
            base_uri: text_view(self.base_uri),
            reference: text_view(self.reference),
            reference_hash: bytes_view(self.reference_hash),
        }
    }
}

impl Clone for NFTContractMetadata {
    fn clone(&self) -> (r: Self)
        ensures
            r@ == self@,
    {
        NFTContractMetadata {
            spec: self.spec.clone(),
            name: self.name.clone(),
            symbol: self.symbol.clone(),
            icon: copy_text(&self.icon),
            base_uri: copy_text(&self.base_uri),
            reference: copy_text(&self.reference),
            reference_hash: copy_bytes(&self.reference_hash),
        }
    }
}

impl NFTContractMetadata {
    /// The version tag that valid contract metadata carries.
    pub fn supported_version() -> (s: &'static str)
        ensures
            s@ == "nft-1.0.0"@,
    {
        "nft-1.0.0"
    }

    /// Whether the metadata meets the schema.
    pub fn is_valid(&self) -> (ok: bool)
        ensures
            ok == self@.valid(),
    {
        let tag = Self::supported_version().to_owned();
        if !(self.spec == tag) {
            return false;
        }
        match &self.reference_hash {
            Some(h) => self.reference.is_some() && h.len() == HASH_LEN,
            None => self.reference.is_none(),
        }
    }
}

} // verus!
