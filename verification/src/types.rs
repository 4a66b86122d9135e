//! The record types of the ledger: projects, tracks, NFTs, transactions,
//! royalty payments, and the data carried by the file-pinning boundary.

use vstd::prelude::*;

verus! {

/// What a `Transaction` records: the initial mint, a sale, or a transfer.
#[derive(Clone, Copy, PartialEq, Eq, Structural, Debug)]
pub enum TransactionKind {
    Mint,
    Sale,
    Transfer,
}

/// One audio track inside a project.  Its `id` is the caller-supplied
/// timestamp of the upload, not an allocator-issued identifier.
pub struct Track {
    pub id: u64,
    pub name: String,
    pub ipfs_hash: String,
    pub uploaded_by: String,
    pub timestamp: u64,
}

/// A collaborative music project and the tracks uploaded to it.
pub struct MusicProject {
    pub id: u64,
    pub title: String,
    pub description: String,
    pub owner: String,
    pub contributors: Vec<String>,
    pub tracks: Vec<Track>,
}

impl MusicProject {
    /// Contributors are stored idempotently: no two entries spell the
    /// same identity.
    pub open spec fn wf(self) -> bool {
        forall|i: int, j: int|
            0 <= i < j < self.contributors@.len() ==> self.contributors@[i]@
                != self.contributors@[j]@
    }

    /// Field-by-field agreement; vector fields agree element-wise.
    pub open spec fn equiv(self, o: Self) -> bool {
        &&& self.id == o.id
        &&& self.title == o.title
        &&& self.description == o.description
        &&& self.owner == o.owner
        &&& self.contributors@ == o.contributors@
        &&& self.tracks@ == o.tracks@
    }
}

/// One entry of a sale history or of the global transaction log.
pub struct Transaction {
    pub from: String,
    pub to: String,
    pub price: u64,
    pub timestamp: u64,
    pub kind: TransactionKind,
}

/// A royalty owed to a creator for one sale of one NFT.
pub struct RoyaltyPayment {
    pub recipient: String,
    pub amount: u64,
    pub nft_id: u64,
    pub transaction_id: String,
}

/// An ownership token over a project, with its sale terms and history.
pub struct NFTMetadata {
    pub id: u64,
    pub name: String,
    pub description: String,
    pub image_url: String,
    pub creator: String,
    pub current_owner: String,
    pub project_id: u64,
    pub price: u64,
    pub is_for_sale: bool,
    pub royalty_percentage: u8,
    pub created_at: u64,
    pub view_count: u64,
    pub sale_history: Vec<Transaction>,
    pub category: String,
}

impl NFTMetadata {
    /// The record invariant: the royalty rate is a percentage, the first
    /// history entry is the mint, and the current owner is whoever the
    /// latest history entry handed the token to.
    pub open spec fn wf(self) -> bool {
        &&& self.royalty_percentage <= 100
        &&& self.sale_history@.len() >= 1
        &&& self.sale_history@[0].kind == TransactionKind::Mint
        &&& self.current_owner == self.sale_history@.last().to
    }

    /// Field-by-field agreement; the sale history agrees element-wise.
    pub open spec fn equiv(self, o: Self) -> bool {
        &&& self.id == o.id
        &&& self.name == o.name
        &&& self.description == o.description
        &&& self.image_url == o.image_url
        &&& self.creator == o.creator
        &&& self.current_owner == o.current_owner
        &&& self.project_id == o.project_id
        &&& self.price == o.price
        &&& self.is_for_sale == o.is_for_sale
        &&& self.royalty_percentage == o.royalty_percentage
        &&& self.created_at == o.created_at
        &&& self.view_count == o.view_count
        &&& self.sale_history@ == o.sale_history@
        &&& self.category == o.category
    }
}

/// The errors a marketplace operation can return.
#[derive(Clone, Copy, PartialEq, Eq, Structural, Debug)]
pub enum MarketError {
    NotFound,
    NotOwner,
    NotForSale,
    SelfPurchase,
}

impl MarketError {
    /// A fixed human-readable description of the error.
    pub fn message(&self) -> (r: String)
        ensures
            *self == MarketError::NotFound ==> r@ == "NFT not found"@,
            *self == MarketError::NotOwner ==> r@ == "Only the owner can perform this action"@,
            *self == MarketError::NotForSale ==> r@ == "NFT is not for sale"@,
            *self == MarketError::SelfPurchase ==> r@ == "Cannot buy your own NFT"@,
    {
        match self {
            MarketError::NotFound => String::from_str("NFT not found"),
            MarketError::NotOwner => String::from_str("Only the owner can perform this action"),
            MarketError::NotForSale => String::from_str("NFT is not for sale"),
            MarketError::SelfPurchase => String::from_str("Cannot buy your own NFT"),
        }
    }
}

/// What the file-pinning collaborator is asked to upload.
pub struct PinataUploadRequest {
    pub file_data: Vec<u8>,
    pub file_name: String,
    pub content_type: String,
    pub api_key: String,
    pub secret_key: String,
}

/// What the file-pinning collaborator answers: a content hash on success,
/// an error description otherwise.
pub struct PinataUploadResponse {
    pub success: bool,
    pub ipfs_hash: String,
    pub pin_size: u64,
    pub error: Option<String>,
}

impl Clone for Track {
    fn clone(&self) -> (r: Self)
        ensures
            r == *self,
    {
        Track {
            id: self.id,
            name: self.name.clone(),
            ipfs_hash: self.ipfs_hash.clone(),
            uploaded_by: self.uploaded_by.clone(),
            timestamp: self.timestamp,
        }
    }
}

impl Clone for Transaction {
    fn clone(&self) -> (r: Self)
        ensures
            r == *self,
    {
        Transaction {
            from: self.from.clone(),
            to: self.to.clone(),
            price: self.price,
            timestamp: self.timestamp,
            kind: self.kind,
        }
    }
}

impl Clone for RoyaltyPayment {
    fn clone(&self) -> (r: Self)
        ensures
            r == *self,
    {
        RoyaltyPayment {
            recipient: self.recipient.clone(),
            amount: self.amount,
            nft_id: self.nft_id,
            transaction_id: self.transaction_id.clone(),
        }
    }
}

/// Element-wise copy of a string vector.
pub fn clone_strings(v: &Vec<String>) -> (r: Vec<String>)
    ensures
        r@ == v@,
{
    let mut r: Vec<String> = Vec::new();
    let mut i: usize = 0;
    while i < v.len()
        invariant
            i <= v.len(),
            r@ =~= v@.subrange(0, i as int),
        decreases v.len() - i,
    {
        r.push(v[i].clone());
        i = i + 1;
    }
    proof {
        assert(r@ =~= v@);
    }
    r
}

/// Element-wise copy of a track vector.
pub fn clone_tracks(v: &Vec<Track>) -> (r: Vec<Track>)
    ensures
        r@ == v@,
{
    let mut r: Vec<Track> = Vec::new();
    let mut i: usize = 0;
    while i < v.len()
        invariant
            i <= v.len(),
            r@ =~= v@.subrange(0, i as int),
        decreases v.len() - i,
    {
        r.push(v[i].clone());
        i = i + 1;
    }
    proof {
        assert(r@ =~= v@);
    }
    r
}

/// Element-wise copy of a transaction vector.
pub fn clone_transactions(v: &Vec<Transaction>) -> (r: Vec<Transaction>)
    ensures
        r@ == v@,
{
    let mut r: Vec<Transaction> = Vec::new();
    let mut i: usize = 0;
    while i < v.len()
        invariant
            i <= v.len(),
            r@ =~= v@.subrange(0, i as int),
        decreases v.len() - i,
    {
        r.push(v[i].clone());
        i = i + 1;
    }
    proof {
        assert(r@ =~= v@);
    }
    r
}

impl Clone for MusicProject {
    fn clone(&self) -> (r: Self)
        ensures
            r.equiv(*self),
    {
        MusicProject {
            id: self.id,
            title: self.title.clone(),
            description: self.description.clone(),
            owner: self.owner.clone(),
            contributors: clone_strings(&self.contributors),
            tracks: clone_tracks(&self.tracks),
        }
    }
}

impl Clone for NFTMetadata {
    fn clone(&self) -> (r: Self)
        ensures
            r.equiv(*self),
    {
        NFTMetadata {
            id: self.id,
            name: self.name.clone(),
            description: self.description.clone(),
            image_url: self.image_url.clone(),
            creator: self.creator.clone(),
            current_owner: self.current_owner.clone(),
            project_id: self.project_id,
            price: self.price,
            is_for_sale: self.is_for_sale,
            royalty_percentage: self.royalty_percentage,
            created_at: self.created_at,
            view_count: self.view_count,
            sale_history: clone_transactions(&self.sale_history),
            category: self.category.clone(),
        }
    }
}

impl Clone for PinataUploadRequest {
    fn clone(&self) -> (r: Self)
        ensures
            r.file_data@ == self.file_data@,
            r.file_name == self.file_name,
            r.content_type == self.content_type,
            r.api_key == self.api_key,
            r.secret_key == self.secret_key,
    {
        let mut file_data: Vec<u8> = Vec::new();
        let mut i: usize = 0;
        while i < self.file_data.len()
            invariant
                i <= self.file_data.len(),
                file_data@ =~= self.file_data@.subrange(0, i as int),
            decreases self.file_data.len() - i,
        {
            file_data.push(self.file_data[i]);
            i = i + 1;
        }
        proof {
            assert(file_data@ =~= self.file_data@);
        }
        PinataUploadRequest {
            file_data,
            file_name: self.file_name.clone(),
            content_type: self.content_type.clone(),
            api_key: self.api_key.clone(),
            secret_key: self.secret_key.clone(),
        }
    }
}

impl Clone for PinataUploadResponse {
    fn clone(&self) -> (r: Self)
        ensures
            r == *self,
    {
        PinataUploadResponse {
            success: self.success,
            ipfs_hash: self.ipfs_hash.clone(),
            pin_size: self.pin_size,
            error: match &self.error {
                Some(e) => Some(e.clone()),
                None => None,
            },
        }
    }
}

} // verus!
