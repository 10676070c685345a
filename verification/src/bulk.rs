use vstd::prelude::*;

verus! {

/// One bulk data file that Scryfall publishes, as its listing names it
/// (`type` in the listing is `kind` here).
#[derive(Debug, Clone)]
pub struct BulkData {
    pub object: String,
    pub id: String,
    pub kind: String,
    pub updated_at: String,
    pub uri: String,
    pub name: String,
    pub description: String,
    pub jsonl_download_uri: String,
    pub compressed_size: u64,
}

/// Scryfall's listing of its bulk data files.
#[derive(Debug, Clone)]
pub struct BulkDataResponse {
    pub object: String,
    pub has_more: bool,
    pub data: Vec<BulkData>,
}

} // verus!
