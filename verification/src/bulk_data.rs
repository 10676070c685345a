//! The bulk files as the bulk-data module of the client reads them
//! (`type` in the listing is `data_type` here).
use vstd::prelude::*;

use crate::text::same_text;

verus! {

/// One bulk data file that Scryfall publishes.
#[derive(Debug, Clone)]
pub struct BulkData {
    pub object: String,
    pub id: String,
    pub data_type: String,
    pub updated_at: String,
    pub uri: String,
    pub name: String,
    pub description: String,
    pub jsonl_download_uri: String,
    pub compressed_size: u64,
}

/// Scryfall's listing of its bulk data files.
#[derive(Debug, Clone)]
pub struct BulkDataResponse {
    pub object: String,
    pub has_more: bool,
    pub data: Vec<BulkData>,
}

/// The first listed file of type `oracle_cards`, the one Momir draws
/// its cards from.
pub fn find_oracle_cards(list: &Vec<BulkData>) -> (r: Option<&BulkData>)
    ensures
        match r {
            Some(b) => exists|i: int|
                0 <= i < list@.len() && list@[i] == *b && b.data_type@ == "oracle_cards"@ && forall|k: int|
                    0 <= k < i ==> (#[trigger] list@[k]).data_type@ != "oracle_cards"@,
            None => forall|i: int| 0 <= i < list@.len() ==> (#[trigger] list@[i]).data_type@ != "oracle_cards"@,
        },
{
    let mut i: usize = 0;
    while i < list.len()
        invariant
            i <= list.len(),
            forall|k: int| 0 <= k < i ==> (#[trigger] list@[k]).data_type@ != "oracle_cards"@,
        decreases list.len() - i,
    {
        if same_text(list[i].data_type.as_str(), "oracle_cards") {
            return Some(&list[i]);
        }
        i = i + 1;
    }
    None
}

} // verus!
