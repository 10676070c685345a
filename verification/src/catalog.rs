use vstd::prelude::*;

verus! {

/// A catalog object of the Scryfall API: a list of names, such as every
/// creature type.
#[derive(Debug, Clone)]
pub struct ScryfallCatalog {
    pub object: String,
    pub uri: String,
    pub total_values: usize,
    pub data: Vec<String>,
}

impl ScryfallCatalog {
    /// Consumes the catalog and gives its names.
    pub fn into_data(self) -> (d: Vec<String>)
        ensures
            d == self.data,
    {
        self.data
    }
}

} // verus!
