use vstd::prelude::*;

pub mod text;
pub mod wrap;
pub mod layout;
pub mod cards;
pub mod oracle;
pub mod cache;
pub mod sets;
pub mod catalog;
pub mod bulk;
pub mod bulk_data;
pub mod melds;
pub mod card_list;
pub mod config;
pub mod game;
pub mod printers;
pub mod art;
pub mod typeset;
pub mod renderers;
pub mod border;
pub mod print;
pub mod split;
pub mod meld;
pub mod console;
pub mod client;
pub mod logs;
pub mod glyphs;

verus! {

} // verus!
