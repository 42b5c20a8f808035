//! A reader for Intel/Microsoft OMF object modules.
use vstd::prelude::*;

pub mod error;
pub mod model;
pub mod omf;
pub mod types;
pub mod state;
pub mod records;
pub mod lidata;
pub mod data;
pub mod fixupp;
pub mod modend;
pub mod checksum;
pub mod comdef_record;
pub mod comdat_record;
pub mod pubdef_record;
pub mod lpubdef;
pub mod reader;
pub mod invariants;
pub mod text;
pub mod section;
pub mod relocation;
pub mod symbol;
pub mod comdat;
pub mod info;
pub mod laws;

verus! {
} // verus!
