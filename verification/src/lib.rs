//! Resolution of catalog references into an ordered work list, and the
//! per-item decisions of fetching, decrypting and delivering audio.

pub mod catalog;
pub mod worklist;
pub mod expand;
pub mod formats;
pub mod ident;
pub mod naming;
pub mod delivery;
pub mod reference;
