//! A router of chain events: predicates select transactions of the base
//! chain, an evaluator applies them to the blocks of each event, a
//! dispatcher turns what matched into deliveries, and a status record per
//! predicate follows scans and streams.
//!
//! Every function of the library is verified. What the `hex`, `bitcoin`
//! and `miniscript` crates compute is taken on trust, behind the wrappers of
//! [`hex_text`] and [`script`].

pub mod archive;
pub mod chainhook;
pub mod evaluator;
pub mod hex_text;
pub mod matching;
pub mod payload;
pub mod pox;
pub mod predicate;
pub mod report;
pub mod scan;
pub mod script;
pub mod service;
pub mod status;
pub mod types;
