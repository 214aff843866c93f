//! A verified clipboard-history engine: it deduplicates observed clipboard
//! content by a deterministic 64-bit fingerprint, keeps a two-tier record of
//! every distinct capture (a light list record and a heavier detail record),
//! prepares image assets (a full PNG and a bounded thumbnail), and prunes
//! records older than a retention window.
//!
//! The engine itself performs no I/O: a host loop reads the clipboard and the
//! clock, hands plain values to [`engine::Engine`], and carries out the
//! returned effects (writing or deleting asset files, persisting records,
//! notifying a user interface).

pub mod fingerprint;
pub mod seq_util;
pub mod text;
pub mod records;
pub mod store;
pub mod assets;
pub mod engine;
pub mod laws;
