//! Core of an MPRIS-to-Discord rich-presence mirror: snapshot normalization and
//! change detection, cache-first artwork resolution, the presence-clear retry
//! flow, and the reconciliation-loop bookkeeping, all with verified contracts.

pub mod strutil;
pub mod metadata;
pub mod reconciler;
pub mod presence;
pub mod discovery;
pub mod urltext;
pub mod activity;
pub mod cache;
pub mod resolver;
