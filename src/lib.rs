//! Ingestion core for a market-activity pipeline: classification of trade
//! events, retry scheduling, catalog reconciliation and upsert semantics.

pub mod activity;
pub mod backfill;
pub mod catalog;
pub mod config;
pub mod event_type;
pub mod models;
pub mod retry;
pub mod scheduler;
pub mod store;
pub mod time;
