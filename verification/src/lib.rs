//! Badge and reputation engine for developer profiles, with the rules of
//! the services around it.
//!
//! The engine maps a snapshot of a developer's public activity onto tiered
//! achievement badges (`classify`, `badges`) and reduces a badge collection
//! to a reputation score (`reputation`). Around it stand the rules by which
//! a snapshot is derived from repositories (`github`, `json`), by which
//! profiles, sessions and tokens change (`profile`, `auth`, `nft`,
//! `statistics`), and the requests that the services make (`requests`,
//! `llm`, `insights`).
//!
//! Every function is pure: timestamps are parameters, and nothing is read
//! from or written to the outside world. No function panics, and none asks
//! more of its caller than that an index lies within a slice.

pub mod auth;
pub mod badges;
pub mod bytes;
pub mod classify;
pub mod github;
pub mod ids;
pub mod insights;
pub mod json;
pub mod llm;
pub mod models;
pub mod nft;
pub mod profile;
pub mod reputation;
pub mod requests;
pub mod statistics;
pub mod text;
