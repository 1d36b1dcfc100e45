//! Verified core of a small financial-ledger service.
//!
//! The library holds everything that decides or computes: the closed set of
//! prepared statements and their SQL texts, the decoding of the store's
//! discriminated results into domain outcomes, the translation of pool and
//! transport failures into the domain error taxonomy, request validation,
//! an accounting model of the bounded connection pool, and an in-memory
//! store that implements the atomic debit/credit routines and serves as the
//! substitutable repository double. The surrounding process — HTTP routing,
//! the physical PostgreSQL pool, and the async plumbing — lives outside the
//! library and hands it plain values.

pub mod models;
pub mod pool;
pub mod repository;
pub mod statement;
pub mod statements_cache;
pub mod store;
pub mod transaction;
