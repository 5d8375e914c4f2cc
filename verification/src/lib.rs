//! Verified core of a small guitar-catalog service.
//!
//! The library holds the logic that the service's route handlers decide with:
//! presentation enrichment of a stored guitar record (slug, display title,
//! formatted price, image presence, styling colors), record-id normalization,
//! slug lookup over a fetched table, cursor pagination of images, and the
//! construction of a parameter-bound partial update statement. The
//! surrounding process (HTTP server, database client, configuration) performs
//! the I/O and hands plain values in and out.
#![allow(unused_imports)]

use vstd::prelude::*;

pub mod config;
pub mod handlers;
pub mod models;
pub mod pagination;
pub mod query;
pub mod records;
pub mod text;
