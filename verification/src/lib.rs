//! Faceted search orchestration over a document index engine, with a web
//! metasearch fallback.

pub mod card;
pub mod error;
pub mod facets;
pub mod filter;
pub mod model;
pub mod normalize;
pub mod number;
pub mod orchestrator;
pub mod pagination;
pub mod query;
pub mod schema;
pub mod selection;
pub mod text;
pub mod web;
