//! Extraction of structured records from a paginated, client-rendered data
//! table: verified row parsing, pagination decisions, and the control loop
//! that walks every page, together with the tabular rows handed to the
//! exporter.

pub mod dom;
pub mod errors;
pub mod extract;
pub mod filter;
pub mod orchestrator;
pub mod pagination;
pub mod record;
pub mod text;
