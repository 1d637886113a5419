//! Turns a chunk of raw file rows of a reconciliation job into a classified
//! chunk ready for delivery, and sequences the steps of an upload.

pub mod model;
pub mod text;
pub mod splitter;
pub mod chunk;
pub mod classifier;
pub mod transformer;
pub mod upload_service;
pub mod connectors;
