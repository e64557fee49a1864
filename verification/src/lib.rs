//! Binary encoding of PMX model data.
pub mod encoding;
pub mod pmx_types;
pub mod binary_writer;
pub mod decoding;
pub mod record_decoding;
pub mod record_roundtrip;
pub mod record_rewrite;
pub mod binary_reader;
pub mod layout_laws;
