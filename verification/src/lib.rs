//! An IIIF Image API 3.0 (level 1) request pipeline: the URL grammar, the
//! ordered image transforms, the identity fast path and the service
//! descriptor, each with a machine-checked contract.

pub mod config;
pub mod escape;
pub mod headers;
pub mod iiif;
pub mod json;
pub mod number;
pub mod png_rows;
pub mod raster;
pub mod responder_wrapper;
pub mod service;
pub mod text;
pub mod wif_error;
