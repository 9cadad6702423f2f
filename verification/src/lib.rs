//! Verified core of a small convolutional image-classification pipeline.

pub mod batch;
pub mod config;
pub mod data;
pub mod error;
pub mod eval;
pub mod infer;
pub mod model;
pub mod preprocess;
pub mod service;
pub mod shape;
pub mod text;
pub mod train;
