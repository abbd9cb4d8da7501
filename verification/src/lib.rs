//! Clinical metadata from radiotherapy imaging files: the modality of a file,
//! and the series that a structure set refers to.
//!
//! A file is read by the `dicom` crate, no further than the answer needs.
//! What is read is then classified, or walked along a fixed path of nested
//! sequences, by verified code whose contracts speak of the record that the
//! data set holds.

pub mod tag;
pub mod error;
pub mod record;
pub mod dataset;
pub mod reader;
pub mod chain;
pub mod modality;
