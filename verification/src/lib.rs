//! A service-registry adapter library built around a generic
//! structured-value-to-text renderer: any domain object reduces to a closed
//! tagged `Value`, and one recursive formatter turns a `Value` into a
//! deterministic, column-aligned, indentation-nested report.

pub mod adapter;
pub mod console;
pub mod controller;
pub mod datastore;
pub mod dtos;
pub mod error;
pub mod pattern;
pub mod settings;
pub mod table;
pub mod text;
pub mod value;
