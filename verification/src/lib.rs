//! Columnar array core: physical and logical typed arrays, growable builders
//! that assemble new arrays from slices of existing ones, and a conversion
//! boundary that imports arrow-layout columnar data.

pub mod arrow_interop;
pub mod binary_array;
pub mod binary_growable;
pub mod dtype;
pub mod error;
pub mod field;
pub mod from_arrow;
pub mod growable;
pub mod int64_array;
pub mod int64_growable;
pub mod list_array;
pub mod list_growable;
pub mod logical_array;
pub mod python_array;
pub mod python_growable;
pub mod python_object;
pub mod url_download;
pub mod utf8_array;
pub mod utf8_growable;
