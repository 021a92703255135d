//! A boundary layer around the Brotli codec: parameter normalisation, advisory
//! heuristics and the validation rules that apply to byte buffers and text
//! crossing a foreign-call frontier, with every rule stated as a contract.

pub mod advisory;
pub mod bench;
pub mod boundary;
pub mod codec;
pub mod error;
pub mod params;
pub mod text;
pub mod version;

pub use advisory::{estimate_compressed_size, get_recommended_quality};
pub use bench::benchmark_compression;
pub use boundary::{compress, compress_string, decompress, decompress_to_string};
pub use error::BoundaryError;
pub use params::CompressionParameters;
pub use version::get_version;
