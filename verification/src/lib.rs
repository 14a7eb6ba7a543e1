//! Recompression of Minecraft region files (the anvil format).

pub mod cache;
pub mod chunk;
pub mod cli;
pub mod codec;
pub mod errors;
pub mod file_spec;
pub mod lz4_stream;
pub mod options;
pub mod recompress;
pub mod region;
pub mod standalone;
pub mod text;

pub use crate::chunk::RelativeChunkPos;
pub use crate::errors::FileRecompressError;
pub use crate::options::{CompressionAlgorithm, CompressionLevel, RecompressFileOptions};
pub use crate::recompress::recompress_region_file;
