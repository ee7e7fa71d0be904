pub mod chunk;
pub mod chunk_type;
pub mod text;
pub mod wire;

pub use chunk::Chunk;
pub use chunk::ChunkError;
pub use chunk_type::ChunkType;
pub use chunk_type::ChunkTypeError;
