pub mod qpack;
pub mod huffman;
pub mod headers;
pub mod traits;
pub mod v1;
pub mod v3;
