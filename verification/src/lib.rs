//! Verified core of the AES-128 block cipher: the constant substitution
//! tables, the GF(2^8) arithmetic, the four round transforms, the key
//! schedule, and the ten-round single-block encryption pipeline.

pub mod cipher;
pub mod constants;
pub mod layer;
pub mod scheduler;
