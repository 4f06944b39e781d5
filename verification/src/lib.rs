//! Batch transcoding of one source video through a matrix of encoder
//! settings: the job matrix, the upscale guard, the interpretation of the
//! encoder's event stream and the final report, each with a proved contract.

pub mod board;
pub mod config;
pub mod decimal;
pub mod encode;
pub mod file;
pub mod log;
pub mod matrix;
pub mod outcome;
pub mod report;
pub mod resolution;
pub mod size;
pub mod stat;
pub mod stream;
pub mod text;
