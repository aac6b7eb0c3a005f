//! Republishing a decoded video stream as raw image messages: the decoder's
//! transport options, the fixed image header, and the decisions of the
//! pull / stamp / publish loop, each with a contract.

pub mod options;
pub mod image;
pub mod pipeline;
pub mod config;
