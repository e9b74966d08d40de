//! A tokenizer boundary over the BPE engines of `bpe_openai`: handles that
//! select a shared engine, validation of caller-supplied text, sentinel-valued
//! results and matched release operations, all with verified contracts.
pub mod boundary;
pub mod engine;
pub mod laws;
pub mod text;
