//! A hierarchical sequence model with multi-span exponential memory,
//! meta-learned self-modification, and a dual-rate auxiliary optimizer,
//! together with the tokenization, batching and text preparation around it.

pub mod config;
pub mod continuum_mem;
pub mod epub_parser;
pub mod hope;
pub mod layers;
pub mod loader;
pub mod ocr;
pub mod optimizer;
pub mod pdf_parser;
pub mod self_modify;
pub mod strutil;
pub mod tensor;
pub mod text_processor;
pub mod tokenizer;
pub mod training;

pub use config::{ContinuumMemConfig, DeepOptimizerConfig, HopeConfig, SelfModifyConfig, TrainConfig};
pub use hope::{HopeCarry, HopeInput, HopeModel, HopeOutput};
pub use training::BatchData;
