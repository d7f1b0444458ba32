//! Structural core of a transformer-style sequence encoder family.
//!
//! The crate models the computational trunk shared by several encoder
//! architectures (BERT, ALBERT, SqueezeBERT and variants): configuration
//! validation, the parameter-store namespace each component creates, the
//! exact tensor shapes flowing through multi-head self-attention and the
//! feed-forward sublayers, attention-mask semantics, the per-layer output
//! trace of an encoder stack, and the polymorphic model facade with its
//! gradient-freezing contract.
//!
//! Tensors are carried at the shape level: a [`tensor::Tensor`] records its
//! dimensions and whether it participates in gradient tracking.  The
//! floating-point element arithmetic itself belongs to a numeric backend
//! outside this crate; everything that decides shapes, layouts, parameter
//! names and error reporting is verified here.

pub mod albert;
pub mod bert;
pub mod config;
pub mod embeddings;
pub mod error;
pub mod layer_output;
pub mod layers;
pub mod model;
pub mod squeeze_albert;
pub mod squeeze_bert;
pub mod store;
pub mod tensor;
