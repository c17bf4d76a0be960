//! The deciding half of a renderer of layered, foil-like cards.
//!
//! A card is a colour layer with optional foil and etching masks, lit and
//! distorted on the GPU according to its orientation. This library holds no
//! GPU handle and computes nothing in floating point. It decides what a host
//! sends to the GPU: which textures and binding slots a card gets, the exact
//! bytes of the instance and configuration records, when a configuration
//! write can be left out, which steps draw a card, and when a pipeline
//! rebuilt in the background replaces the one in use.

pub mod buffer;
pub mod card;
pub mod pipeline;
pub mod plan;
pub mod quaternion;
pub mod reload;
pub mod scalar;
pub mod vector;

pub use bytes::Bytes;
pub use card::Card;
pub use pipeline::{Configuration, Light, Parameters, Pipeline};
pub use quaternion::Quaternion;
pub use scalar::Scalar;
pub use vector::Vector;
pub use wgpu;
