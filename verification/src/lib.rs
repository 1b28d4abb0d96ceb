//! Preparing a decoded multi-frame animation as GPU textures.
//!
//! A decoded animation carries one texture descriptor shared by all of its
//! frames and one raw pixel buffer per frame. Preparing it means allocating
//! one texture per frame, computing the memory layout of the upload (row
//! stride, row-count metadata) and issuing one write per frame, then bundling
//! each texture with a view and a sampler into a GPU image record.
//!
//! The device and queue here are a model of a graphics backend: the device
//! hands out fresh resource identities, the queue records the uploads it was
//! asked to perform. The binding to a real backend performs the same calls
//! against real handles.

pub mod gif;
pub mod gpu;
pub mod texture;
