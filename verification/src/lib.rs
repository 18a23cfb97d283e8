//! Batching of an immediate-mode GUI's per-frame draw output: flattening the
//! toolkit's draw lists, tracking texture residency, sizing the per-frame
//! buffers and encoding the ordered draw submissions.

pub mod assembler;
pub mod buffers;
pub mod color;
pub mod constant;
pub mod draw_data;
pub mod encoder;
pub mod pass;
pub mod pipeline;
pub mod textures;
