pub mod ast;
pub mod error;
pub mod ir;
pub mod text;
pub mod intrinsic;
pub mod translate;
pub mod parse;
pub mod slang;
pub mod emitter;
pub mod cache;
pub mod memory;
pub mod ring;
pub mod device;
pub mod swapchain;
pub mod descriptor;
pub mod engine;
