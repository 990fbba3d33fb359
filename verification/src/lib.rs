//! A frame-rendering core: a per-frame pass state machine, a swapchain
//! lifecycle manager with a versioned framebuffer cache, and a present
//! scheduler that threads single-use completion tokens through the loop.

pub mod error;
pub mod fps;
pub mod frame;
pub mod record;
pub mod renderer;
pub mod scheduler;
pub mod swapchain;
pub mod target;
pub mod token;

