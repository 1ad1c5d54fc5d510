//! Decision logic of a pointer-reactive animated wallpaper: the compositor-paced
//! render loop, the presentation surface's size policy, the single-slot channel
//! that carries the latest pointer position between threads, the pointer sampler
//! and the shutdown coordinator. Everything that talks to the compositor, the GPU
//! or the input source lives outside this crate and follows the commands that
//! these state machines return.

pub mod frame_loop;
pub mod pointer;
pub mod sampler;
pub mod shader;
pub mod shutdown;
pub mod slot;
pub mod surface;
