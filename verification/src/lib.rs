//! Verified core of the plinth windowing and rendering toolkit.

pub mod dpi;
pub mod event_loop;
pub mod gfx;
pub mod handle_pool;
pub mod input;
pub mod limits;
pub mod power;
pub mod render;
pub mod scene;
pub mod string;
pub mod text;
pub mod time;
pub mod tree;
pub mod util;
pub mod visuals;
pub mod vsync;
pub mod win32_window;
pub mod window;
pub mod window_thread;
