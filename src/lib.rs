pub mod commands;
pub mod device;
pub mod text;
pub mod utils;

pub use device::{Lcd, LcdError, LcdOrientation, Op};
pub use utils::{color_buffer, rgb_to_u16, rgb_to_u8, u16_to_bytes};
