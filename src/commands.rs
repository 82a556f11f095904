use vstd::prelude::*;

verus! {

/// Single-byte opcodes understood by the panel controller.
pub const ENTER_SLEEP_MODE: u8 = 0x10;
pub const SLEEP_OUT: u8 = 0x11;
pub const GAMMA_SET: u8 = 0x26;
pub const DISPLAY_OFF: u8 = 0x28;
pub const DISPLAY_ON: u8 = 0x29;
pub const COLUMN_ADDRESS_SET: u8 = 0x2A;
pub const PAGE_ADDRESS_SET: u8 = 0x2B;
pub const MEMORY_WRITE: u8 = 0x2C;
pub const MEMORY_ACCESS_CONTROL: u8 = 0x36;
pub const PIXEL_FORMAT_SET: u8 = 0x3A;
pub const SET_TEAR_SCANLINE: u8 = 0x44;
pub const FRAME_CONTROL_NORMAL_MODE: u8 = 0xB1;
pub const DISPLAY_FUNCTION_CONTROL: u8 = 0xB6;
pub const POWER_CONTROL_1: u8 = 0xC0;
pub const POWER_CONTROL_2: u8 = 0xC1;
pub const VCOM_CONTROL_1: u8 = 0xC5;
pub const VCOM_CONTROL_2: u8 = 0xC7;
pub const POWER_CONTROL_A: u8 = 0xCB;
pub const POWER_CONTROL_B: u8 = 0xCF;
pub const POSITIVE_GAMMA_CORRECTION: u8 = 0xE0;
pub const NEGATIVE_GAMMA_CORRECTION: u8 = 0xE1;
pub const DRIVER_TIMING_CONTROL_A: u8 = 0xE8;
pub const DRIVER_TIMING_CONTROL_B: u8 = 0xEA;
pub const POWER_ON_SEQ_CONTROL: u8 = 0xED;
pub const ENABLE_3G: u8 = 0xF2;
pub const PUMP_RATIO_CONTROL: u8 = 0xF7;

} // verus!
