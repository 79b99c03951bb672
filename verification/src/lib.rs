//! A CHIP-8 and SUPER-CHIP-8 virtual machine whose behaviour is stated in
//! contracts and proved.
//!
//! [`Chip8`] is the machine that runs; [`Machine`] is its mathematical model,
//! and every contract is written over that model.

pub mod chip8;
pub mod decode;
pub mod display;
pub mod engine;
pub mod error;
pub mod frame;
pub mod keys;
pub mod laws;
pub mod machine;
pub mod memory;
pub mod registers;
pub mod rng;
pub mod sprite;
pub mod stack;
pub mod timers;

pub use crate::chip8::Chip8;
pub use crate::decode::decode;
pub use crate::decode::Decoded;
pub use crate::decode::Instruction;
pub use crate::error::Chip8Error;
pub use crate::frame::draw;
pub use crate::frame::draw_row;
pub use crate::frame::present;
pub use crate::frame::render;
pub use crate::keys::handle_inputs;
pub use crate::keys::Buttons;
pub use crate::machine::Machine;
pub use crate::rng::mask_random;
pub use crate::machine::BIG_FONT_ADDRESS;
pub use crate::machine::DEFAULT_TICK_RATE;
pub use crate::machine::ENTRY_POINT;
pub use crate::machine::KEYS;
pub use crate::machine::RAM_SIZE;
pub use crate::machine::REGISTERS;
pub use crate::machine::SCREEN_HEIGHT;
pub use crate::machine::SCREEN_SIZE;
pub use crate::machine::SCREEN_WIDTH;
pub use crate::machine::STACK_SIZE;
