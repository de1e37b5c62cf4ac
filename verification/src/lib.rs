//! Bit-exact reproduction of a retro role-playing game's pseudo-random
//! number generator and character-growth arithmetic, with machine-checked
//! contracts.
//!
//! The generator is a 32-bit shift-register state machine; every derived
//! draw, fixed-point operation and level-up step is specified exactly, down
//! to the game's bit-shift truncation and saturation artifacts, so that
//! growth simulators and replay tools can predict the game's numeric
//! outcomes. Growth tables are explicit immutable values handed in by the
//! caller; generators are owned and passed explicitly, so independent
//! simulations never share hidden state.

pub mod attr;
pub mod battle;
pub mod bit;
pub mod fixedpoint;
pub mod growth;
pub mod job;
pub mod personality;
pub mod player;
pub mod rand;
pub mod sex;
pub mod status;
