//! An emulated MCP23017 16-bit I/O expander (register map, addressing modes,
//! pin state, reset handling), and the state machine of the board game that
//! the expander's firmware runs beside it.
pub mod bits;
pub mod gpio_pin;
pub mod addressing;
pub mod reset_filter;
pub mod chip;
pub mod mcp23017;
pub mod laws;
pub mod game;
pub mod ui;

pub use gpio_pin::{GpioPin, IoDirection, PinState, SimulatedPin};
pub use mcp23017::Mcp23017;
