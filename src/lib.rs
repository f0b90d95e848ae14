//! Binary addition simulated at the level of logic gates: bits combine into
//! half adders, half adders into full adders, full adders into an 8-bit
//! ripple-carry adder, and ripple-carry adders into a 16-bit carry-select
//! adder.
pub mod bit;
pub mod carry_select;
pub mod full_adder;
pub mod half_adder;
pub mod ripple;

pub use bit::Bit;
pub use carry_select::CarrySelectAdder;
pub use full_adder::FullAdder;
pub use half_adder::HalfAdder;
pub use ripple::RippleCarryAdder;
