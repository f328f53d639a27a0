pub mod apu;
pub mod arm7tdmi;
pub mod bus;
pub mod utils;
