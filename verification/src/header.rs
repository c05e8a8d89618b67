//! The building blocks shared by the header's packed flag word.

pub mod one_bit_flag;
