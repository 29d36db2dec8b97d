//! Decoder for the instruction data of the Token-2022 program.
//!
//! An instruction's data is one tag byte followed by the fields of the
//! variant that the tag names. The format is stated once, as specification
//! functions over byte sequences ([`wire`] for single fields, [`layout`] for
//! whole instructions), and every executable decoder is proved to return
//! exactly what those functions say: the instruction, or the reason why the
//! bytes hold none. Decoding reads the buffer and nothing else, and never
//! panics.
//!
//! [`laws`] holds what is proved of the format as a whole.

pub mod error;
pub mod laws;
pub mod layout;
pub mod option;
pub mod pubkey;
pub mod text;
pub mod token_instruction_2022;
pub mod transfer_fee_instruction;
pub mod wire;
