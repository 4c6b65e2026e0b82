//! The `xcm` subcommands and what each one asks the library to do.

use vstd::prelude::*;

use crate::decode::{strip_hex_prefix, without_hex_prefix};

verus! {

/// The `xcm` subcommands.
pub enum XcmCommands {
    /// Decode an XCM message string.
    Decode { message: String },
}

impl XcmCommands {
    /// The hex text a command asks to decode: its message without a leading `0x`.
    pub fn hex_input(&self) -> (s: &str)
        ensures
            match self {
                XcmCommands::Decode { message } => s@ == without_hex_prefix(message@),
            },
    {
        match self {
            XcmCommands::Decode { message } => strip_hex_prefix(message.as_str()),
        }
    }
}

} // verus!
