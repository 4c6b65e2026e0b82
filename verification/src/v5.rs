//! XCM version 5: the program model, its formatters and the instruction parser.

pub mod format;
pub mod instruction;
pub mod model;
