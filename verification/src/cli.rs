//! Plain value describing what the command line asked for. Argument parsing
//! itself is presentation-layer glue and lives outside the core.

use vstd::prelude::*;

verus! {

/// What the command line asked for: the path of the image to load, and
/// whether to print the disassembly.
pub struct Cli {
    /// path to the file to read
    pub path: String,
    /// print the disassembly while running
    pub print_asm: bool,
}

} // verus!
