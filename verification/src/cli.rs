//! What the command line asks for: the reader (with or without the splash
//! screen) or one random verse.
use vstd::prelude::*;

verus! {

/// Parsed command-line arguments.
pub struct Cli {
    pub command: Option<Commands>,
    pub no_banner: bool,
}

/// Subcommands.
pub enum Commands {
    /// Print one random verse of `translation`.
    Random { translation: String },
}

} // verus!
