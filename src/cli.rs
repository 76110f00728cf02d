use vstd::prelude::*;

use crate::error::Error;
use crate::format::{format_of_path, is_stdin, resolve_format, Format};

verus! {

/// What the command line asked for: global switches and one subcommand.
pub struct Cli {
    /// Print details of what is done.
    pub verbose: bool,
    /// Print nothing on success.
    pub quiet: bool,
    pub command: Commands,
}

/// The subcommands and their arguments.
pub enum Commands {
    /// Convert `input` (`-` for standard input) into the format `to`.
    Convert { input: String, output: Option<String>, from: Option<Format>, to: Format, pretty: bool },
    /// Check the syntax of `file`.
    Validate { file: String, format: Option<Format> },
    /// Re-write `file` in its own format with `indent` spaces per level.
    Format { file: String, indent: u8, write: bool },
}

/// The format a subcommand reads its input in, given a format that was
/// named and the input's path: the named one wins, else the path's
/// extension decides; standard input needs a named format.
pub open spec fn resolved(given: Option<Format>, path: Seq<char>) -> Option<Format> {
    match given {
        Some(f) => Some(f),
        None => if is_stdin(path) {
            None
        } else {
            format_of_path(path)
        },
    }
}

impl Commands {
    /// The path the subcommand reads.
    pub open spec fn input_path(&self) -> Seq<char> {
        match self {
            Commands::Convert { input, .. } => input@,
            Commands::Validate { file, .. } => file@,
            Commands::Format { file, .. } => file@,
        }
    }

    /// The format that was named for the input, if any; `format` never
    /// names one.
    pub open spec fn given_format(&self) -> Option<Format> {
        match self {
            Commands::Convert { from, .. } => *from,
            Commands::Validate { format, .. } => *format,
            Commands::Format { .. } => None,
        }
    }

    /// The format the subcommand reads its input in; where none is named
    /// and none can be inferred, `Error::UnknownFormat` with the path.
    pub fn source_format(&self) -> (r: Result<Format, Error>)
        ensures
            match resolved(self.given_format(), self.input_path()) {
                Some(f) => r == Ok::<Format, Error>(f),
                None => r is Err && r->Err_0 is UnknownFormat && r->Err_0->UnknownFormat_path@
                    == self.input_path(),
            },
    {
        match self {
            Commands::Convert { input, from, .. } => resolve_format(*from, input.as_str()),
            Commands::Validate { file, format } => resolve_format(*format, file.as_str()),
            Commands::Format { file, .. } => resolve_format(None, file.as_str()),
        }
    }
}

} // verus!
