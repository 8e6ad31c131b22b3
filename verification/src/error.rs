use vstd::prelude::*;

verus! {

/// The error kinds of the application.
///
/// `Io` covers process-spawn and file-read failures, `Command` a provider
/// command that exited with a non-zero status, `Utf8` command output that is
/// not valid UTF-8, `Toml` a malformed configuration file, and `ParseColor` a
/// color string that is not a six-digit hexadecimal color.
#[derive(Clone, Copy, Debug, PartialEq, Eq, Structural)]
pub enum AppError {
    Io,
    Command,
    Utf8,
    Toml,
    ParseColor,
}

} // verus!
