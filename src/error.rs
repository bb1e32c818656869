use vstd::prelude::*;

verus! {

/// The two kinds of failure of a build.
#[derive(Debug)]
pub enum ParseError {
    /// A file could not be read, or its contents end before a construct is closed.
    FileError(String),
    /// A token or character sequence was found where another was expected.
    UnexpectedNode(String),
}

} // verus!
