//! What is asked of the input and output paths before anything is read.

use vstd::prelude::*;

verus! {

/// Why the paths are refused.
#[derive(Clone, Copy, Debug, PartialEq, Eq, Structural)]
pub enum PathError {
    /// The input path names nothing.
    InputMissing,
    /// The input path names a directory.
    InputIsDirectory,
    /// The output path names a file, where a directory is wanted.
    OutputIsFile,
}

/// What the file system says of the two paths.
#[derive(Clone, Copy, Debug, PartialEq, Eq, Structural)]
pub struct PathFacts {
    pub input_exists: bool,
    pub input_is_dir: bool,
    pub output_exists: bool,
    pub output_is_file: bool,
}

/// The verdict on the paths: the first complaint in the order input
/// missing, input a directory, output a file; else whether the output
/// directory has yet to be made.
pub open spec fn path_verdict(facts: PathFacts) -> Result<bool, PathError> {
    if !facts.input_exists {
        Err(PathError::InputMissing)
    } else if facts.input_is_dir {
        Err(PathError::InputIsDirectory)
    } else if facts.output_exists && facts.output_is_file {
        Err(PathError::OutputIsFile)
    } else {
        Ok(!facts.output_exists)
    }
}

/// Checks the paths before any I/O. `Ok(true)` asks the caller to make the
/// output directory, `Ok(false)` says that it is there.
pub fn pre_opt(facts: PathFacts) -> (res: Result<bool, PathError>)
    ensures
        res == path_verdict(facts),
{
    if !facts.input_exists {
        return Err(PathError::InputMissing);
    }
    if facts.input_is_dir {
        return Err(PathError::InputIsDirectory);
    }
    if facts.output_exists && facts.output_is_file {
        return Err(PathError::OutputIsFile);
    }
    Ok(!facts.output_exists)
}

} // verus!
