//! Source file types of the languages a runner knows, and what each allows.
use vstd::prelude::*;

verus! {

/// A language, named by its usual file extension.
#[derive(Clone, Copy, Debug, PartialEq, Eq, Structural)]
pub enum FileType {
    C,
    CPP,
    F90,
    GO,
    HS,
    JAV,
    JL,
    JS,
    ML,
    PL,
    PY,
    R,
    RS,
    SWIFT,
}

impl FileType {
    /// Whether several source files can be given at once.
    pub fn can_have_multiple(self) -> (r: bool)
        ensures
            r == (self == FileType::C || self == FileType::CPP || self == FileType::GO || self
                == FileType::JAV),
    {
        match self {
            FileType::C | FileType::CPP | FileType::GO | FileType::JAV => true,
            _ => false,
        }
    }

    /// Whether the source file may be left out (the tool finds it itself).
    pub fn can_have_none(self) -> (r: bool)
        ensures
            r == (self == FileType::GO || self == FileType::RS),
    {
        match self {
            FileType::GO | FileType::RS => true,
            _ => false,
        }
    }

    /// Whether the language, usually compiled, can also be run with a single
    /// command (such as `go run` or `runghc`).
    pub fn can_run_only(self) -> (r: bool)
        ensures
            r == (self == FileType::GO || self == FileType::HS),
    {
        match self {
            FileType::GO | FileType::HS => true,
            _ => false,
        }
    }
}

} // verus!
