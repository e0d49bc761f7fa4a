use crate::common::LineCol;
use vstd::prelude::*;
use vstd::string::*;

verus! {

/// The closed set of failures that components report to each other.
#[derive(Debug)]
pub enum Error {
    InvalidPosition,
    ExitCall,
    InvalidRange(LineCol, LineCol),
    InvalidLineNumber,
    InvalidInput,
    PatternNotFound,
    NoCommandAvailable,
    UnexpectedRegisterData,
    ProgrammingBug { descr: String },
    NowhereToGo,
    ImATeacup,
    /// A failure of the host's input or output, described in words.
    Io(String),
}

/// The description of an error that the notification bar shows: the name of its kind, or
/// the description that a programming error carries.
pub open spec fn describe_spec(e: Error) -> Seq<char> {
    match e {
        Error::InvalidPosition => "InvalidPosition"@,
        Error::ExitCall => "ExitCall"@,
        Error::InvalidRange(_, _) => "InvalidRange"@,
        Error::InvalidLineNumber => "InvalidLineNumber"@,
        Error::InvalidInput => "InvalidInput"@,
        Error::PatternNotFound => "PatternNotFound"@,
        Error::NoCommandAvailable => "NoCommandAvailable"@,
        Error::UnexpectedRegisterData => "UnexpectedRegisterData"@,
        Error::ProgrammingBug { descr } => descr@,
        Error::NowhereToGo => "NowhereToGo"@,
        Error::ImATeacup => "ImATeacup"@,
        Error::Io(_) => "Io"@,
    }
}

impl Error {
    /// A short description of the error for the notification bar.
    pub fn describe(&self) -> (r: String)
        ensures
            r@ == describe_spec(*self),
            !(self is ProgrammingBug) ==> r@.len() > 0,
    {
        let name = match self {
            Error::InvalidPosition => "InvalidPosition",
            Error::ExitCall => "ExitCall",
            Error::InvalidRange(_, _) => "InvalidRange",
            Error::InvalidLineNumber => "InvalidLineNumber",
            Error::InvalidInput => "InvalidInput",
            Error::PatternNotFound => "PatternNotFound",
            Error::NoCommandAvailable => "NoCommandAvailable",
            Error::UnexpectedRegisterData => "UnexpectedRegisterData",
            Error::ProgrammingBug { descr } => {
                return descr.clone();
            },
            Error::NowhereToGo => "NowhereToGo",
            Error::ImATeacup => "ImATeacup",
            Error::Io(_) => "Io",
        };
        proof {
            reveal_strlit("InvalidPosition");
            reveal_strlit("ExitCall");
            reveal_strlit("InvalidRange");
            reveal_strlit("InvalidLineNumber");
            reveal_strlit("InvalidInput");
            reveal_strlit("PatternNotFound");
            reveal_strlit("NoCommandAvailable");
            reveal_strlit("UnexpectedRegisterData");
            reveal_strlit("NowhereToGo");
            reveal_strlit("ImATeacup");
            reveal_strlit("Io");
        }
        String::from_str(name)
    }
}

pub type Result<T> = core::result::Result<T, Error>;

} // verus!
