//! The error taxonomy of the engine. Every variant carries the offending
//! path(s) as plain text.

use vstd::prelude::*;

verus! {

/// Possible results of the wildcard functions.
#[derive(Debug, PartialEq, Eq)]
pub enum WildcardingError {
    /// Whatever was used for this, we can't understand if it is a file or a directory.
    UnknownFormat(String),
    /// The operation reached an error and couldn't complete.
    OperationFailed(String, String),
    /// The source is invalid.
    InvalidSource(String),
    /// The target is invalid.
    InvalidTarget(String),
    /// Failed to get the name of the file.
    FilenameFail(String),
    /// Failed to get the filename as a string.
    InvalidPath(String),
    /// Missing the parent of a file.
    NoParent(String),
    /// Can't read the directory.
    ReadError(String),
}

/// The mathematical shadow of [`WildcardingError`]: the same variants over
/// character sequences.
pub ghost enum ErrModel {
    UnknownFormat(Seq<char>),
    OperationFailed(Seq<char>, Seq<char>),
    InvalidSource(Seq<char>),
    InvalidTarget(Seq<char>),
    FilenameFail(Seq<char>),
    InvalidPath(Seq<char>),
    NoParent(Seq<char>),
    ReadError(Seq<char>),
}

impl View for WildcardingError {
    type V = ErrModel;

    open spec fn view(&self) -> ErrModel {
        match self {
            WildcardingError::UnknownFormat(p) => ErrModel::UnknownFormat(p@),
            WildcardingError::OperationFailed(s, t) => ErrModel::OperationFailed(s@, t@),
            WildcardingError::InvalidSource(p) => ErrModel::InvalidSource(p@),
            WildcardingError::InvalidTarget(p) => ErrModel::InvalidTarget(p@),
            WildcardingError::FilenameFail(p) => ErrModel::FilenameFail(p@),
            WildcardingError::InvalidPath(p) => ErrModel::InvalidPath(p@),
            WildcardingError::NoParent(p) => ErrModel::NoParent(p@),
            WildcardingError::ReadError(p) => ErrModel::ReadError(p@),
        }
    }
}

} // verus!
