//! What can go wrong while a document is read.

use vstd::prelude::*;

verus! {

/// Why a document was refused. No partial document is ever handed out.
#[derive(Debug, Clone)]
pub enum Error {
    /// The markup is not well-formed XML.
    Xml,
    /// A list of values ended before all the values that are needed were read.
    TooShort,
    /// The document asks for something that is not supported.
    Unimplemented(String),
    /// The text of an attribute does not follow the grammar of its type. Holds the text.
    InvalidAttributeValue(String),
    /// An attribute that must be there is not. Holds its name.
    MissingAttribute(String),
    /// The data is not valid UTF-8.
    Utf8,
    /// The data starts like a gzip stream but is not one.
    Gzip,
    /// The root element is not one this library knows.
    NotSvg,
}

/// An [`Error`] with its text as a sequence of characters.
pub enum ErrorModel {
    Xml,
    TooShort,
    Unimplemented(Seq<char>),
    InvalidAttributeValue(Seq<char>),
    MissingAttribute(Seq<char>),
    Utf8,
    Gzip,
    NotSvg,
}

impl DeepView for Error {
    type V = ErrorModel;

    open spec fn deep_view(&self) -> ErrorModel {
        match *self {
            Error::Xml => ErrorModel::Xml,
            Error::TooShort => ErrorModel::TooShort,
            Error::Unimplemented(s) => ErrorModel::Unimplemented(s@),
            Error::InvalidAttributeValue(s) => ErrorModel::InvalidAttributeValue(s@),
            Error::MissingAttribute(s) => ErrorModel::MissingAttribute(s@),
            Error::Utf8 => ErrorModel::Utf8,
            Error::Gzip => ErrorModel::Gzip,
            Error::NotSvg => ErrorModel::NotSvg,
        }
    }
}

impl ErrorModel {
    /// A short description for a person to read: the text that the error holds, where it
    /// holds one.
    pub open spec fn message(self) -> Seq<char> {
        match self {
            ErrorModel::Xml => "malformed XML"@,
            ErrorModel::TooShort => "too few values"@,
            ErrorModel::Unimplemented(s) => s,
            ErrorModel::InvalidAttributeValue(s) => s,
            ErrorModel::MissingAttribute(s) => s,
            ErrorModel::Utf8 => "invalid UTF-8"@,
            ErrorModel::Gzip => "malformed gzip stream"@,
            ErrorModel::NotSvg => "not an SVG document"@,
        }
    }
}

impl Error {
    /// A short description for a person to read.
    pub fn message(&self) -> (r: String)
        ensures
            r@ == self.deep_view().message(),
    {
        match self {
            Error::Xml => "malformed XML".to_owned(),
            Error::TooShort => "too few values".to_owned(),
            Error::Unimplemented(s) => s.clone(),
            Error::InvalidAttributeValue(s) => s.clone(),
            Error::MissingAttribute(s) => s.clone(),
            Error::Utf8 => "invalid UTF-8".to_owned(),
            Error::Gzip => "malformed gzip stream".to_owned(),
            Error::NotSvg => "not an SVG document".to_owned(),
        }
    }
}

} // verus!
