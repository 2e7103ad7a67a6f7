//! The errors of the library.

use vstd::prelude::*;
use crate::util::concat3;

verus! {

/// `std::io::Error`, carried through unchanged.
#[verifier::external_type_specification]
#[verifier::external_body]
pub struct ExIoError(std::io::Error);

/// `quick_xml::Error`, carried through unchanged.
#[verifier::external_type_specification]
#[verifier::external_body]
pub struct ExXmlError(quick_xml::Error);

/// The errors that the library reports.
#[derive(Debug)]
pub enum FoliaError {
    ///Indicates problems with the input/output (disk full? file not found?)
    IoError(std::io::Error),
    ///Parse errors indicate invalid XML
    XmlError(quick_xml::Error),
    ///Parse errors occur if there is a problem while parsing the input and is often indicative of
    ///invalidly formatted input.
    ParseError(String),
    ///Serialisation errors occur if there is a problem during serialisation
    SerialisationError(String),
    ///Incomplete errors occur when the information provided is not complete enough
    IncompleteError(String),
    ///Validation errors occur when the FoLiA is not consistent, they are a level beyond Parse
    ///Errors
    ValidationError(String),
    ///Internal errors should never occur
    InternalError(String),
    EncodeError(String),
    KeyError(String),
    QueryError(String),
    TypeError(String),
    NoTextError(String),
    IndexError,
}

/// The message of an I/O error, as its `Display` implementation writes it.
#[verifier::external_body]
fn io_error_message(err: &std::io::Error) -> String {
    format!("{}", err)
}

/// The message of an XML error, as `quick_xml::Error`'s `Display` implementation writes it.
#[verifier::external_body]
fn xml_error_message(err: &quick_xml::Error) -> String {
    format!("{}", err)
}

impl FoliaError {
    /// The name of the kind of error.
    pub open spec fn kind(&self) -> Seq<char> {
        match self {
            FoliaError::IoError(_) => "IO Error"@,
            FoliaError::XmlError(_) => "XML Error"@,
            FoliaError::ParseError(_) => "Parse Error"@,
            FoliaError::SerialisationError(_) => "Serialisation Error"@,
            FoliaError::IncompleteError(_) => "Incomplete Error"@,
            FoliaError::ValidationError(_) => "Validation Error"@,
            FoliaError::InternalError(_) => "Internal Error"@,
            FoliaError::EncodeError(_) => "Encode Error"@,
            FoliaError::KeyError(_) => "Key Error"@,
            FoliaError::QueryError(_) => "Query Error"@,
            FoliaError::TypeError(_) => "Type Error"@,
            FoliaError::NoTextError(_) => "No Text Error"@,
            FoliaError::IndexError => "invalid index"@,
        }
    }

    /// The message that an error with a message carries.
    pub open spec fn text(&self) -> Option<Seq<char>> {
        match self {
            FoliaError::ParseError(m) | FoliaError::SerialisationError(m) | FoliaError::IncompleteError(m)
            | FoliaError::ValidationError(m) | FoliaError::InternalError(m) | FoliaError::EncodeError(m)
            | FoliaError::KeyError(m) | FoliaError::QueryError(m) | FoliaError::TypeError(m)
            | FoliaError::NoTextError(m) => Some(m@),
            _ => None,
        }
    }

    ///The name of the kind of error
    pub fn as_str(&self) -> (r: &'static str)
        ensures
            r@ == self.kind(),
    {
        match self {
            FoliaError::IoError(_) => "IO Error",
            FoliaError::XmlError(_) => "XML Error",
            FoliaError::ParseError(_) => "Parse Error",
            FoliaError::SerialisationError(_) => "Serialisation Error",
            FoliaError::IncompleteError(_) => "Incomplete Error",
            FoliaError::ValidationError(_) => "Validation Error",
            FoliaError::InternalError(_) => "Internal Error",
            FoliaError::EncodeError(_) => "Encode Error",
            FoliaError::KeyError(_) => "Key Error",
            FoliaError::QueryError(_) => "Query Error",
            FoliaError::TypeError(_) => "Type Error",
            FoliaError::NoTextError(_) => "No Text Error",
            FoliaError::IndexError => "invalid index",
        }
    }

    ///The error as a message: the kind of error in brackets, then its message; an I/O or XML
    ///error as its own message
    pub fn to_string(&self) -> (r: String)
        ensures
            self.text() matches Some(m) ==> r@ == "["@ + self.kind() + "] "@ + m,
            self is IndexError ==> r@ == "invalid index"@,
    {
        match self {
            FoliaError::IoError(e) => io_error_message(e),
            FoliaError::XmlError(e) => xml_error_message(e),
            FoliaError::ParseError(m) | FoliaError::SerialisationError(m) | FoliaError::IncompleteError(m)
            | FoliaError::ValidationError(m) | FoliaError::InternalError(m) | FoliaError::EncodeError(m)
            | FoliaError::KeyError(m) | FoliaError::QueryError(m) | FoliaError::TypeError(m)
            | FoliaError::NoTextError(m) => {
                let mut s = concat3("[", self.as_str(), "] ");
                s.append(m.as_str());
                s
            },
            FoliaError::IndexError => "invalid index".to_owned(),
        }
    }

    ///A parse error that gives the message, and then, after " -> ", the error that caused it
    pub fn add_parseerror(msg: &str, err: &FoliaError) -> (r: FoliaError)
        ensures
            err.text() matches Some(m) ==> (r matches FoliaError::ParseError(x)
                && x@ == msg@ + " -> "@ + "["@ + err.kind() + "] "@ + m),
            r is ParseError,
    {
        let mut s = msg.to_owned();
        s.append(" -> ");
        let e = err.to_string();
        s.append(e.as_str());
        FoliaError::ParseError(s)
    }

    ///The message that the error carries: its own text, or the message of an I/O or XML error
    pub fn message(&self) -> (r: String)
        ensures
            self.text() matches Some(m) ==> r@ == m,
            self is IndexError ==> r@.len() == 0,
    {
        match self {
            FoliaError::IoError(e) => io_error_message(e),
            FoliaError::XmlError(e) => xml_error_message(e),
            FoliaError::ParseError(m) | FoliaError::SerialisationError(m) | FoliaError::IncompleteError(m)
            | FoliaError::ValidationError(m) | FoliaError::InternalError(m) | FoliaError::EncodeError(m)
            | FoliaError::KeyError(m) | FoliaError::QueryError(m) | FoliaError::TypeError(m)
            | FoliaError::NoTextError(m) => m.clone(),
            FoliaError::IndexError => String::new(),
        }
    }
}

} // verus!
