//! The error that lookups and construction report.
use vstd::prelude::*;
use vstd::string::StringExecFns;

verus! {

/// Why a value could not be looked up or built.
#[derive(Debug)]
pub enum BuilderError {
    /// No value of the requested type is stored; `ty` is the name that the
    /// caller gave for that type.
    DataDoesNotExist { ty: String },
    /// Any other failure, as construction logic describes it.
    Other(String),
}

/// A `BuilderError` with its strings as sequences of characters.
pub enum BuilderErrorView {
    DataDoesNotExist { ty: Seq<char> },
    Other(Seq<char>),
}

impl View for BuilderError {
    type V = BuilderErrorView;

    open spec fn view(&self) -> BuilderErrorView {
        match self {
            BuilderError::DataDoesNotExist { ty } => BuilderErrorView::DataDoesNotExist { ty: ty@ },
            BuilderError::Other(reason) => BuilderErrorView::Other(reason@),
        }
    }
}

impl BuilderErrorView {
    /// The text that describes the error.
    pub open spec fn message(self) -> Seq<char> {
        match self {
            BuilderErrorView::DataDoesNotExist { ty } => "data of type "@ + ty
                + " does not exist"@,
            BuilderErrorView::Other(reason) => "other error: "@ + reason,
        }
    }
}

impl BuilderError {
    /// Describes the error in words: `data of type T does not exist` for a
    /// missing value of a type named `T`, `other error: R` for another
    /// failure with the reason `R`.
    pub fn to_string(&self) -> (text: String)
        ensures
            text@ == self@.message(),
    {
        match self {
            BuilderError::DataDoesNotExist { ty } => {
                let mut text = String::from_str("data of type ");
                text.append(ty.as_str());
                text.append(" does not exist");
                text
            },
            BuilderError::Other(reason) => {
                let mut text = String::from_str("other error: ");
                text.append(reason.as_str());
                text
            },
        }
    }
}

} // verus!
