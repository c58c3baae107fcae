//! Why a manifest could not be read.

use vstd::prelude::*;
use vstd::string::StringExecFns;

verus! {

/// Why a text is no manifest. The keys are given by their dotted path in the
/// document, such as `package.metadata.arch.depends`.
#[derive(Clone, Debug, PartialEq, Eq)]
pub enum ManifestError {
    /// The text is not a TOML document.
    Syntax,
    /// A key that every manifest has is absent.
    Missing(String),
    /// A key holds a value of another kind than the one a manifest gives it.
    Mismatch(String),
}

/// A [`ManifestError`], with its key as a sequence of characters.
pub enum Fault {
    Syntax,
    Missing(Seq<char>),
    Mismatch(Seq<char>),
}

impl View for ManifestError {
    type V = Fault;

    open spec fn view(&self) -> Fault {
        match self {
            ManifestError::Syntax => Fault::Syntax,
            ManifestError::Missing(key) => Fault::Missing(key@),
            ManifestError::Mismatch(key) => Fault::Mismatch(key@),
        }
    }
}

/// The sentence that reports `fault`.
pub open spec fn fault_message(fault: Fault) -> Seq<char> {
    match fault {
        Fault::Syntax => "could not decode manifest: not a TOML document"@,
        Fault::Missing(key) => "could not decode manifest: missing key "@ + key,
        Fault::Mismatch(key) => "could not decode manifest: wrong type of value for key "@ + key,
    }
}

impl ManifestError {
    /// The error as a sentence for the user.
    pub fn message(&self) -> (text: String)
        ensures
            text@ == fault_message(self@),
    {
        match self {
            ManifestError::Syntax => "could not decode manifest: not a TOML document".to_owned(),
            ManifestError::Missing(key) => "could not decode manifest: missing key ".to_owned().concat(
                key.as_str(),
            ),
            ManifestError::Mismatch(key) => {
                "could not decode manifest: wrong type of value for key ".to_owned().concat(
                    key.as_str(),
                )
            },
        }
    }
}

} // verus!
