//! The errors of an enumeration.
use vstd::prelude::*;
use vstd::std_specs::convert::FromSpecImpl;
use vstd::string::{to_string_from_display_ensures, StringExecFns};

verus! {

/// An error of the operating system, as `std` holds it.
#[verifier::external_type_specification]
#[verifier::external_body]
pub struct ExIoError(std::io::Error);

/// An error of JSON serialisation, as `serde_json` holds it.
#[verifier::external_type_specification]
#[verifier::external_body]
pub struct ExJsonError(serde_json::Error);

/// A failure to open or to walk the interface list of a Unix host, kept as
/// the text that the platform gave for it.
#[derive(Clone, Debug, PartialEq, Eq)]
pub struct InterfacesError {
    pub detail: String,
}

/// What can go wrong when a host's interfaces are enumerated or the records
/// are written out.
#[derive(Debug)]
pub enum IfCfgError {
    /// The interface list of a Unix host could not be opened or walked.
    InterfacesError(InterfacesError),
    /// The platform call failed for another reason than a buffer too small.
    IOError(std::io::Error),
    /// The records could not be serialised.
    SerdeJsonError(serde_json::Error),
    /// An invariant did not hold that normal operation keeps.
    Generic(&'static str),
}

/// A label with a detail in round brackets after it, as in `Generic(why)`.
pub open spec fn labelled(label: Seq<char>, detail: Seq<char>) -> Seq<char> {
    label + seq!['('] + detail + seq![')']
}

/// Writes a detail in round brackets after a label.
pub fn label(name: &str, detail: &str) -> (r: String)
    ensures
        r@ == labelled(name@, detail@),
{
    proof {
        reveal_strlit("(");
        reveal_strlit(")");
    }
    let mut text = String::from_str(name);
    text.append("(");
    text.append(detail);
    text.append(")");
    text
}

impl IfCfgError {
    /// The error as text: the name of its kind, and in round brackets what
    /// the error itself says. What an error of the operating system or of
    /// serialisation says is for `std` and `serde_json` to decide: the text
    /// in the brackets is what the error displays as.
    pub fn to_string(&self) -> (r: String)
        ensures
            match self {
                IfCfgError::InterfacesError(err) => r@ == labelled("InterfacesError"@, err.detail@),
                IfCfgError::IOError(err) => exists|detail: String|
                    to_string_from_display_ensures::<std::io::Error>(err, detail) && r@
                        == labelled("IOError"@, detail@),
                IfCfgError::SerdeJsonError(err) => exists|detail: String|
                    to_string_from_display_ensures::<serde_json::Error>(err, detail) && r@
                        == labelled("SerdeJsonError"@, detail@),
                IfCfgError::Generic(why) => r@ == labelled("Generic"@, why@),
            },
    {
        match self {
            IfCfgError::InterfacesError(err) => label("InterfacesError", err.detail.as_str()),
            IfCfgError::IOError(err) => {
                let detail = err.to_string();
                label("IOError", detail.as_str())
            },
            IfCfgError::SerdeJsonError(err) => {
                let detail = err.to_string();
                label("SerdeJsonError", detail.as_str())
            },
            IfCfgError::Generic(why) => label("Generic", why),
        }
    }
}

impl From<std::io::Error> for IfCfgError {
    fn from(err: std::io::Error) -> (r: IfCfgError) {
        IfCfgError::IOError(err)
    }
}

impl FromSpecImpl<std::io::Error> for IfCfgError {
    open spec fn obeys_from_spec() -> bool {
        true
    }

    open spec fn from_spec(err: std::io::Error) -> IfCfgError {
        IfCfgError::IOError(err)
    }
}

impl From<serde_json::Error> for IfCfgError {
    fn from(err: serde_json::Error) -> (r: IfCfgError) {
        IfCfgError::SerdeJsonError(err)
    }
}

impl FromSpecImpl<serde_json::Error> for IfCfgError {
    open spec fn obeys_from_spec() -> bool {
        true
    }

    open spec fn from_spec(err: serde_json::Error) -> IfCfgError {
        IfCfgError::SerdeJsonError(err)
    }
}

impl From<InterfacesError> for IfCfgError {
    fn from(err: InterfacesError) -> (r: IfCfgError) {
        IfCfgError::InterfacesError(err)
    }
}

impl FromSpecImpl<InterfacesError> for IfCfgError {
    open spec fn obeys_from_spec() -> bool {
        true
    }

    open spec fn from_spec(err: InterfacesError) -> IfCfgError {
        IfCfgError::InterfacesError(err)
    }
}

} // verus!
