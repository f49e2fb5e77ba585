//! Error types of the library.

use vstd::prelude::*;

verus! {

#[verifier::external_type_specification]
#[verifier::external_body]
pub struct ExKubeError(kube::Error);

#[verifier::external_type_specification]
#[verifier::external_body]
pub struct ExSerdeJsonError(serde_json::Error);

/// Errors of the Crucible types and controllers.
#[derive(Debug)]
pub enum CrucibleError {
    /// A job phase change that the state machine does not allow.
    InvalidTransition { from: String, to: String },
    /// A request or resource that fails validation.
    Validation(String),
    /// An error reported by the Kubernetes client.
    Kube(kube::Error),
    /// An error reported by the JSON (de)serializer.
    Serialization(serde_json::Error),
}

/// The text that `kube::Error`'s `Display` implementation writes.
///
/// Calls `ToString::to_string` on a `kube::Error`; nothing is claimed of the text.
#[verifier::external_body]
fn kube_error_text(e: &kube::Error) -> String {
    e.to_string()
}

/// The text that `serde_json::Error`'s `Display` implementation writes.
///
/// Calls `ToString::to_string` on a `serde_json::Error`; nothing is claimed of the text.
#[verifier::external_body]
fn serde_json_error_text(e: &serde_json::Error) -> String {
    e.to_string()
}

impl CrucibleError {
    /// The human-readable message of the error.
    pub fn message(&self) -> (s: String)
        ensures
            self matches CrucibleError::InvalidTransition { from, to } ==> s@
                == "invalid state transition from "@ + from@ + " to "@ + to@,
            self matches CrucibleError::Validation(m) ==> s@ == "validation error: "@ + m@,
            self is Kube ==> s@.len() >= "kubernetes error: "@.len()
                && s@.take("kubernetes error: "@.len() as int) == "kubernetes error: "@,
            self is Serialization ==> s@.len() >= "serialization error: "@.len()
                && s@.take("serialization error: "@.len() as int) == "serialization error: "@,
    {
        match self {
            CrucibleError::InvalidTransition { from, to } => {
                let mut s = String::from_str("invalid state transition from ");
                s.append(from.as_str());
                s.append(" to ");
                s.append(to.as_str());
                s
            },
            CrucibleError::Validation(m) => {
                let mut s = String::from_str("validation error: ");
                s.append(m.as_str());
                s
            },
            CrucibleError::Kube(e) => {
                let inner = kube_error_text(e);
                let mut s = String::from_str("kubernetes error: ");
                let ghost prefix = s@;
                s.append(inner.as_str());
                assert(s@.take(prefix.len() as int) =~= prefix);
                s
            },
            CrucibleError::Serialization(e) => {
                let inner = serde_json_error_text(e);
                let mut s = String::from_str("serialization error: ");
                let ghost prefix = s@;
                s.append(inner.as_str());
                assert(s@.take(prefix.len() as int) =~= prefix);
                s
            },
        }
    }
}

impl From<kube::Error> for CrucibleError {
    fn from(e: kube::Error) -> (r: Self) {
        CrucibleError::Kube(e)
    }
}

impl vstd::std_specs::convert::FromSpecImpl<kube::Error> for CrucibleError {
    open spec fn obeys_from_spec() -> bool {
        true
    }

    open spec fn from_spec(e: kube::Error) -> CrucibleError {
        CrucibleError::Kube(e)
    }
}

impl From<serde_json::Error> for CrucibleError {
    fn from(e: serde_json::Error) -> (r: Self) {
        CrucibleError::Serialization(e)
    }
}

impl vstd::std_specs::convert::FromSpecImpl<serde_json::Error> for CrucibleError {
    open spec fn obeys_from_spec() -> bool {
        true
    }

    open spec fn from_spec(e: serde_json::Error) -> CrucibleError {
        CrucibleError::Serialization(e)
    }
}

/// Errors of the object store client.
#[derive(Debug)]
pub enum StoreError {
    /// The object does not exist.
    NotFound(String),
    /// Any other failure of the store.
    Internal(String),
}

impl StoreError {
    /// The human-readable message of the error.
    pub fn message(&self) -> (s: String)
        ensures
            self matches StoreError::NotFound(k) ==> s@ == "object not found: "@ + k@,
            self matches StoreError::Internal(m) ==> s@ == "store error: "@ + m@,
    {
        match self {
            StoreError::NotFound(k) => {
                let mut s = String::from_str("object not found: ");
                s.append(k.as_str());
                s
            },
            StoreError::Internal(m) => {
                let mut s = String::from_str("store error: ");
                s.append(m.as_str());
                s
            },
        }
    }
}

} // verus!
