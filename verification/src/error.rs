//! Errors of the temporal head.
use ruvllm_sparse_attention::AttentionError;
use vstd::prelude::*;
use vstd::string::*;

use crate::kernel::{error_text, fault, fault_text};

verus! {

/// Why a temporal head cannot be made or cannot work.
#[derive(Debug)]
pub enum TemporalError {
    /// The configuration is unsound, with what is wrong with it.
    InvalidConfig(&'static str),
    /// The dense backend was asked for.
    DenseBackendNotImplemented,
    /// The sparse attention kernel refused, with what it said.
    Kernel(String),
}

/// `e` reports the kernel fault `f`, in the kernel's own words.
pub open spec fn reports(e: TemporalError, f: crate::kernel::Fault) -> bool {
    e matches TemporalError::Kernel(message) && message@ == fault_text(f)
}

impl TemporalError {
    /// The text of the error.
    pub open spec fn text(self) -> Seq<char> {
        match self {
            TemporalError::InvalidConfig(why) => "temporal head config invalid: "@ + why@,
            TemporalError::DenseBackendNotImplemented =>
                "dense MHA backend not implemented yet (ADR-096 §4.4 follow-up)"@,
            TemporalError::Kernel(message) => "sparse attention kernel error: "@ + message@,
        }
    }

    /// Writes the error out.
    pub fn message(&self) -> (r: String)
        ensures
            r@ == self.text(),
    {
        match self {
            TemporalError::InvalidConfig(why) => {
                let mut s = "temporal head config invalid: ".to_owned();
                s.append(why);
                s
            },
            TemporalError::DenseBackendNotImplemented =>
                "dense MHA backend not implemented yet (ADR-096 §4.4 follow-up)".to_owned(),
            TemporalError::Kernel(message) => {
                let mut s = "sparse attention kernel error: ".to_owned();
                s.append(message.as_str());
                s
            },
        }
    }
}

impl vstd::std_specs::convert::FromSpecImpl<AttentionError> for TemporalError {
    open spec fn obeys_from_spec() -> bool {
        false
    }

    open spec fn from_spec(e: AttentionError) -> Self {
        arbitrary()
    }
}

impl From<AttentionError> for TemporalError {
    fn from(e: AttentionError) -> (r: Self)
        ensures
            reports(r, fault(e)),
    {
        TemporalError::Kernel(error_text(&e))
    }
}

} // verus!
