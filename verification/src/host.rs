use vstd::prelude::*;

verus! {

/// The class of a raw host I/O failure, mirroring the operating-system
/// error classes the front end tells apart.
#[derive(Clone, Copy, Debug, PartialEq, Eq, Structural)]
pub enum IoFailureKind {
    NotFound,
    PermissionDenied,
    AlreadyExists,
    InvalidInput,
    InvalidData,
    UnexpectedEof,
    Interrupted,
    Other,
}

/// A raw I/O failure handed in by the host environment: a class plus the
/// host's own description of what went wrong. The diagnostic taxonomy wraps
/// such a value unmodified, so nothing of it is lost on the way up.
#[derive(Debug)]
pub struct IoFailure {
    pub kind: IoFailureKind,
    pub message: String,
}

/// The mathematical value of an [`IoFailure`].
pub struct IoFailureView {
    pub kind: IoFailureKind,
    pub message: Seq<char>,
}

impl View for IoFailure {
    type V = IoFailureView;

    open spec fn view(&self) -> IoFailureView {
        IoFailureView { kind: self.kind, message: self.message@ }
    }
}

impl IoFailure {
    /// Builds the failure for the given class and description.
    pub fn new(kind: IoFailureKind, message: String) -> (r: IoFailure)
        ensures
            r@ == (IoFailureView { kind, message: message@ }),
    {
        IoFailure { kind, message }
    }
}

impl PartialEq for IoFailure {
    fn eq(&self, other: &IoFailure) -> (r: bool) {
        self.kind == other.kind && self.message == other.message
    }
}

impl vstd::std_specs::cmp::PartialEqSpecImpl for IoFailure {
    open spec fn obeys_eq_spec() -> bool {
        true
    }

    open spec fn eq_spec(&self, other: &IoFailure) -> bool {
        self@ == other@
    }
}

/// A text-formatting failure from the host environment. Like the host's own
/// formatting error it carries no further detail: the value itself is the
/// whole report.
#[derive(Clone, Copy, Debug, PartialEq, Eq, Structural)]
pub struct FormatFailure;

} // verus!
