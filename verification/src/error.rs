//! The errors that the gateway reports.

use vstd::prelude::*;

verus! {

/// What went wrong, in broad terms.
#[derive(Clone, Copy, Debug, PartialEq, Eq, Structural)]
pub enum MigErrorKind {
    /// A platform call reported failure.
    WinApi,
    /// The shared activation state could not be locked.
    MutAccess,
    /// The operation ends in a part that is not provided yet.
    NotImpl,
    /// An argument is malformed.
    InvParam,
}

/// An error: its kind and a remark that names the failing operation. Where a
/// platform call failed it also holds the status that the call returned and
/// the error code that the platform gave as the reason.
#[derive(Clone, Debug, PartialEq, Eq)]
pub struct MigError {
    kind: MigErrorKind,
    remark: String,
    status: Option<i32>,
    os_error: Option<i32>,
}

/// The mathematical content of a [`MigError`].
pub struct MigErrorView {
    pub kind: MigErrorKind,
    pub remark: Seq<char>,
    pub status: Option<i32>,
    pub os_error: Option<i32>,
}

impl MigErrorView {
    /// An error that holds nothing but its kind.
    pub open spec fn bare(kind: MigErrorKind) -> MigErrorView {
        MigErrorView { kind, remark: Seq::empty(), status: None, os_error: None }
    }

    /// An error with a remark.
    pub open spec fn remarked(kind: MigErrorKind, remark: Seq<char>) -> MigErrorView {
        MigErrorView { kind, remark, status: None, os_error: None }
    }

    /// A failed platform call.
    pub open spec fn platform(status: i32, os_error: i32, remark: Seq<char>) -> MigErrorView {
        MigErrorView {
            kind: MigErrorKind::WinApi,
            remark,
            status: Some(status),
            os_error: Some(os_error),
        }
    }
}

impl View for MigError {
    type V = MigErrorView;

    closed spec fn view(&self) -> MigErrorView {
        MigErrorView {
            kind: self.kind,
            remark: self.remark@,
            status: self.status,
            os_error: self.os_error,
        }
    }
}

impl MigError {
    /// An error of the given kind without remark or platform code.
    pub fn from_kind(kind: MigErrorKind) -> (err: MigError)
        ensures
            err@ == MigErrorView::bare(kind),
    {
        MigError { kind, remark: String::new(), status: None, os_error: None }
    }

    /// An error of the given kind with a remark.
    pub fn from_remark(kind: MigErrorKind, remark: &str) -> (err: MigError)
        ensures
            err@ == MigErrorView::remarked(kind, remark@),
    {
        MigError { kind, remark: remark.to_owned(), status: None, os_error: None }
    }

    /// A failed platform call: the remark names the call, `status` is what
    /// the call returned, `os_error` the code that the platform gave as the
    /// reason.
    pub fn from_os_error(status: i32, os_error: i32, remark: &str) -> (err: MigError)
        ensures
            err@ == MigErrorView::platform(status, os_error, remark@),
    {
        MigError {
            kind: MigErrorKind::WinApi,
            remark: remark.to_owned(),
            status: Some(status),
            os_error: Some(os_error),
        }
    }

    pub fn kind(&self) -> (kind: MigErrorKind)
        ensures
            kind == self@.kind,
    {
        self.kind
    }

    pub fn remark(&self) -> (remark: &str)
        ensures
            remark@ == self@.remark,
    {
        self.remark.as_str()
    }

    pub fn status(&self) -> (status: Option<i32>)
        ensures
            status == self@.status,
    {
        self.status
    }

    pub fn os_error(&self) -> (os_error: Option<i32>)
        ensures
            os_error == self@.os_error,
    {
        self.os_error
    }
}

} // verus!
