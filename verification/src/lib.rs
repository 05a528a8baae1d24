use vstd::prelude::*;

pub mod manifest;
pub mod orchestrator;
pub mod resolve;
pub mod scaffold;
pub mod sources;

pub use manifest::{Manifest, Package};
pub use orchestrator::{BuildPlan, CleanAction, CommandDesc, ToolDesc};
pub use resolve::{Config, FsEntry};
pub use scaffold::{ScaffoldFile, ScaffoldPlan};

verus! {

/// A hook for reporting: runs the given action when the value is an
/// error, and hands the value back unchanged either way.
pub trait OnError: Sized {
    fn on_err<F: FnOnce() -> ()>(self, f: F) -> (r: Self)
        requires
            f.requires(()),
        ensures
            r == self,
    ;
}

impl<T, E> OnError for Result<T, E> {
    fn on_err<F: FnOnce() -> ()>(self, f: F) -> (r: Self) {
        match self {
            Ok(v) => Ok(v),
            Err(e) => {
                f();
                Err(e)
            },
        }
    }
}

/// The error taxonomy of the tool: a manifest that does not conform to
/// the manifest grammar, a filesystem failure carried as its message,
/// and every other failure as a plain message.
#[derive(Debug, PartialEq, Eq)]
pub enum Error {
    ManifestParse,
    Io(String),
    Other(String),
}

impl Error {
    /// The user-facing message for this error.
    pub open spec fn message_spec(&self) -> Seq<char> {
        match self {
            Error::ManifestParse => "manifest parse error"@,
            Error::Io(m) => "IO error ("@ + m@ + ")"@,
            Error::Other(m) => "error ("@ + m@ + ")"@,
        }
    }

    pub fn message(&self) -> (r: String)
        ensures
            r@ == self.message_spec(),
    {
        match self {
            Error::ManifestParse => String::from_str("manifest parse error"),
            Error::Io(m) => {
                let mut r = String::from_str("IO error (");
                r.append(m.as_str());
                r.append(")");
                r
            },
            Error::Other(m) => {
                let mut r = String::from_str("error (");
                r.append(m.as_str());
                r.append(")");
                r
            },
        }
    }
}

} // verus!
