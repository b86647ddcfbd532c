//! Fatal configuration errors: conditions that abort the current test
//! group outright rather than merely failing a test.

use vstd::prelude::*;

verus! {

/// A condition the harness cannot recover from: the test group is aborted
/// and the message surfaced verbatim.
#[derive(Debug, Clone, PartialEq, Eq)]
pub enum FatalError {
    /// A test was registered twice under the same name.
    DuplicateTest { name: String },
    /// An external call was made whose fingerprint no stub covers.
    MissingStub { fingerprint: String },
    /// The module declares an import that no host function implements.
    MissingImport { name: String },
    /// A log line at the critical level.
    CriticalLog { message: String },
    /// A failure was recorded while no test was registered.
    NoCurrentTest,
}

/// Mathematical model of a fatal error.
#[verifier::ext_equal]
pub enum FatalErrorView {
    DuplicateTest { name: Seq<char> },
    MissingStub { fingerprint: Seq<char> },
    MissingImport { name: Seq<char> },
    CriticalLog { message: Seq<char> },
    NoCurrentTest,
}

impl View for FatalError {
    type V = FatalErrorView;

    open spec fn view(&self) -> FatalErrorView {
        match self {
            FatalError::DuplicateTest { name } => FatalErrorView::DuplicateTest { name: name@ },
            FatalError::MissingStub { fingerprint } =>
                FatalErrorView::MissingStub { fingerprint: fingerprint@ },
            FatalError::MissingImport { name } => FatalErrorView::MissingImport { name: name@ },
            FatalError::CriticalLog { message } =>
                FatalErrorView::CriticalLog { message: message@ },
            FatalError::NoCurrentTest => FatalErrorView::NoCurrentTest,
        }
    }
}

/// The text a fatal error surfaces.
pub open spec fn fatal_text(e: FatalErrorView) -> Seq<char> {
    match e {
        FatalErrorView::DuplicateTest { name } =>
            "Test with name '"@ + name + "' already exists."@,
        FatalErrorView::MissingStub { fingerprint } =>
            "key: '"@ + fingerprint + "' not found in map."@,
        FatalErrorView::MissingImport { name } =>
            "Import '"@ + name + "' has no registered host function."@,
        FatalErrorView::CriticalLog { message } => message,
        FatalErrorView::NoCurrentTest => "No test is registered to fail."@,
    }
}

impl FatalError {
    /// Renders the error's message.
    pub fn message(&self) -> (r: String)
        ensures
            r@ == fatal_text(self@),
    {
        match self {
            FatalError::DuplicateTest { name } => {
                let mut out = String::new();
                out.append("Test with name '");
                out.append(name.as_str());
                out.append("' already exists.");
                proof {
                    assert(out@ =~= fatal_text(self@));
                }
                out
            }
            FatalError::MissingStub { fingerprint } => {
                let mut out = String::new();
                out.append("key: '");
                out.append(fingerprint.as_str());
                out.append("' not found in map.");
                proof {
                    assert(out@ =~= fatal_text(self@));
                }
                out
            }
            FatalError::MissingImport { name } => {
                let mut out = String::new();
                out.append("Import '");
                out.append(name.as_str());
                out.append("' has no registered host function.");
                proof {
                    assert(out@ =~= fatal_text(self@));
                }
                out
            }
            FatalError::CriticalLog { message } => message.clone(),
            FatalError::NoCurrentTest => {
                let mut out = String::new();
                out.append("No test is registered to fail.");
                proof {
                    assert(out@ =~= fatal_text(self@));
                }
                out
            }
        }
    }
}

} // verus!
