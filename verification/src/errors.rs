//! The error taxonomy of the orchestrator. Every failure a caller can see is
//! one of these values; each carries a human-readable message built here, so
//! callers only print.

use vstd::prelude::*;

verus! {

/// An engine-signaled termination: the invoked toolchain exited non-zero by
/// its own convention (crash found, session timeout, interruption).
pub struct FuzzerQuit;

impl FuzzerQuit {
    /// The message printed when an engine session ends this way.
    pub fn message(&self) -> (m: String)
        ensures
            m@ == "[WARF] Fuzzer quit"@,
    {
        String::from_str("[WARF] Fuzzer quit")
    }
}

/// Why target discovery failed.
#[derive(Clone, Copy, PartialEq, Eq, Structural, Debug)]
pub enum DiscoveryError {
    /// The scanned source file was missing or unreadable.
    SourceUnreadable,
    /// The source was read but held no occurrence of the entry-point pattern.
    NoTargets,
}

impl DiscoveryError {
    /// A diagnostic line for this failure.
    pub fn message(&self) -> (m: String)
        ensures
            self is SourceUnreadable ==> m@ == "unable to read the targets source file"@,
            self is NoTargets ==> m@ == "no fuzz targets found in the targets source file"@,
    {
        match self {
            DiscoveryError::SourceUnreadable => String::from_str(
                "unable to read the targets source file",
            ),
            DiscoveryError::NoTargets => String::from_str(
                "no fuzz targets found in the targets source file",
            ),
        }
    }
}

/// A requested target name that the latest discovery does not contain,
/// together with a best-effort corrected suggestion when one scored high
/// enough.
pub struct UnknownTarget {
    pub requested: String,
    pub suggestion: Option<String>,
}

impl UnknownTarget {
    /// The diagnostic for an unknown target, naming the request and, when one
    /// exists, the suggested correction.
    pub fn message(&self) -> (m: String)
        ensures
            self.suggestion is Some ==> m@ == "Don't know target `"@ + self.requested@ + "`. "@
                + "Did you mean `"@ + self.suggestion->0@ + "`?"@,
            self.suggestion is None ==> m@ == "Don't know target `"@ + self.requested@ + "`. "@,
    {
        let mut m = String::from_str("Don't know target `");
        m.append(self.requested.as_str());
        m.append("`. ");
        match &self.suggestion {
            Some(s) => {
                m.append("Did you mean `");
                m.append(s.as_str());
                m.append("`?");
            },
            None => {},
        }
        m
    }
}

} // verus!
