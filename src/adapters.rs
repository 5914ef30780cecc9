//! The adapters that bring each subsystem's failure into the taxonomy.
//! Each foreign type has exactly one category; the structured ones are kept
//! whole inside it.

use crate::failure::FailureKind;
use crate::subsystem::{BundleError, PatchError};
use vstd::prelude::*;
use vstd::std_specs::convert::FromSpecImpl;
use vstd::string::*;

verus! {

/// A failure of the operating system's I/O.
impl From<std::io::Error> for FailureKind {
    fn from(e: std::io::Error) -> (r: FailureKind) {
        FailureKind::IO(e)
    }
}

impl FromSpecImpl<std::io::Error> for FailureKind {
    open spec fn obeys_from_spec() -> bool {
        true
    }

    open spec fn from_spec(e: std::io::Error) -> FailureKind {
        FailureKind::IO(e)
    }
}

/// A failure to format text.
impl From<std::fmt::Error> for FailureKind {
    fn from(e: std::fmt::Error) -> (r: FailureKind) {
        FailureKind::Format(e)
    }
}

impl FromSpecImpl<std::fmt::Error> for FailureKind {
    open spec fn obeys_from_spec() -> bool {
        true
    }

    open spec fn from_spec(e: std::fmt::Error) -> FailureKind {
        FailureKind::Format(e)
    }
}

/// A proxy address that does not parse as a URI.
impl From<hyper::http::uri::InvalidUri> for FailureKind {
    fn from(e: hyper::http::uri::InvalidUri) -> (r: FailureKind) {
        FailureKind::InvalidProxy(e)
    }
}

impl FromSpecImpl<hyper::http::uri::InvalidUri> for FailureKind {
    open spec fn obeys_from_spec() -> bool {
        true
    }

    open spec fn from_spec(e: hyper::http::uri::InvalidUri) -> FailureKind {
        FailureKind::InvalidProxy(e)
    }
}

/// A failure to package the application.
impl From<BundleError> for FailureKind {
    fn from(e: BundleError) -> (r: FailureKind) {
        FailureKind::BundleFailed(e)
    }
}

impl FromSpecImpl<BundleError> for FailureKind {
    open spec fn obeys_from_spec() -> bool {
        true
    }

    open spec fn from_spec(e: BundleError) -> FailureKind {
        FailureKind::BundleFailed(e)
    }
}

/// A failure to apply a hot-patch.
impl From<PatchError> for FailureKind {
    fn from(e: PatchError) -> (r: FailureKind) {
        FailureKind::PatchingFailed(e)
    }
}

impl FromSpecImpl<PatchError> for FailureKind {
    open spec fn obeys_from_spec() -> bool {
        true
    }

    open spec fn from_spec(e: PatchError) -> FailureKind {
        FailureKind::PatchingFailed(e)
    }
}

/// A failure to read an object file.
impl From<object::Error> for FailureKind {
    fn from(e: object::Error) -> (r: FailureKind) {
        FailureKind::ObjectReadFailed(e)
    }
}

impl FromSpecImpl<object::Error> for FailureKind {
    open spec fn obeys_from_spec() -> bool {
        true
    }

    open spec fn from_spec(e: object::Error) -> FailureKind {
        FailureKind::ObjectReadFailed(e)
    }
}

/// A failure to render a template.
impl From<handlebars::RenderError> for FailureKind {
    fn from(e: handlebars::RenderError) -> (r: FailureKind) {
        FailureKind::TemplateParse(e)
    }
}

impl FromSpecImpl<handlebars::RenderError> for FailureKind {
    open spec fn obeys_from_spec() -> bool {
        true
    }

    open spec fn from_spec(e: handlebars::RenderError) -> FailureKind {
        FailureKind::TemplateParse(e)
    }
}

/// A failure of any other origin, with its whole chain.
impl From<anyhow::Error> for FailureKind {
    fn from(e: anyhow::Error) -> (r: FailureKind) {
        FailureKind::Other(e)
    }
}

impl FromSpecImpl<anyhow::Error> for FailureKind {
    open spec fn obeys_from_spec() -> bool {
        true
    }

    open spec fn from_spec(e: anyhow::Error) -> FailureKind {
        FailureKind::Other(e)
    }
}

/// An ad hoc message, owned.
impl From<String> for FailureKind {
    fn from(e: String) -> (r: FailureKind) {
        FailureKind::Unique(e)
    }
}

impl FromSpecImpl<String> for FailureKind {
    open spec fn obeys_from_spec() -> bool {
        true
    }

    open spec fn from_spec(e: String) -> FailureKind {
        FailureKind::Unique(e)
    }
}

/// An ad hoc message, borrowed.
impl From<&str> for FailureKind {
    fn from(s: &str) -> (r: FailureKind)
        ensures
            r matches FailureKind::Unique(t) && t@ == s@,
    {
        FailureKind::Unique(String::from_str(s))
    }
}

impl FromSpecImpl<&str> for FailureKind {
    open spec fn obeys_from_spec() -> bool {
        false
    }

    open spec fn from_spec(s: &str) -> FailureKind {
        arbitrary()
    }
}

/// Malformed markup, kept as the parser's message.
impl From<html_parser::Error> for FailureKind {
    fn from(e: html_parser::Error) -> (r: FailureKind)
        ensures
            r matches FailureKind::Parse(t) && to_string_from_display_ensures::<
                html_parser::Error,
            >(&e, t),
    {
        FailureKind::Parse(e.to_string())
    }
}

impl FromSpecImpl<html_parser::Error> for FailureKind {
    open spec fn obeys_from_spec() -> bool {
        false
    }

    open spec fn from_spec(e: html_parser::Error) -> FailureKind {
        arbitrary()
    }
}

/// A failure of the HTTP layer, kept as its message.
impl From<hyper::Error> for FailureKind {
    fn from(e: hyper::Error) -> (r: FailureKind)
        ensures
            r matches FailureKind::Runtime(t) && to_string_from_display_ensures::<hyper::Error>(
                &e,
                t,
            ),
    {
        FailureKind::Runtime(e.to_string())
    }
}

impl FromSpecImpl<hyper::Error> for FailureKind {
    open spec fn obeys_from_spec() -> bool {
        false
    }

    open spec fn from_spec(e: hyper::Error) -> FailureKind {
        arbitrary()
    }
}

} // verus!
