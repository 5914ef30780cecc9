use crate::category::{compose, rendered, Category};
use crate::subsystem::{BundleError, PatchError};
use vstd::prelude::*;
use vstd::string::*;

verus! {

/// The result of a fallible operation of the tool; its failures are
/// `FailureKind` unless stated otherwise.
pub type Result<T, E = FailureKind> = std::result::Result<T, E>;

/// A failure of the tool: exactly one category, with either its message
/// as text or the failure value of the subsystem it came from, kept whole.
#[derive(Debug)]
pub enum FailureKind {
    /// A one-off failure that no category fits, shown as its text alone.
    Unique(String),
    IO(std::io::Error),
    Format(std::fmt::Error),
    Parse(String),
    Runtime(String),
    Cargo(String),
    InvalidProxy(hyper::http::uri::InvalidUri),
    ProxySetup(String),
    BundleFailed(BundleError),
    PatchingFailed(PatchError),
    ObjectReadFailed(object::Error),
    /// A fault caught at a supervised boundary, shown as its message alone.
    CapturedPanic(String),
    TemplateParse(handlebars::RenderError),
    Network(String),
    /// A failure of any other origin, shown as that failure shows itself.
    Other(anyhow::Error),
}

/// The message given when a caught fault carries no text.
pub const SILENT_PANIC_MESSAGE: &'static str = "panicked without a message";

impl FailureKind {
    pub open spec fn spec_category(self) -> Category {
        match self {
            FailureKind::Unique(_) => Category::Unique,
            FailureKind::IO(_) => Category::IO,
            FailureKind::Format(_) => Category::Format,
            FailureKind::Parse(_) => Category::Parse,
            FailureKind::Runtime(_) => Category::Runtime,
            FailureKind::Cargo(_) => Category::Cargo,
            FailureKind::InvalidProxy(_) => Category::InvalidProxy,
            FailureKind::ProxySetup(_) => Category::ProxySetup,
            FailureKind::BundleFailed(_) => Category::BundleFailed,
            FailureKind::PatchingFailed(_) => Category::PatchingFailed,
            FailureKind::ObjectReadFailed(_) => Category::ObjectReadFailed,
            FailureKind::CapturedPanic(_) => Category::CapturedPanic,
            FailureKind::TemplateParse(_) => Category::TemplateParse,
            FailureKind::Network(_) => Category::Network,
            FailureKind::Other(_) => Category::Other,
        }
    }

    /// `d` is this failure's payload as text: the text itself where the
    /// payload is text or a message of this library's subsystems, else
    /// what the nested failure's own `Display` writes.
    pub open spec fn describes(self, d: String) -> bool {
        match self {
            FailureKind::Unique(t) => d@ == t@,
            FailureKind::IO(e) => to_string_from_display_ensures::<std::io::Error>(&e, d),
            FailureKind::Format(e) => to_string_from_display_ensures::<std::fmt::Error>(&e, d),
            FailureKind::Parse(t) => d@ == t@,
            FailureKind::Runtime(t) => d@ == t@,
            FailureKind::Cargo(t) => d@ == t@,
            FailureKind::InvalidProxy(e) => to_string_from_display_ensures::<
                hyper::http::uri::InvalidUri,
            >(&e, d),
            FailureKind::ProxySetup(t) => d@ == t@,
            FailureKind::BundleFailed(b) => d@ == b.message@,
            FailureKind::PatchingFailed(p) => d@ == p.message@,
            FailureKind::ObjectReadFailed(e) => to_string_from_display_ensures::<object::Error>(
                &e,
                d,
            ),
            FailureKind::CapturedPanic(t) => d@ == t@,
            FailureKind::TemplateParse(e) => to_string_from_display_ensures::<
                handlebars::RenderError,
            >(&e, d),
            FailureKind::Network(t) => d@ == t@,
            FailureKind::Other(e) => to_string_from_display_ensures::<anyhow::Error>(&e, d),
        }
    }

    /// The payload as text, for the categories whose payload is text.
    pub open spec fn text(self) -> Option<Seq<char>> {
        match self {
            FailureKind::Unique(t) => Some(t@),
            FailureKind::Parse(t) => Some(t@),
            FailureKind::Runtime(t) => Some(t@),
            FailureKind::Cargo(t) => Some(t@),
            FailureKind::ProxySetup(t) => Some(t@),
            FailureKind::CapturedPanic(t) => Some(t@),
            FailureKind::Network(t) => Some(t@),
            _ => None,
        }
    }

    /// `line` is the line reported for this failure: its category's rendering of
    /// its payload as text.
    pub open spec fn renders_as(self, line: Seq<char>) -> bool {
        exists|d: String| #[trigger] self.describes(d) && line == rendered(self.spec_category(), d@)
    }

    pub fn category(&self) -> (c: Category)
        ensures
            c == self.spec_category(),
    {
        match self {
            FailureKind::Unique(_) => Category::Unique,
            FailureKind::IO(_) => Category::IO,
            FailureKind::Format(_) => Category::Format,
            FailureKind::Parse(_) => Category::Parse,
            FailureKind::Runtime(_) => Category::Runtime,
            FailureKind::Cargo(_) => Category::Cargo,
            FailureKind::InvalidProxy(_) => Category::InvalidProxy,
            FailureKind::ProxySetup(_) => Category::ProxySetup,
            FailureKind::BundleFailed(_) => Category::BundleFailed,
            FailureKind::PatchingFailed(_) => Category::PatchingFailed,
            FailureKind::ObjectReadFailed(_) => Category::ObjectReadFailed,
            FailureKind::CapturedPanic(_) => Category::CapturedPanic,
            FailureKind::TemplateParse(_) => Category::TemplateParse,
            FailureKind::Network(_) => Category::Network,
            FailureKind::Other(_) => Category::Other,
        }
    }

    /// The payload as text.
    pub fn detail(&self) -> (d: String)
        ensures
            self.describes(d),
    {
        match self {
            FailureKind::Unique(t) => t.clone(),
            FailureKind::IO(e) => e.to_string(),
            FailureKind::Format(e) => e.to_string(),
            FailureKind::Parse(t) => t.clone(),
            FailureKind::Runtime(t) => t.clone(),
            FailureKind::Cargo(t) => t.clone(),
            FailureKind::InvalidProxy(e) => e.to_string(),
            FailureKind::ProxySetup(t) => t.clone(),
            FailureKind::BundleFailed(b) => b.message.clone(),
            FailureKind::PatchingFailed(p) => p.message.clone(),
            FailureKind::ObjectReadFailed(e) => e.to_string(),
            FailureKind::CapturedPanic(t) => t.clone(),
            FailureKind::TemplateParse(e) => e.to_string(),
            FailureKind::Network(t) => t.clone(),
            FailureKind::Other(e) => e.to_string(),
        }
    }

    /// The one line reported for this failure. It is defined for every
    /// failure, whatever its payload holds.
    pub fn render(&self) -> (line: String)
        ensures
            self.renders_as(line@),
            self.text() matches Some(t) ==> line@ == rendered(self.spec_category(), t),
    {
        let d = self.detail();
        compose(self.category(), d.as_str())
    }

    /// The failure for a fault caught at a supervised boundary, given the
    /// fault's message if it carried one.
    pub fn captured_panic(message: Option<String>) -> (r: FailureKind)
        ensures
            message matches Some(m) ==> r == FailureKind::CapturedPanic(m),
            message is None ==> (r matches FailureKind::CapturedPanic(t) && t@
                == SILENT_PANIC_MESSAGE@),
    {
        match message {
            Some(m) => FailureKind::CapturedPanic(m),
            None => FailureKind::CapturedPanic(String::from_str(SILENT_PANIC_MESSAGE)),
        }
    }
}

/// The result seen past a supervised boundary: the work's own result when it
/// returned, else a captured fault made from what was caught (`Err`, with the
/// fault's message if it carried one).
pub fn settle<T>(outcome: std::result::Result<Result<T>, Option<String>>) -> (r: Result<T>)
    ensures
        outcome matches Ok(inner) ==> r == inner,
        outcome matches Err(Some(m)) ==> r == Err::<T, FailureKind>(FailureKind::CapturedPanic(m)),
        outcome matches Err(None) ==> (r matches Err(FailureKind::CapturedPanic(t)) && t@
            == SILENT_PANIC_MESSAGE@),
{
    match outcome {
        Ok(inner) => inner,
        Err(message) => Err(FailureKind::captured_panic(message)),
    }
}

/// Passes a result on to the caller by `?`: a failure leaves unchanged, in
/// its category and with its payload, and is never wrapped again.
pub fn propagate<T>(r: Result<T>) -> (out: Result<T>)
    ensures
        out == r,
{
    let v = r?;
    Ok(v)
}

} // verus!
