use vstd::prelude::*;
use vstd::string::*;

verus! {

/// The category of a failure: the tag of each variant of the taxonomy,
/// without its payload.
#[derive(Clone, Copy, Debug, PartialEq, Eq, Structural)]
pub enum Category {
    Unique,
    IO,
    Format,
    Parse,
    Runtime,
    Cargo,
    InvalidProxy,
    ProxySetup,
    BundleFailed,
    PatchingFailed,
    ObjectReadFailed,
    CapturedPanic,
    TemplateParse,
    Network,
    Other,
}

impl Category {
    /// A failure of this category is shown as its payload alone, with no heading.
    pub open spec fn spec_is_verbatim(self) -> bool {
        self is Unique || self is CapturedPanic || self is Other
    }

    /// The heading that precedes the payload of a failure of this category.
    pub open spec fn spec_label(self) -> Seq<char> {
        match self {
            Category::Unique => ""@,
            Category::IO => "I/O Error"@,
            Category::Format => "Format Error"@,
            Category::Parse => "Format failed"@,
            Category::Runtime => "Runtime Error"@,
            Category::Cargo => "Cargo Error"@,
            Category::InvalidProxy => "Invalid proxy URL"@,
            Category::ProxySetup => "Establishing proxy"@,
            Category::BundleFailed => "Bundling project"@,
            Category::PatchingFailed => "Performing hotpatch"@,
            Category::ObjectReadFailed => "Reading object file"@,
            Category::CapturedPanic => ""@,
            Category::TemplateParse => "Rendering template error"@,
            Category::Network => "Network connectivity error"@,
            Category::Other => ""@,
        }
    }

    pub fn is_verbatim(self) -> (r: bool)
        ensures
            r == self.spec_is_verbatim(),
    {
        match self {
            Category::Unique | Category::CapturedPanic | Category::Other => true,
            _ => false,
        }
    }
}

/// The heading of a category, as text.
pub fn label(category: Category) -> (r: &'static str)
    ensures
        r@ == category.spec_label(),
{
    match category {
        Category::Unique => "",
        Category::IO => "I/O Error",
        Category::Format => "Format Error",
        Category::Parse => "Format failed",
        Category::Runtime => "Runtime Error",
        Category::Cargo => "Cargo Error",
        Category::InvalidProxy => "Invalid proxy URL",
        Category::ProxySetup => "Establishing proxy",
        Category::BundleFailed => "Bundling project",
        Category::PatchingFailed => "Performing hotpatch",
        Category::ObjectReadFailed => "Reading object file",
        Category::CapturedPanic => "",
        Category::TemplateParse => "Rendering template error",
        Category::Network => "Network connectivity error",
        Category::Other => "",
    }
}

/// The line reported for a failure of the given category whose payload reads
/// `detail`: the payload alone for the verbatim kinds, else the heading,
/// a colon and a space, then the payload.
pub open spec fn rendered(category: Category, detail: Seq<char>) -> Seq<char> {
    if category.spec_is_verbatim() {
        detail
    } else {
        category.spec_label() + ": "@ + detail
    }
}

/// Renders a failure of the given category whose payload reads `detail`.
pub fn compose(category: Category, detail: &str) -> (r: String)
    ensures
        r@ == rendered(category, detail@),
{
    if category.is_verbatim() {
        String::from_str(detail)
    } else {
        let mut line = String::from_str(label(category));
        line.append(": ");
        line.append(detail);
        line
    }
}

} // verus!
