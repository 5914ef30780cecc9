//! What holds of the taxonomy as a whole: where each foreign failure lands,
//! and what the reported line keeps of a failure's payload.

use crate::category::{rendered, Category};
use crate::failure::FailureKind;
use crate::subsystem::{BundleError, PatchError};
use vstd::prelude::*;
use vstd::std_specs::convert::FromSpec;

verus! {

/// `s` ends with `t`.
pub open spec fn ends_with(s: Seq<char>, t: Seq<char>) -> bool {
    t.len() <= s.len() && s.subrange(s.len() - t.len(), s.len() as int) == t
}

/// The reported line of any category ends with the payload, unchanged.
pub proof fn lemma_rendered_ends_with_detail(category: Category, detail: Seq<char>)
    ensures
        ends_with(rendered(category, detail), detail),
{
    let line = rendered(category, detail);
    if !category.spec_is_verbatim() {
        let head = category.spec_label() + ": "@;
        assert(line == head + detail);
        assert(line.subrange(head.len() as int, line.len() as int) =~= detail);
    } else {
        assert(line.subrange(0, line.len() as int) =~= detail);
    }
}

/// The verbatim categories report their payload exactly as it is.
pub proof fn lemma_verbatim_line_is_detail(category: Category, detail: Seq<char>)
    requires
        category.spec_is_verbatim(),
    ensures
        rendered(category, detail) == detail,
{
}

/// Whatever a failure's payload is, the line reported for it ends with that
/// payload as text: for a nested failure, with what the failure's own
/// `Display` writes.
pub proof fn lemma_line_keeps_payload(failure: FailureKind, line: Seq<char>)
    requires
        failure.renders_as(line),
    ensures
        exists|d: String| #[trigger] failure.describes(d) && ends_with(line, d@),
{
    let d = choose|d: String| #[trigger] failure.describes(d) && line == rendered(
        failure.spec_category(),
        d@,
    );
    lemma_rendered_ends_with_detail(failure.spec_category(), d@);
}

/// Each structured foreign failure, and an owned message, converts into its
/// one category and is held there unchanged.
pub proof fn lemma_conversions_keep_their_domain(
    io: std::io::Error,
    format: std::fmt::Error,
    proxy: hyper::http::uri::InvalidUri,
    bundle: BundleError,
    patch: PatchError,
    object: object::Error,
    template: handlebars::RenderError,
    other: anyhow::Error,
    message: String,
)
    ensures
        <FailureKind as FromSpec<std::io::Error>>::obeys_from_spec(),
        <FailureKind as FromSpec<std::io::Error>>::from_spec(io) == FailureKind::IO(io),
        <FailureKind as FromSpec<std::fmt::Error>>::obeys_from_spec(),
        <FailureKind as FromSpec<std::fmt::Error>>::from_spec(format) == FailureKind::Format(
            format,
        ),
        <FailureKind as FromSpec<hyper::http::uri::InvalidUri>>::obeys_from_spec(),
        <FailureKind as FromSpec<hyper::http::uri::InvalidUri>>::from_spec(proxy)
            == FailureKind::InvalidProxy(proxy),
        <FailureKind as FromSpec<BundleError>>::obeys_from_spec(),
        <FailureKind as FromSpec<BundleError>>::from_spec(bundle) == FailureKind::BundleFailed(
            bundle,
        ),
        <FailureKind as FromSpec<PatchError>>::obeys_from_spec(),
        <FailureKind as FromSpec<PatchError>>::from_spec(patch) == FailureKind::PatchingFailed(
            patch,
        ),
        <FailureKind as FromSpec<object::Error>>::obeys_from_spec(),
        <FailureKind as FromSpec<object::Error>>::from_spec(object)
            == FailureKind::ObjectReadFailed(object),
        <FailureKind as FromSpec<handlebars::RenderError>>::obeys_from_spec(),
        <FailureKind as FromSpec<handlebars::RenderError>>::from_spec(template)
            == FailureKind::TemplateParse(template),
        <FailureKind as FromSpec<anyhow::Error>>::obeys_from_spec(),
        <FailureKind as FromSpec<anyhow::Error>>::from_spec(other) == FailureKind::Other(other),
        <FailureKind as FromSpec<String>>::obeys_from_spec(),
        <FailureKind as FromSpec<String>>::from_spec(message) == FailureKind::Unique(message),
        rendered(Category::Unique, message@) == message@,
{
}

} // verus!
