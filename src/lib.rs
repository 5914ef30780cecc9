//! A closed taxonomy of the failures that a build and release tool meets,
//! the adapters that bring each subsystem's own failure into it, and the
//! rendering of a failure as the one line that the tool reports.

mod adapters;
mod category;
mod failure;
mod foreign;
mod laws;
mod subsystem;

pub use category::{compose, label, rendered, Category};
pub use failure::{propagate, settle, FailureKind, Result, SILENT_PANIC_MESSAGE};
pub use subsystem::{BundleError, PatchError};
pub use laws::{
    ends_with, lemma_conversions_keep_their_domain, lemma_line_keeps_payload,
    lemma_rendered_ends_with_detail, lemma_verbatim_line_is_detail,
};
