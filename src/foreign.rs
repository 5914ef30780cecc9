//! The failure types of the subsystems that this taxonomy takes in. Each is
//! carried through unchanged and read only through its own `Display`.

use vstd::prelude::*;

verus! {

/// `std::io::Error`, carried by the I/O category.
#[verifier::external_type_specification]
#[verifier::external_body]
pub struct ExIoError(std::io::Error);

/// `std::fmt::Error`, carried by the formatting category.
#[verifier::external_type_specification]
#[verifier::external_body]
pub struct ExFmtError(std::fmt::Error);

/// `http::uri::InvalidUri` (as re-exported by hyper), carried by the
/// invalid-proxy category.
#[verifier::external_type_specification]
#[verifier::external_body]
pub struct ExInvalidUri(hyper::http::uri::InvalidUri);

/// `hyper::Error`, taken in as its message.
#[verifier::external_type_specification]
#[verifier::external_body]
pub struct ExHyperError(hyper::Error);

/// `object::Error`, carried by the object-file category.
#[verifier::external_type_specification]
#[verifier::external_body]
pub struct ExObjectError(object::Error);

/// `handlebars::RenderError`, carried by the template category.
#[verifier::external_type_specification]
#[verifier::external_body]
pub struct ExRenderError(handlebars::RenderError);

/// `anyhow::Error`, carried whole, chain included, by the catch-all category.
#[verifier::external_type_specification]
#[verifier::external_body]
pub struct ExAnyhowError(anyhow::Error);

/// `html_parser::Error`, taken in as its message.
#[verifier::external_type_specification]
#[verifier::external_body]
pub struct ExHtmlError(html_parser::Error);

} // verus!
