use cli_error::{
    compose, label, propagate, settle, BundleError, Category, FailureKind, PatchError, Result,
    SILENT_PANIC_MESSAGE,
};

fn bundle(message: &str) -> BundleError {
    BundleError { message: message.to_string() }
}

#[test]
fn runtime_renders_with_its_heading() {
    let f = FailureKind::Runtime("connection reset".to_string());
    assert_eq!(f.render(), "Runtime Error: connection reset");
    assert_eq!(f.category(), Category::Runtime);
}

#[test]
fn bundling_failure_renders_with_its_heading() {
    let f = FailureKind::from(bundle("missing icon"));
    assert_eq!(f.category(), Category::BundleFailed);
    assert_eq!(f.render(), "Bundling project: missing icon");
}

#[test]
fn malformed_proxy_url_renders_the_parser_message() {
    let e = "http://[".parse::<hyper::Uri>().unwrap_err();
    let parser_message = e.to_string();
    assert!(!parser_message.is_empty());
    let f = FailureKind::from(e);
    assert_eq!(f.category(), Category::InvalidProxy);
    assert_eq!(f.render(), format!("Invalid proxy URL: {}", parser_message));
}

#[test]
fn owned_and_borrowed_text_give_the_same_unique_failure() {
    let borrowed = FailureKind::from("something odd happened");
    let owned = FailureKind::from("something odd happened".to_string());
    assert_eq!(borrowed.category(), Category::Unique);
    assert_eq!(owned.category(), Category::Unique);
    assert_eq!(borrowed.render(), "something odd happened");
    assert_eq!(owned.render(), "something odd happened");
}

#[test]
fn rendering_takes_empty_and_control_text() {
    let odd = "\u{0}\u{7}\t\r\n\u{1b}[31m";
    assert_eq!(FailureKind::from("").render(), "");
    assert_eq!(FailureKind::from(odd).render(), odd);
    assert_eq!(FailureKind::Cargo(String::new()).render(), "Cargo Error: ");
    assert_eq!(FailureKind::Network(odd.to_string()).render(), format!("Network connectivity error: {}", odd));
    assert_eq!(FailureKind::CapturedPanic(String::new()).render(), "");
    assert_eq!(FailureKind::from(bundle("")).render(), "Bundling project: ");
    assert_eq!(
        FailureKind::from(PatchError { message: odd.to_string() }).render(),
        format!("Performing hotpatch: {}", odd)
    );
}

#[test]
fn captured_fault_keeps_its_message() {
    let r: Result<u32> = settle(Err(Some("boom".to_string())));
    let f = r.err().unwrap();
    assert_eq!(f.category(), Category::CapturedPanic);
    assert_eq!(f.render(), "boom");
}

#[test]
fn captured_fault_without_text_gets_the_fallback() {
    let r: Result<u32> = settle(Err(None));
    let f = r.err().unwrap();
    assert_eq!(f.category(), Category::CapturedPanic);
    assert_eq!(f.render(), SILENT_PANIC_MESSAGE);
}

#[test]
fn settled_work_that_returned_passes_through() {
    let ok: Result<u32> = settle(Ok(Ok(7)));
    assert_eq!(ok.ok(), Some(7));
    let failed: Result<u32> = settle(Ok(Err(FailureKind::Cargo("exit status 101".to_string()))));
    let f = failed.err().unwrap();
    assert_eq!(f.category(), Category::Cargo);
    assert_eq!(f.render(), "Cargo Error: exit status 101");
}

fn innermost() -> Result<u32> {
    Err(std::io::Error::new(std::io::ErrorKind::NotFound, "Dioxus.toml is gone"))?;
    Ok(1)
}

fn middle() -> Result<u32> {
    let v = innermost()?;
    Ok(v + 1)
}

fn outer() -> Result<u32> {
    let v = middle()?;
    Ok(v + 1)
}

fn outermost() -> Result<u32> {
    let v = outer()?;
    Ok(v + 1)
}

#[test]
fn propagation_through_three_layers_keeps_the_failure() {
    let f = outermost().err().unwrap();
    assert_eq!(f.category(), Category::IO);
    assert!(matches!(f, FailureKind::IO(_)));
    assert_eq!(f.detail(), "Dioxus.toml is gone");
    assert_eq!(f.render(), "I/O Error: Dioxus.toml is gone");
}

#[test]
fn propagate_hands_back_the_same_result() {
    let r: Result<u32> = Err(FailureKind::Network("unreachable".to_string()));
    let f = propagate(propagate(propagate(r))).err().unwrap();
    assert_eq!(f.category(), Category::Network);
    assert_eq!(f.render(), "Network connectivity error: unreachable");
    let ok: Result<u32> = Ok(3);
    assert_eq!(propagate(ok).ok(), Some(3));
}

#[test]
fn io_failure_converts_to_io() {
    let e = std::io::Error::new(std::io::ErrorKind::PermissionDenied, "no access");
    let f = FailureKind::from(e);
    assert_eq!(f.category(), Category::IO);
    assert_eq!(f.render(), "I/O Error: no access");
}

#[test]
fn format_failure_converts_to_format() {
    let f = FailureKind::from(std::fmt::Error);
    assert_eq!(f.category(), Category::Format);
    let own = std::fmt::Error.to_string();
    assert_eq!(f.render(), format!("Format Error: {}", own));
}

#[test]
fn object_failure_converts_to_object_read() {
    let e = object::FileKind::parse(&[0u8; 16][..]).unwrap_err();
    let own = e.to_string();
    assert_eq!(own, "Unknown file magic");
    let f = FailureKind::from(e);
    assert_eq!(f.category(), Category::ObjectReadFailed);
    assert_eq!(f.render(), "Reading object file: Unknown file magic");
}

#[test]
fn template_failure_converts_to_template_parse() {
    let e: handlebars::RenderError =
        handlebars::RenderErrorReason::Other("no such helper".to_string()).into();
    let own = e.to_string();
    assert!(own.contains("no such helper"));
    let f = FailureKind::from(e);
    assert_eq!(f.category(), Category::TemplateParse);
    assert_eq!(f.render(), format!("Rendering template error: {}", own));
}

#[test]
fn aggregated_failure_converts_to_other_and_shows_itself() {
    let e = anyhow::Error::msg("linker exploded").context("while building");
    let own = e.to_string();
    let f = FailureKind::from(e);
    assert_eq!(f.category(), Category::Other);
    assert_eq!(f.render(), own);
    assert_eq!(f.render(), "while building");
}

#[test]
fn markup_failure_converts_to_parse() {
    let f = FailureKind::from(html_parser::Error::Parsing("unexpected <".to_string()));
    assert_eq!(f.category(), Category::Parse);
    assert!(matches!(&f, FailureKind::Parse(t) if t == "unexpected <"));
    assert_eq!(f.render(), "Format failed: unexpected <");
}

#[test]
fn patch_failure_converts_to_patching() {
    let f = FailureKind::from(PatchError { message: "symbol not found".to_string() });
    assert_eq!(f.category(), Category::PatchingFailed);
    assert_eq!(f.render(), "Performing hotpatch: symbol not found");
}

#[test]
fn text_categories_render_their_headings() {
    assert_eq!(FailureKind::Parse("x".to_string()).render(), "Format failed: x");
    assert_eq!(FailureKind::Cargo("x".to_string()).render(), "Cargo Error: x");
    assert_eq!(FailureKind::ProxySetup("x".to_string()).render(), "Establishing proxy: x");
    assert_eq!(FailureKind::Network("x".to_string()).render(), "Network connectivity error: x");
    assert_eq!(FailureKind::Unique("x".to_string()).render(), "x");
    assert_eq!(FailureKind::CapturedPanic("x".to_string()).render(), "x");
}

#[test]
fn compose_follows_each_category() {
    let cases = [
        (Category::Unique, "d"),
        (Category::IO, "I/O Error: d"),
        (Category::Format, "Format Error: d"),
        (Category::Parse, "Format failed: d"),
        (Category::Runtime, "Runtime Error: d"),
        (Category::Cargo, "Cargo Error: d"),
        (Category::InvalidProxy, "Invalid proxy URL: d"),
        (Category::ProxySetup, "Establishing proxy: d"),
        (Category::BundleFailed, "Bundling project: d"),
        (Category::PatchingFailed, "Performing hotpatch: d"),
        (Category::ObjectReadFailed, "Reading object file: d"),
        (Category::CapturedPanic, "d"),
        (Category::TemplateParse, "Rendering template error: d"),
        (Category::Network, "Network connectivity error: d"),
        (Category::Other, "d"),
    ];
    for (category, expected) in cases {
        assert_eq!(compose(category, "d"), expected);
        assert_eq!(category.is_verbatim(), label(category).is_empty());
    }
}
