use rust_scraper::CompiledMatcher;
use rust_scraper::ScrapeError;
use rust_scraper::extract;

#[test]
fn compile_accepts_simple_class_selector() {
    assert!(CompiledMatcher::compile(".x").is_ok());
}

#[test]
fn compile_accepts_compound_selector() {
    assert!(CompiledMatcher::compile("div.article > p span").is_ok());
}

#[test]
fn compile_rejects_malformed_selector() {
    let r = CompiledMatcher::compile(":::not a selector:::");
    assert!(matches!(r, Err(ScrapeError::MalformedQuery)));
}

#[test]
fn compile_rejects_empty_selector() {
    let r = CompiledMatcher::compile("");
    assert!(matches!(r, Err(ScrapeError::MalformedQuery)));
}

#[test]
fn extract_returns_fragments_in_document_order() {
    let matcher = CompiledMatcher::compile(".x").unwrap();
    let body = b"<div class=\"x\">A</div><div class=\"x\">B</div>";
    let fragments = extract(body, &matcher);
    assert_eq!(fragments, vec!["A".to_string(), "B".to_string()]);
}

#[test]
fn extract_concatenates_descendant_text() {
    let matcher = CompiledMatcher::compile(".x").unwrap();
    let body = b"<div class=\"x\">He<span>llo</span> world</div>";
    let fragments = extract(body, &matcher);
    assert_eq!(fragments, vec!["Hello world".to_string()]);
}

#[test]
fn extract_without_matches_yields_empty_list() {
    let matcher = CompiledMatcher::compile(".missing").unwrap();
    let body = b"<p>nothing of the kind</p>";
    let fragments = extract(body, &matcher);
    assert!(fragments.is_empty());
}

#[test]
fn extract_twice_yields_identical_fragments() {
    let matcher = CompiledMatcher::compile("li").unwrap();
    let body = b"<ul><li>one</li><li>two</li><li>three</li></ul>";
    let first = extract(body, &matcher);
    let second = extract(body, &matcher);
    assert_eq!(first, second);
    assert_eq!(first, vec!["one".to_string(), "two".to_string(), "three".to_string()]);
}

#[test]
fn extract_tolerates_malformed_markup() {
    let matcher = CompiledMatcher::compile(".x").unwrap();
    let body = b"<div class=\"x\">unclosed <b>nested <div class=\"x\">inner";
    let fragments = extract(body, &matcher);
    assert_eq!(fragments.len(), 2);
    let again = extract(body, &matcher);
    assert_eq!(fragments, again);
}

#[test]
fn extract_tolerates_non_utf8_bytes() {
    let matcher = CompiledMatcher::compile("p").unwrap();
    let body: Vec<u8> = vec![0xff, 0xfe, b'<', b'p', b'>', b'a', b'<', b'/', b'p', b'>', 0x80];
    let fragments = extract(&body, &matcher);
    assert_eq!(fragments.len(), 1);
}

#[test]
fn extract_of_empty_body_is_empty() {
    let matcher = CompiledMatcher::compile("div").unwrap();
    let fragments = extract(b"", &matcher);
    assert!(fragments.is_empty());
}
