use sift::discovery::{discover_scripts, resolve_references, source_attributes};

#[test]
fn scripts_resolve_against_the_page() {
    let doc = "<html><head><script src=\"main.js\"></script>\
               <script src=\"//cdn.example.com/lib.js\"></script>\
               <script>console.log(1)</script></head><body></body></html>";
    assert_eq!(
        discover_scripts("https://example.com/app/", doc),
        vec!["https://example.com/app/main.js", "https://cdn.example.com/lib.js"]
    );
}

#[test]
fn inline_script_gives_no_reference() {
    let doc = "<html><body><script>console.log(1)</script></body></html>";
    assert!(discover_scripts("https://example.com/", doc).is_empty());
}

#[test]
fn duplicate_references_are_kept() {
    let doc = "<script src=\"/a.js\"></script><script src=\"/a.js\"></script>";
    assert_eq!(
        discover_scripts("https://example.com/x/y", doc),
        vec!["https://example.com/a.js", "https://example.com/a.js"]
    );
}

#[test]
fn only_present_sources_are_kept() {
    let elements = vec![None, Some("a.js".to_string()), None, Some("b.js".to_string())];
    assert_eq!(source_attributes(&elements), vec!["a.js", "b.js"]);
}

#[test]
fn unresolvable_references_are_dropped() {
    let sources = vec!["http://[bad".to_string(), "ok.js".to_string()];
    assert_eq!(
        resolve_references("https://example.com/", &sources),
        vec!["https://example.com/ok.js"]
    );
    assert!(resolve_references("not a url", &sources).is_empty());
}
