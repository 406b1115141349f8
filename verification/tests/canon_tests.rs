use patchlite::{highlight, normalize, pretty_json_str, render_invalid, scan, Category, ParseError, Theme};

#[test]
fn normalize_pretty_prints_minified_object() {
    let out = normalize("{\"a\":1}").unwrap();
    assert_eq!(out, "{\n  \"a\": 1\n}");
}

#[test]
fn normalize_pretty_prints_nested_structure() {
    let out = normalize("[1,{\"b\":[true,null]}]").unwrap();
    assert_eq!(out, "[\n  1,\n  {\n    \"b\": [\n      true,\n      null\n    ]\n  }\n]");
}

#[test]
fn normalize_is_idempotent() {
    for src in ["{\"b\":1,\"a\":[2,3]}", "  [1, 2,\t3]", "\"text\"", "null", "-1.5e3"] {
        let once = normalize(src).unwrap();
        let twice = normalize(&once).unwrap();
        assert_eq!(once, twice, "not a fixed point for {src:?}");
    }
}

#[test]
fn normalize_rejects_invalid_json() {
    let err = normalize("{bad json").unwrap_err();
    assert!(!err.message.is_empty());
    assert_eq!(err.description(), err.message);
}

#[test]
fn normalize_rejects_empty_input() {
    assert!(normalize("").is_err());
}

#[test]
fn pretty_json_str_canonicalizes_valid_input() {
    assert_eq!(pretty_json_str("{\"a\":1}"), "{\n  \"a\": 1\n}");
}

#[test]
fn pretty_json_str_passes_invalid_input_through() {
    let src = "{bad json";
    assert_eq!(pretty_json_str(src), src);
}

#[test]
fn render_invalid_emits_diagnostic_then_original() {
    let err = ParseError { message: String::from("broken at byte 3") };
    let runs = render_invalid("{oops", &err);
    assert_eq!(runs.len(), 2);
    assert_eq!(runs[0].category, Category::Default);
    assert_eq!(runs[0].text, "invalid JSON: broken at byte 3\n\n");
    assert_eq!(runs[1].category, Category::Default);
    assert_eq!(runs[1].text, "{oops");
}

#[test]
fn highlight_falls_back_on_invalid_input() {
    let src = "{bad json";
    let err = normalize(src).unwrap_err();
    let runs = highlight(src, &Theme::default());
    assert_eq!(runs.len(), 2);
    assert_eq!(runs[0].category, Category::Default);
    assert_eq!(runs[0].text, format!("invalid JSON: {}\n\n", err.description()));
    assert_eq!(runs[1].category, Category::Default);
    assert_eq!(runs[1].text, src);
}

#[test]
fn highlight_scans_the_canonical_form() {
    let src = "{\"a\":1}";
    let canonical = normalize(src).unwrap();
    let direct = scan(&canonical, &Theme::default());
    let composed = highlight(src, &Theme::default());
    assert_eq!(composed.len(), direct.len());
    for (a, b) in composed.iter().zip(direct.iter()) {
        assert_eq!(a.text, b.text);
        assert_eq!(a.category, b.category);
    }
    let joined: String = composed.iter().map(|r| r.text.as_str()).collect();
    assert_eq!(joined, canonical);
}

#[test]
fn highlight_classifies_canonical_runs() {
    let runs = highlight("{\"a\":1}", &Theme::default());
    assert!(runs.iter().any(|r| r.text == "\"a\"" && r.category == Category::Key));
    assert!(runs.iter().any(|r| r.text == "1" && r.category == Category::Number));
}
