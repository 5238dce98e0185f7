use bertrand::filter::{extract_state, make_state_event, state_tag_name, unquote, RecordField};
use bertrand::layer::BertrandLayer;
use bertrand::page::{build_page, replace_all};

fn field(name: &str, value: &str) -> RecordField {
    RecordField { name: name.to_owned(), value: value.to_owned() }
}

fn extract_from_event(value: &str) -> Option<String> {
    let ev = make_state_event(value);
    extract_state(ev.target.as_str(), &ev.fields)
}

#[test]
fn should_work() {
    let layer = BertrandLayer::new("localhost:8080");
    assert_eq!(layer.url(), "http://localhost:8080/api/send");
    assert_eq!(extract_from_event("stateB"), Some("stateB".to_owned()));
    assert_eq!(extract_from_event("stateC"), Some("stateC".to_owned()));
}

#[test]
fn roundtrip_exact_for_plain_string() {
    assert_eq!(extract_from_event("idle"), Some("idle".to_owned()));
}

#[test]
fn roundtrip_empty_string() {
    assert_eq!(extract_from_event(""), Some("".to_owned()));
}

#[test]
fn roundtrip_drops_surrounding_debug_quotes() {
    let fields = vec![field("state", "\"processing\"")];
    let got = extract_state("bertrand_state", &fields);
    assert_eq!(got, Some("processing".to_owned()));
}

#[test]
fn embedded_quote_characters_come_back_verbatim() {
    // as the debug rendering delivers the value
    let fields = vec![field("state", "\"a\\\"b\"")];
    assert_eq!(extract_state("bertrand_state", &fields), Some("a\"b".to_owned()));
    // and as a bare, unwrapped value
    let fields = vec![field("state", "a\"b")];
    assert_eq!(extract_state("bertrand_state", &fields), Some("a\"b".to_owned()));
}

#[test]
fn tagged_record_without_state_field_yields_nothing() {
    let empty: Vec<RecordField> = Vec::new();
    assert_eq!(extract_state("bertrand_state", &empty), None);
    let fields = vec![field("status", "idle"), field("level", "info")];
    assert_eq!(extract_state("bertrand_state", &fields), None);
}

#[test]
fn other_tag_yields_nothing_even_with_state_field() {
    let fields = vec![field("state", "idle")];
    assert_eq!(extract_state("my_app::worker", &fields), None);
    assert_eq!(extract_state("", &fields), None);
}

#[test]
fn last_state_field_wins() {
    let fields = vec![field("state", "first"), field("state", "second")];
    assert_eq!(
        extract_state("bertrand_state", &fields),
        Some("second".to_owned())
    );
}

#[test]
fn extra_fields_are_ignored() {
    let fields = vec![field("elapsed", "12ms"), field("state", "done"), field("job", "42")];
    assert_eq!(
        extract_state("bertrand_state", &fields),
        Some("done".to_owned())
    );
}

#[test]
fn unquote_undoes_debug_rendering() {
    for s in ["", "plain", "a\"b", "back\\slash", "\"wrapped\"", "mix\\\"ed", "unicode\u{e9}\""] {
        assert_eq!(unquote(&format!("{:?}", s)), s);
    }
}

#[test]
fn reserved_tag_is_fixed() {
    assert_eq!(state_tag_name(), "bertrand_state");
}

#[test]
fn layer_url_is_the_ingestion_endpoint() {
    let layer = BertrandLayer::new("127.0.0.1:9000");
    assert_eq!(layer.url(), "http://127.0.0.1:9000/api/send");
}

#[test]
fn replace_all_matches_std() {
    assert_eq!(replace_all("aaa", "aa", "b"), "aaa".replace("aa", "b"));
    assert_eq!(replace_all("no match here", "xyz", "q"), "no match here");
    assert_eq!(
        replace_all("</body></body>", "</body>", "X</body>"),
        "</body></body>".replace("</body>", "X</body>")
    );
}

#[test]
fn empty_pattern_replaces_nothing() {
    assert_eq!(replace_all("abc", "", "q"), "abc");
}

#[test]
fn page_gets_connector_with_configured_duration() {
    let html = "<html><body>demo</body></html>";
    let connector = "const STATE_DURATION = 1000;\nconnect();";
    let page = build_page(html, connector, "2500");
    let expected = "<html><body>demo<script>\nconst STATE_DURATION = 2500;\nconnect();\n</script>\n</body></html>";
    assert_eq!(page, expected);
}

#[test]
fn page_without_body_tag_is_unchanged() {
    let html = "plain text";
    let page = build_page(html, "const STATE_DURATION = 1000", "500");
    assert_eq!(page, "plain text");
}
