use feverthoth::agents::{ClarificationQuestion, Plan};
use feverthoth::pipeline::extract_json;
use feverthoth::prompts::{Planner, PLANNER};
use feverthoth::text::{contains, decimal, lines, parse_usize, replace, split_str, trim};

#[test]
fn text_helpers_follow_std() {
    assert_eq!(trim("  a b \t\n"), "a b");
    assert_eq!(lines("a\r\nb\n\nc"), vec!["a".to_string(), "b".to_string(), String::new(), "c".to_string()]);
    assert_eq!(lines("a\n"), vec!["a".to_string()]);
    assert!(lines("").is_empty());
    assert_eq!(split_str("a---b---", "---"), vec!["a".to_string(), "b".to_string(), String::new()]);
    assert_eq!(replace("aaa", "aa", "b"), "ba");
    assert_eq!(replace("ab", "", "-"), "-a-b-");
    assert!(contains("hello", "ell"));
    assert!(!contains("hello", "elo"));
    assert_eq!(decimal(0), "0");
    assert_eq!(decimal(1234567), "1234567");
    assert_eq!(parse_usize("42"), Some(42));
    assert_eq!(parse_usize("+7"), Some(7));
    assert_eq!(parse_usize(""), None);
    assert_eq!(parse_usize("4x"), None);
}

#[test]
fn planner_prompt_is_the_planner_role() {
    assert_eq!(Planner::system_prompt(), PLANNER);
    assert!(PLANNER.contains("Planner"));
}

#[test]
fn questions_decode_like_serde() {
    let v = extract_json("{\"id\": \"q1\", \"question\": \"Which?\", \"options\": [{\"label\": \"A\", \"value\": \"a\", \"description\": null}], \"allow_custom\": true}").unwrap();
    let q = ClarificationQuestion::from_json(&v).expect("a question");
    assert_eq!(q.id, "q1");
    assert_eq!(q.question, "Which?");
    assert_eq!(q.options.len(), 1);
    assert_eq!(q.options[0].label, "A");
    assert_eq!(q.options[0].value, "a");
    assert!(q.options[0].description.is_none());
    assert!(q.allow_custom);
    let bad = extract_json("{\"id\": \"q1\"}").unwrap();
    assert!(ClarificationQuestion::from_json(&bad).is_none());
}

#[test]
fn plan_requires_all_fields() {
    let v = extract_json("{\"id\": \"p\", \"title\": \"t\", \"steps\": []}").unwrap();
    assert!(Plan::from_json(&v).is_none());
}

fn member(text: &str) -> feverthoth::json::JsonValue {
    let mut holder = match extract_json(&format!("{{\"x\": {}}}", text)) {
        Some(feverthoth::json::JsonValue::Object(es)) => es,
        _ => panic!("not JSON"),
    };
    holder.remove(0).1
}

fn option_from(text: &str) -> Option<feverthoth::agents::ClarificationOption> {
    feverthoth::agents::ClarificationOption::from_json(&member(text))
}

#[test]
fn decoding_missing_option_field_is_none() {
    let o = option_from("{\"label\": \"A\", \"value\": \"a\"}").expect("decodes");
    assert!(o.description.is_none());
}

#[test]
fn decoding_ignores_unknown_fields() {
    let o = option_from("{\"label\": \"A\", \"value\": \"a\", \"extra\": [1, 2]}").expect("decodes");
    assert_eq!(o.label, "A");
}

#[test]
fn decoding_rejects_wrong_types() {
    assert!(option_from("{\"label\": 1, \"value\": \"a\"}").is_none());
    assert!(option_from("{\"label\": \"A\", \"value\": \"a\", \"description\": 5}").is_none());
    assert!(option_from("{\"value\": \"a\"}").is_none());
}

#[test]
fn decoding_explicit_null() {
    let o = option_from("{\"label\": \"A\", \"value\": \"a\", \"description\": null}").expect("decodes");
    assert!(o.description.is_none());
    assert!(option_from("{\"label\": null, \"value\": \"a\"}").is_none());
}

#[test]
fn decoding_array_form_of_struct() {
    let o = option_from("[\"A\", \"a\", \"why\"]").expect("array form decodes");
    assert_eq!(o.label, "A");
    assert_eq!(o.value, "a");
    assert_eq!(o.description.as_deref(), Some("why"));
    assert!(option_from("[\"A\", \"a\", null]").unwrap().description.is_none());
    assert!(option_from("[\"A\", \"a\"]").is_none());
    assert!(option_from("[\"A\", \"a\", null, 1]").is_none());
    let q = member("[\"q1\", \"Which?\", [[\"A\", \"a\", null]], false, null]");
    let q = ClarificationQuestion::from_json(&q).expect("question in array form");
    assert_eq!(q.options.len(), 1);
    assert!(!q.allow_custom);
}
