use mcp_promax_problem_solving::json::{push_member, same_text, JsonValue};
use mcp_promax_problem_solving::prompts::{framed, root_cause_text, tool_text, MANDATE};
use mcp_promax_problem_solving::text::{chars_of, contains_word};
use mcp_promax_problem_solving::tools::{
    catalogue_tools, dedup, recommend, recommendation_text, select_mental_models, Tool,
};

fn object(members: Vec<(&str, JsonValue)>) -> JsonValue {
    let mut m = Vec::new();
    for (k, v) in members {
        push_member(&mut m, k, v);
    }
    JsonValue::Object(m)
}

#[test]
fn get_finds_the_last_member_with_the_key() {
    let v = object(vec![
        ("a", JsonValue::text("first")),
        ("b", JsonValue::Bool(true)),
        ("a", JsonValue::text("second")),
    ]);
    assert_eq!(v.get("a").unwrap().as_str(), Some("second"));
    assert!(matches!(v.get("b"), Some(JsonValue::Bool(true))));
    assert!(v.get("c").is_none());
}

#[test]
fn get_on_other_values_is_none() {
    assert!(JsonValue::Null.get("a").is_none());
    assert!(JsonValue::text("a").get("a").is_none());
    assert!(JsonValue::Array(vec![JsonValue::text("a")]).get("a").is_none());
}

#[test]
fn as_str_only_on_strings() {
    assert_eq!(JsonValue::text("héllo").as_str(), Some("héllo"));
    assert_eq!(JsonValue::number("1").as_str(), None);
    assert_eq!(JsonValue::Null.as_str(), None);
}

#[test]
fn same_text_compares_characters() {
    assert!(same_text("tools/list", "tools/list"));
    assert!(!same_text("tools/list", "tools/List"));
    assert!(!same_text("", "x"));
    assert!(same_text("", ""));
}

#[test]
fn chars_of_keeps_every_character() {
    assert_eq!(chars_of("aé😀"), vec!['a', 'é', '😀']);
    assert_eq!(chars_of(""), Vec::<char>::new());
}

#[test]
fn contains_word_edges() {
    let s = chars_of("a crash");
    assert!(contains_word(&s, "crash"));
    assert!(contains_word(&s, "a"));
    assert!(contains_word(&s, ""));
    assert!(!contains_word(&s, "crashes"));
    assert!(!contains_word(&s, "Crash"));
    assert!(!contains_word(&chars_of(""), "a"));
    assert!(contains_word(&chars_of(""), ""));
    assert!(contains_word(&chars_of("débug"), "bug"));
}

#[test]
fn dedup_removes_repeats_of_the_previous_tool() {
    let mut v = vec![
        Tool::RunRootCause,
        Tool::RunRootCause,
        Tool::AnalyzePareto,
        Tool::RunRootCause,
        Tool::RunRootCause,
    ];
    dedup(&mut v);
    assert_eq!(v, vec![Tool::RunRootCause, Tool::AnalyzePareto, Tool::RunRootCause]);
    let mut e: Vec<Tool> = Vec::new();
    dedup(&mut e);
    assert!(e.is_empty());
}

#[test]
fn recommend_from_lowercase_text() {
    assert_eq!(recommend("rapid incident"), vec![Tool::AnalyzeOodaLoop]);
    assert_eq!(recommend("conflict"), vec![Tool::ExecuteSixHats]);
    assert_eq!(recommend("optimize"), vec![Tool::AnalyzePareto]);
    assert_eq!(recommend("annoyed"), vec![Tool::ApplyRule5x5]);
    assert_eq!(recommend("CRASH"), vec![Tool::ApplyFirstPrinciples, Tool::ExecuteSixHats]);
    assert_eq!(recommend(""), vec![Tool::ApplyFirstPrinciples, Tool::ExecuteSixHats]);
}

#[test]
fn recommendations_are_never_empty_and_never_repeat() {
    for text in ["", "fail bug error crash", "design architecture", "team bias conflict", "zzz", "email slack heavy rapid"] {
        let r = recommend(text);
        assert!(!r.is_empty());
        for i in 0..r.len() {
            assert!(r[i] != Tool::SelectMentalModels);
            for j in i + 1..r.len() {
                assert!(r[i] != r[j]);
            }
        }
    }
}

#[test]
fn recommendation_text_is_a_debug_list() {
    assert_eq!(recommendation_text(&vec![]), "Recommended tools: []");
    assert_eq!(
        recommendation_text(&vec![Tool::AnalyzePareto, Tool::ApplyRule5x5]),
        "Recommended tools: [\"analyze_pareto\", \"apply_rule_5x5\"]"
    );
    assert_eq!(
        recommendation_text(&vec![Tool::AnalyzePareto, Tool::ApplyRule5x5]),
        format!("Recommended tools: {:?}", vec!["analyze_pareto", "apply_rule_5x5"])
    );
}

#[test]
fn select_mental_models_lowercases_first() {
    assert_eq!(
        select_mental_models("DESIGN"),
        "Recommended tools: [\"evaluate_occams_razor\", \"apply_first_principles\"]"
    );
}

#[test]
fn catalogue_names_are_distinct_and_all_answered() {
    let tools = catalogue_tools();
    assert_eq!(tools.len(), 8);
    for i in 0..tools.len() {
        for j in i + 1..tools.len() {
            assert_ne!(tools[i].name(), tools[j].name());
        }
        let text = tool_text(tools[i].name(), "ctx", "5_whys");
        assert_ne!(text, "Tool not implemented.");
        if tools[i] != Tool::SelectMentalModels {
            assert!(text.starts_with(MANDATE));
            assert!(text.contains("ctx"));
        }
    }
}

#[test]
fn framed_puts_the_context_between_head_and_tail() {
    assert_eq!(framed("H ", "c", " T"), "MANDATE: H c T");
}

#[test]
fn root_cause_defaults_to_five_whys() {
    assert_eq!(root_cause_text("c", "unknown"), root_cause_text("c", "5_whys"));
    assert_ne!(root_cause_text("c", "fishbone"), root_cause_text("c", "5_whys"));
    assert_ne!(root_cause_text("c", "fault_tree"), root_cause_text("c", "fishbone"));
}

