use random_test_cli::link_state::LinkStateError;
use random_test_cli::sample::{generate_sample_text, RtError, EDITOR_URL};

const MINIMAL_JSON: &str = r#"{
  "schema_version": 1,
  "document": {
    "structure": {
      "root": "0",
      "next_id": "2",
      "arena": [
        {"id":"0","kind":{"kind":"Sequence","children":["1"]}},
        {"id":"1","kind":{"kind":"Scalar","name":"N"}}
      ]
    },
    "constraints": {
      "next_id": "2",
      "arena": [
        {"id":"0","constraint":{"kind":"TypeDecl","target":{"kind":"VariableRef","node_id":"1"},"expected":"Int"}},
        {"id":"1","constraint":{"kind":"Range","target":{"kind":"VariableRef","node_id":"1"},"lower":{"kind":"Lit","value":1},"upper":{"kind":"Lit","value":3}}}
      ],
      "by_node": [{"node_id":"1","constraints":["0","1"]}],
      "global": []
    }
  }
}"#;

fn share_state() -> String {
    cp_ast_json::encode_share_state_json(MINIMAL_JSON).unwrap()
}

#[test]
fn same_seed_gives_same_sample() {
    let state = share_state();
    let (s1, first) = generate_sample_text(&state, Some(1)).unwrap();
    let (s2, second) = generate_sample_text(&state, Some(1)).unwrap();
    assert_eq!(s1, 1);
    assert_eq!(s2, 1);
    assert_eq!(first, second);
    assert!(!first.is_empty());
    assert!(first.ends_with('\n'));
    let n: i64 = first.trim().parse().unwrap();
    assert!((1..=3).contains(&n));
}

#[test]
fn full_url_gives_the_same_sample() {
    let state = share_state();
    let url = format!("{}?state={}", EDITOR_URL, state);
    assert_eq!(
        generate_sample_text(&url, Some(7)).unwrap(),
        generate_sample_text(&state, Some(7)).unwrap()
    );
}

#[test]
fn random_seed_is_reported() {
    let state = share_state();
    let (seed, text) = generate_sample_text(&state, None).unwrap();
    assert_eq!(generate_sample_text(&state, Some(seed)).unwrap().1, text);
}

#[test]
fn reports_each_failure() {
    assert!(matches!(
        generate_sample_text("  ", Some(1)),
        Err(RtError::Link(LinkStateError::MissingState))
    ));
    assert!(matches!(generate_sample_text("not-a-state", Some(1)), Err(RtError::Ast(_))));
}

const FIVE_SCALARS_JSON: &str = r#"{"schema_version":1,"document":{"structure":{"root":"0","next_id":"6","arena":[
{"id":"0","kind":{"kind":"Sequence","children":["1","2","3","4","5"]}},
{"id":"1","kind":{"kind":"Scalar","name":"A"}},
{"id":"2","kind":{"kind":"Scalar","name":"B"}},
{"id":"3","kind":{"kind":"Scalar","name":"C"}},
{"id":"4","kind":{"kind":"Scalar","name":"D"}},
{"id":"5","kind":{"kind":"Scalar","name":"E"}}]},
"constraints":{"next_id":"0","arena":[],"by_node":[],"global":[]}}}"#;

#[test]
fn same_seed_draws_the_same_values() {
    // The generator walks hash maps when ordering independent nodes, so the
    // values may land on different variables from run to run; the draws agree.
    let state = cp_ast_json::encode_share_state_json(FIVE_SCALARS_JSON).unwrap();
    let sorted = |text: String| {
        let mut lines: Vec<String> = text.lines().map(str::to_owned).collect();
        lines.sort();
        lines
    };
    let first = sorted(generate_sample_text(&state, Some(3)).unwrap().1);
    assert_eq!(first.len(), 5);
    for _ in 0..10 {
        assert_eq!(sorted(generate_sample_text(&state, Some(3)).unwrap().1), first);
    }
}

#[test]
fn reports_generation_errors() {
    let json = MINIMAL_JSON.replace(r#""value":3"#, r#""value":0"#);
    let state = cp_ast_json::encode_share_state_json(&json).unwrap();
    assert!(matches!(generate_sample_text(&state, Some(1)), Err(RtError::Sample(_))));
}

/// A document with one node `1` (named `S`, of the given kind) constrained by
/// `TypeDecl` with `expected` and by `extra`.
fn one_node_state(node_kind: &str, expected: &str, extra: &str) -> String {
    let json = format!(
        r#"{{"schema_version":1,"document":{{"structure":{{"root":"0","next_id":"2","arena":[
{{"id":"0","kind":{{"kind":"Sequence","children":["1"]}}}},
{{"id":"1","kind":{node_kind}}}]}},
"constraints":{{"next_id":"2","arena":[
{{"id":"0","constraint":{{"kind":"TypeDecl","target":{{"kind":"VariableRef","node_id":"1"}},"expected":"{expected}"}}}},
{{"id":"1","constraint":{extra}}}],
"by_node":[{{"node_id":"1","constraints":["0","1"]}}],"global":[]}}}}}}"#
    );
    cp_ast_json::encode_share_state_json(&json).unwrap()
}

const SCALAR: &str = r#"{"kind":"Scalar","name":"S"}"#;
const TARGET: &str = r#"{"kind":"VariableRef","node_id":"1"}"#;

fn char_range(from: char, to: char) -> String {
    format!(r#"{{"kind":"CharSet","target":{TARGET},"charset":{{"kind":"Range","from":"{from}","to":"{to}"}}}}"#)
}

fn string_length(min: &str, max: &str) -> String {
    format!(r#"{{"kind":"StringLength","target":{TARGET},"min":{min},"max":{max}}}"#)
}

fn lit(v: i64) -> String {
    format!(r#"{{"kind":"Lit","value":{v}}}"#)
}

#[test]
fn refuses_a_backwards_character_range() {
    let state = one_node_state(SCALAR, "Char", &char_range('z', 'a'));
    assert!(matches!(generate_sample_text(&state, Some(1)), Err(RtError::UnsupportedDocument)));
}

#[test]
fn draws_from_a_forward_character_range() {
    let state = one_node_state(SCALAR, "Char", &char_range('a', 'c'));
    let (_, text) = generate_sample_text(&state, Some(1)).unwrap();
    assert!(["a\n", "b\n", "c\n"].contains(&text.as_str()));
    let state = one_node_state(SCALAR, "Char", &char_range('q', 'q'));
    assert_eq!(generate_sample_text(&state, Some(5)).unwrap().1, "q\n");
}

#[test]
fn refuses_a_string_length_bounded_by_zero() {
    let state = one_node_state(SCALAR, "Str", &string_length(&lit(0), &lit(0)));
    assert!(matches!(generate_sample_text(&state, Some(1)), Err(RtError::UnsupportedDocument)));
    let state = one_node_state(SCALAR, "Str", &string_length(&lit(-3), &lit(0)));
    assert!(matches!(generate_sample_text(&state, Some(1)), Err(RtError::UnsupportedDocument)));
}

#[test]
fn refuses_a_string_length_given_by_a_formula() {
    let var = format!(r#"{{"kind":"Var","reference":{TARGET}}}"#);
    let state = one_node_state(SCALAR, "Str", &string_length(&lit(1), &var));
    assert!(matches!(generate_sample_text(&state, Some(1)), Err(RtError::UnsupportedDocument)));
}

#[test]
fn draws_a_string_of_literal_length() {
    let state = one_node_state(SCALAR, "Str", &string_length(&lit(4), &lit(4)));
    let (_, text) = generate_sample_text(&state, Some(2)).unwrap();
    assert_eq!(text.trim_end().len(), 4);
    assert!(text.trim_end().chars().all(|c| c.is_ascii_lowercase()));
}

#[test]
fn refuses_a_simple_graph_on_no_vertices() {
    let array = format!(r#"{{"kind":"Array","name":"S","length":{}}}"#, lit(3));
    let doc = |upper: i64| {
        let json = format!(
            r#"{{"schema_version":1,"document":{{"structure":{{"root":"0","next_id":"2","arena":[
{{"id":"0","kind":{{"kind":"Sequence","children":["1"]}}}},
{{"id":"1","kind":{array}}}]}},
"constraints":{{"next_id":"2","arena":[
{{"id":"0","constraint":{{"kind":"Property","target":{TARGET},"tag":{{"kind":"Simple"}}}}}},
{{"id":"1","constraint":{{"kind":"Range","target":{TARGET},"lower":{},"upper":{}}}}}],
"by_node":[{{"node_id":"1","constraints":["0","1"]}}],"global":[]}}}}}}"#,
            lit(0),
            lit(upper)
        );
        cp_ast_json::encode_share_state_json(&json).unwrap()
    };
    assert!(matches!(generate_sample_text(&doc(0), Some(1)), Err(RtError::UnsupportedDocument)));
    let (_, text) = generate_sample_text(&doc(4), Some(1)).unwrap();
    for v in text.split_whitespace() {
        let v: i64 = v.parse().unwrap();
        assert!((1..=4).contains(&v));
    }
}

#[test]
fn refuses_a_structure_that_nests_a_node_under_itself() {
    let json = r#"{"schema_version":1,"document":{"structure":{"root":"0","next_id":"3","arena":[
{"id":"0","kind":{"kind":"Sequence","children":["1"]}},
{"id":"1","kind":{"kind":"Repeat","count":{"kind":"Lit","value":1},"body":["2"]}},
{"id":"2","kind":{"kind":"Tuple","elements":["2"]}}]},
"constraints":{"next_id":"0","arena":[],"by_node":[],"global":[]}}}"#;
    let state = cp_ast_json::encode_share_state_json(json).unwrap();
    assert!(matches!(generate_sample_text(&state, Some(1)), Err(RtError::UnsupportedDocument)));
}
