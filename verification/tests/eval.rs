use rust_knowledge::eval::{count_passed, eval_query, failed_positions, run_eval, EvalCase};
use rust_knowledge::query::{RankedHit, SearchQuery};

fn case(text: &str, expect: &str, max_rank: usize) -> EvalCase {
    EvalCase {
        text: text.to_string(),
        category: "known_symbol".to_string(),
        expect_any: vec![expect.to_string()],
        expect_package: None,
        max_rank,
    }
}

fn hit(symbol: &str) -> RankedHit {
    RankedHit {
        package_name: "demo-core".to_string(),
        package_version: "0.1.0".to_string(),
        title: symbol.to_string(),
        symbol_path: Some(symbol.to_string()),
        section_path: Vec::new(),
    }
}

#[test]
fn eval_query_has_no_filters_and_a_clamped_limit() {
    let q = eval_query(&case("flush a writer", "demo_core::writer::Writer::flush", 1));
    assert_eq!(q.text, "flush a writer");
    assert!(q.packages.is_empty() && q.source_kinds.is_empty() && q.item_kinds.is_empty());
    assert_eq!(q.limit, 5);
    assert_eq!(eval_query(&case("x", "y", 7)).limit, 7);
    assert_eq!(eval_query(&case("x", "y", 40)).limit, 10);
}

#[test]
fn run_eval_hands_each_case_its_own_query() {
    let search = |q: &SearchQuery| -> Vec<RankedHit> {
        assert!(q.packages.is_empty() && q.source_kinds.is_empty() && q.item_kinds.is_empty());
        if q.text == "flush" {
            vec![hit("demo_core::other"), hit("demo_core::writer::Writer::flush")]
        } else {
            Vec::new()
        }
    };
    let cases = vec![
        case("flush", "demo_core::writer::Writer::flush", 1),
        case("flush", "demo_core::writer::Writer", 3),
        case("missing", "demo_core::nothing", 3),
    ];
    let outcomes = run_eval(&search, cases);
    assert_eq!(outcomes.len(), 3);
    assert_eq!(outcomes[0].rank, Some(2));
    assert!(!outcomes[0].passed());
    assert_eq!(outcomes[1].rank, Some(2));
    assert!(outcomes[1].passed());
    assert_eq!(outcomes[2].rank, None);
    assert_eq!(outcomes[0].limit, 5);
    assert_eq!(count_passed(&outcomes), 1);
    assert_eq!(failed_positions(&outcomes), vec![0, 2]);
}
