use regex::Regex;
use rtk_core::index::{
    collect_index, compute_index, keep_lines, CompiledTeeIndexRule, IndexResult,
};
use rtk_core::index_block::format_index_block;
use rtk_core::index_rule::{KeepMode, TeeIndexRule};
use rtk_core::lines::split_lines;

#[test]
fn test_compiled_tee_index_rule_valid() {
    let rule = TeeIndexRule {
        name: "errors".into(),
        match_pattern: r"error|^FAIL".into(),
        keep: KeepMode::First,
        show_line: true,
    };
    let compiled = CompiledTeeIndexRule::compile(&rule);
    assert!(compiled.is_some());
    let compiled = compiled.unwrap();
    assert!(compiled.pattern.is_match("error: something"));
    assert!(compiled.pattern.is_match("FAIL test_foo"));
    assert!(!compiled.pattern.is_match("ok: passed"));
}

#[test]
fn test_compiled_tee_index_rule_invalid_regex() {
    let rule = TeeIndexRule {
        name: "bad".into(),
        match_pattern: r"[invalid".into(),
        keep: KeepMode::First,
        show_line: false,
    };
    assert!(CompiledTeeIndexRule::compile(&rule).is_none());
}

#[test]
fn test_compute_index_first() {
    let raw = "line 1 ok\nerror: bad thing\nline 3 ok\nerror: another";
    let rule = CompiledTeeIndexRule {
        name: "first_error".into(),
        pattern: Regex::new("error").unwrap(),
        keep: KeepMode::First,
        show_line: true,
    };
    let results = compute_index(raw, &[rule]);
    assert_eq!(results.len(), 1);
    assert_eq!(results[0].matches.len(), 1);
    assert_eq!(results[0].matches[0].0, 2); // 1-indexed
    assert!(results[0].matches[0].1.contains("bad thing"));
}

#[test]
fn test_compute_index_last() {
    let raw = "error: first\nok\nerror: last";
    let rule = CompiledTeeIndexRule {
        name: "last_error".into(),
        pattern: Regex::new("error").unwrap(),
        keep: KeepMode::Last,
        show_line: true,
    };
    let results = compute_index(raw, &[rule]);
    assert_eq!(results.len(), 1);
    assert_eq!(results[0].matches.len(), 1);
    assert_eq!(results[0].matches[0].0, 3);
    assert!(results[0].matches[0].1.contains("last"));
}

#[test]
fn test_compute_index_all() {
    let raw = "error: a\nok\nerror: b\nerror: c";
    let rule = CompiledTeeIndexRule {
        name: "all_errors".into(),
        pattern: Regex::new("error").unwrap(),
        keep: KeepMode::All,
        show_line: false,
    };
    let results = compute_index(raw, &[rule]);
    assert_eq!(results.len(), 1);
    assert_eq!(results[0].matches.len(), 3);
    assert_eq!(results[0].matches[0].0, 1);
    assert_eq!(results[0].matches[1].0, 3);
    assert_eq!(results[0].matches[2].0, 4);
}

#[test]
fn test_compute_index_no_matches() {
    let raw = "all good\neverything fine";
    let rule = CompiledTeeIndexRule {
        name: "errors".into(),
        pattern: Regex::new("error").unwrap(),
        keep: KeepMode::First,
        show_line: true,
    };
    let results = compute_index(raw, &[rule]);
    assert!(results.is_empty());
}

#[test]
fn test_compute_index_multiple_rules() {
    let raw = "error: broken\nwarning: deprecated\ntest result: ok";
    let rules = vec![
        CompiledTeeIndexRule {
            name: "errors".into(),
            pattern: Regex::new("error").unwrap(),
            keep: KeepMode::First,
            show_line: true,
        },
        CompiledTeeIndexRule {
            name: "summary".into(),
            pattern: Regex::new("^test result").unwrap(),
            keep: KeepMode::Last,
            show_line: true,
        },
    ];
    let results = compute_index(raw, &rules);
    assert_eq!(results.len(), 2);
    assert_eq!(results[0].name, "errors");
    assert_eq!(results[1].name, "summary");
}

#[test]
fn test_format_index_block_with_show_line() {
    let index = vec![IndexResult {
        name: "first_error".into(),
        matches: vec![(47, "FAIL: TestFoo (timeout)".into())],
        show_line: true,
    }];
    let block = format_index_block(&index, None);
    assert_eq!(block, "  first_error → L47: \"FAIL: TestFoo (timeout)\"");
}

#[test]
fn test_format_index_block_without_show_line() {
    let index = vec![IndexResult {
        name: "summary".into(),
        matches: vec![(112, "".into()), (118, "".into()), (203, "".into())],
        show_line: false,
    }];
    let block = format_index_block(&index, None);
    assert_eq!(block, "  summary → L112, L118, L203");
}

#[test]
fn test_format_index_block_with_truncation() {
    let block = format_index_block(&[], Some(89));
    assert!(block.contains("truncated → output truncated after L89"));
    assert!(block.contains("full results from L89 in tee file"));
}

#[test]
fn test_format_index_block_combined() {
    let index = vec![IndexResult {
        name: "first_error".into(),
        matches: vec![(47, "FAIL: TestFoo".into())],
        show_line: true,
    }];
    let block = format_index_block(&index, Some(89));
    assert!(block.contains("first_error → L47"));
    assert!(block.contains("truncated → output truncated after L89"));
}

#[test]
fn test_format_index_block_empty() {
    let block = format_index_block(&[], None);
    assert!(block.is_empty());
}

#[test]
fn test_format_index_block_long_line_truncated() {
    let long_text = format!("error: {}", "x".repeat(100));
    let index = vec![IndexResult {
        name: "err".into(),
        matches: vec![(1, long_text)],
        show_line: true,
    }];
    let block = format_index_block(&index, None);
    assert!(block.contains('…'));
}

fn strings(lines: &[&str]) -> Vec<String> {
    lines.iter().map(|line| line.to_string()).collect()
}

#[test]
fn compiled_rule_keeps_the_rule() {
    let rule = TeeIndexRule {
        name: "sum".into(),
        match_pattern: "^ok".into(),
        keep: KeepMode::All,
        show_line: true,
    };
    let compiled = CompiledTeeIndexRule::compile(&rule).unwrap();
    assert_eq!(compiled.name, "sum");
    assert_eq!(compiled.pattern.as_str(), "^ok");
    assert_eq!(compiled.keep, KeepMode::All);
    assert!(compiled.show_line);
}

#[test]
fn refused_pattern_gives_the_warning() {
    let rule = TeeIndexRule {
        name: "bad".into(),
        match_pattern: "[invalid".into(),
        keep: KeepMode::First,
        show_line: false,
    };
    let why = Regex::new("[invalid").unwrap_err().to_string();
    let warning = CompiledTeeIndexRule::try_compile(&rule).unwrap_err();
    assert_eq!(
        warning,
        format!("[rtk] warning: tee index rule 'bad': invalid regex: {}", why)
    );
    let warning = CompiledTeeIndexRule::with_pattern(&rule, Err("why".to_string())).unwrap_err();
    assert_eq!(
        warning,
        "[rtk] warning: tee index rule 'bad': invalid regex: why"
    );
}

#[test]
fn patterns_mind_the_case() {
    let rule = TeeIndexRule {
        name: "fail".into(),
        match_pattern: "^FAIL".into(),
        keep: KeepMode::All,
        show_line: false,
    };
    let rule = CompiledTeeIndexRule::compile(&rule).unwrap();
    let results = compute_index("fail\nFAIL\n FAIL", &[rule]);
    assert_eq!(results[0].matches, vec![(2, "FAIL".to_string())]);
}

#[test]
fn lines_are_split_at_their_endings() {
    assert_eq!(split_lines("a\nb\r\n\nc"), vec!["a", "b", "", "c"]);
    assert_eq!(split_lines("a\n"), vec!["a"]);
    assert_eq!(split_lines("a\n\n"), vec!["a", ""]);
    assert_eq!(split_lines("a\rb\r\r\n"), vec!["a\rb\r"]);
    assert_eq!(split_lines("a\r"), vec!["a\r"]);
    assert_eq!(split_lines("\r\n"), vec![""]);
    assert!(split_lines("").is_empty());
}

#[test]
fn lines_are_those_of_the_standard_library() {
    for text in ["", "\n", "x", "x\ny", "x\r\ny\r\n", "\r", "\n\r\n\r", "é\n→\r\n\n"] {
        let lines: Vec<String> = text.lines().map(str::to_string).collect();
        assert_eq!(split_lines(text), lines);
    }
}

#[test]
fn kept_lines_by_mode() {
    let lines = strings(&["a", "b", "c", "d"]);
    let hits = vec![false, true, false, true];
    assert_eq!(
        keep_lines(&lines, &hits, KeepMode::First),
        vec![(2, "b".to_string())]
    );
    assert_eq!(
        keep_lines(&lines, &hits, KeepMode::Last),
        vec![(4, "d".to_string())]
    );
    assert_eq!(
        keep_lines(&lines, &hits, KeepMode::All),
        vec![(2, "b".to_string()), (4, "d".to_string())]
    );
    assert!(keep_lines(&lines, &vec![false; 4], KeepMode::Last).is_empty());
    // A line without a flag is no hit.
    assert!(keep_lines(&lines, &vec![false], KeepMode::All).is_empty());
}

#[test]
fn more_rules_augment_the_index() {
    let rule = |name: &str, pattern: &str| CompiledTeeIndexRule {
        name: name.to_string(),
        pattern: Regex::new(pattern).unwrap(),
        keep: KeepMode::All,
        show_line: false,
    };
    let raw = "a\nb\nab";
    let results = compute_index(raw, &[rule("a", "a"), rule("none", "z"), rule("b", "b")]);
    let names: Vec<&str> = results.iter().map(|result| result.name.as_str()).collect();
    assert_eq!(names, vec!["a", "b"]);
    let numbers: Vec<usize> = results[1].matches.iter().map(|found| found.0).collect();
    assert_eq!(numbers, vec![2, 3]);
}

#[test]
fn block_of_everything() {
    let index = vec![
        IndexResult {
            name: "errors".into(),
            matches: vec![(1, "x".repeat(81)), (1234567890, "y".into())],
            show_line: true,
        },
        IndexResult {
            name: "sum".into(),
            matches: vec![(10, "z".into())],
            show_line: false,
        },
    ];
    assert_eq!(
        format_index_block(&index, Some(0)),
        format!(
            "  errors → L1: \"{}…\"\n  errors → L1234567890: \"y\"\n  sum → L10\n  truncated → \
             output truncated after L0; full results from L0 in tee file",
            "x".repeat(80)
        )
    );
}

#[test]
fn block_line_of_a_list_without_matches() {
    let index = vec![IndexResult {
        name: "none".into(),
        matches: Vec::new(),
        show_line: false,
    }];
    assert_eq!(format_index_block(&index, None), "  none → ");
}

#[test]
fn rules_without_matches_are_left_out_of_an_index() {
    let rule = |name: &str, show_line: bool| CompiledTeeIndexRule {
        name: name.into(),
        pattern: Regex::new("x").unwrap(),
        keep: KeepMode::All,
        show_line,
    };
    let rules = [rule("a", true), rule("b", true), rule("c", false)];
    let found = vec![
        vec![(1, "one".to_string()), (4, "four".to_string())],
        vec![],
        vec![(2, "two".to_string())],
        vec![(3, "of no rule".to_string())],
    ];
    let index = collect_index(&rules, found);
    assert_eq!(index.len(), 2);
    assert_eq!(index[0].name, "a");
    assert!(index[0].show_line);
    assert_eq!(
        index[0].matches,
        vec![(1, "one".to_string()), (4, "four".to_string())]
    );
    assert_eq!(index[1].name, "c");
    assert!(!index[1].show_line);
    assert_eq!(index[1].matches, vec![(2, "two".to_string())]);
}

#[test]
fn block_ends_with_the_pointer_to_the_cut() {
    let pointer =
        "  truncated → output truncated after L7; full results from L7 in tee file";
    assert_eq!(format_index_block(&[], Some(7)), pointer);
    let index = vec![IndexResult {
        name: "err".into(),
        matches: vec![(3, "bad".to_string())],
        show_line: true,
    }];
    assert_eq!(
        format_index_block(&index, Some(7)),
        format!("  err → L3: \"bad\"\n{}", pointer)
    );
}

#[test]
fn shown_line_with_an_ellipsis_was_cut() {
    let line = "\u{6F22}".repeat(27); // 81 bytes
    let index = vec![IndexResult {
        name: "err".into(),
        matches: vec![(1, line)],
        show_line: true,
    }];
    assert_eq!(
        format_index_block(&index, None),
        format!("  err → L1: \"{}…\"", "\u{6F22}".repeat(26))
    );
}
