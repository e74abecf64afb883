use sway_lsp_core::ir_checks::{
    check_ir, check_sections, directives_error, find, ir_verdict, is_selected, is_test_file,
    selected_by, IrCheckError,
};

#[test]
fn find_gives_the_first_occurrence() {
    assert_eq!(find(b"abcabc", b"bc"), Some(1));
    assert_eq!(find(b"abcabc", b"abc"), Some(0));
    assert_eq!(find(b"abcabc", b"cab"), Some(2));
    assert_eq!(find(b"aaab", b"aab"), Some(1));
    assert_eq!(find(b"abcabc", b"abcabc"), Some(0));
    assert_eq!(find(b"xxabc", b"abc"), Some(2));
}

#[test]
fn find_gives_none_where_the_needle_is_absent() {
    assert_eq!(find(b"abcabc", b"cc"), None);
    assert_eq!(find(b"abc", b"abcd"), None);
    assert_eq!(find(b"", b"a"), None);
    assert_eq!(find(b"ab", b"ba"), None);
}

#[test]
fn find_of_the_empty_needle_is_the_beginning() {
    assert_eq!(find(b"abc", b""), Some(0));
    assert_eq!(find(b"", b""), Some(0));
}

#[test]
fn find_agrees_with_the_standard_search() {
    let haystacks = ["", "a", "::check-ir::", "x::check-ir:::check-asm::", "abababab", "::::c"];
    let needles = ["", "a", "ab", "ba", "::", "::check-ir::", "::check-asm::", "bab"];
    for haystack in haystacks {
        for needle in needles {
            assert_eq!(
                find(haystack.as_bytes(), needle.as_bytes()),
                haystack.find(needle),
                "{:?} in {:?}",
                needle,
                haystack
            );
        }
    }
}

#[test]
fn sections_of_a_file_without_tags() {
    let input = b"script;\n// check: fn main\n";
    let sections = check_sections(input);
    assert_eq!(sections.ir_begin, 0);
    assert_eq!(sections.ir_end, input.len());
    assert_eq!(sections.assembly, None);
}

#[test]
fn sections_of_an_empty_file() {
    let sections = check_sections(b"");
    assert_eq!(sections.ir_begin, 0);
    assert_eq!(sections.ir_end, 0);
    assert_eq!(sections.assembly, None);
}

#[test]
fn sections_of_a_file_with_the_ir_tag_only() {
    //            0123456789
    let input = b"script;\n\n// ::check-ir::\n// check: fn main\n";
    let sections = check_sections(input);
    assert_eq!(sections.ir_begin, 12);
    assert_eq!(sections.ir_end, input.len());
    assert_eq!(sections.assembly, None);
}

#[test]
fn sections_of_a_file_with_the_ir_tag_then_the_assembly_tag() {
    let input = b"code\n::check-ir::\nir checks\n::check-asm::\nasm checks\n";
    let sections = check_sections(input);
    assert_eq!(sections.ir_begin, 5);
    assert_eq!(sections.ir_end, 28);
    assert_eq!(sections.assembly, Some((28, input.len())));
    assert_eq!(&input[sections.ir_begin..sections.ir_end], b"::check-ir::\nir checks\n");
}

#[test]
fn sections_of_a_file_with_the_assembly_tag_then_the_ir_tag() {
    let input = b"code\n::check-asm::\nasm checks\n::check-ir::\nir checks\n";
    let sections = check_sections(input);
    assert_eq!(sections.ir_begin, 30);
    assert_eq!(sections.ir_end, input.len());
    assert_eq!(sections.assembly, Some((5, 30)));
}

#[test]
fn sections_of_a_file_with_the_assembly_tag_only() {
    let input = b"ir checks\n::check-asm::\nasm checks\n";
    let sections = check_sections(input);
    assert_eq!(sections.ir_begin, 0);
    assert_eq!(sections.ir_end, 10);
    assert_eq!(sections.assembly, Some((10, input.len())));
}

#[test]
fn sections_of_a_file_that_begins_with_the_assembly_tag() {
    // the assembly tag stands where the IR part begins, so the IR part runs to the end
    let input = b"::check-asm::\nchecks\n";
    let sections = check_sections(input);
    assert_eq!(sections.ir_begin, 0);
    assert_eq!(sections.ir_end, input.len());
    assert_eq!(sections.assembly, Some((0, input.len())));
}

#[test]
fn sections_take_the_first_of_repeated_tags() {
    let input = b"::check-ir::a::check-ir::b::check-asm::c::check-asm::";
    let sections = check_sections(input);
    assert_eq!(sections.ir_begin, 0);
    assert_eq!(sections.ir_end, 26);
    assert_eq!(sections.assembly, Some((26, input.len())));
}

#[test]
fn every_file_is_selected_without_a_filter() {
    assert!(is_selected(Some("tests/ir/simple.sw"), None));
    assert!(is_selected(None, None));
}

#[test]
fn a_path_that_is_no_text_is_selected() {
    let filter = regex::Regex::new("never").expect("a pattern");
    assert!(is_selected(None, Some(&filter)));
}

#[test]
fn the_filter_decides_on_a_path_that_is_text() {
    let filter = regex::Regex::new("^tests/.*_loop\\.sw$").expect("a pattern");
    assert!(is_selected(Some("tests/while_loop.sw"), Some(&filter)));
    assert!(!is_selected(Some("tests/simple.sw"), Some(&filter)));
    assert!(!is_selected(Some(""), Some(&filter)));
    let part = regex::Regex::new("loop").expect("a pattern");
    assert!(is_selected(Some("tests/while_loop.sw"), Some(&part)));
}

#[test]
fn a_test_file_is_a_regular_file_with_the_extension_sw() {
    assert!(is_test_file(true, Some(&"sw".to_string())));
    assert!(!is_test_file(false, Some(&"sw".to_string())));
    assert!(!is_test_file(true, Some(&"ir".to_string())));
    assert!(!is_test_file(true, Some(&"SW".to_string())));
    assert!(!is_test_file(true, Some(&"sway".to_string())));
    assert!(!is_test_file(true, Some(&"".to_string())));
    assert!(!is_test_file(true, None));
    assert!(!is_test_file(false, None));
}

#[test]
fn verdict_without_directives_is_missing_directives() {
    assert!(matches!(
        ir_verdict(false, Ok((true, "all good".to_string()))),
        Err(IrCheckError::MissingDirectives)
    ));
    assert!(matches!(
        ir_verdict(false, Err("bad".to_string())),
        Err(IrCheckError::MissingDirectives)
    ));
}

#[test]
fn verdict_of_a_match_is_ok() {
    assert!(ir_verdict(true, Ok((true, "explanation".to_string()))).is_ok());
}

#[test]
fn verdict_of_a_mismatch_carries_the_explanation() {
    match ir_verdict(true, Ok((false, "missed: fn main".to_string()))) {
        Err(IrCheckError::CheckFailed(report)) => assert_eq!(report, "missed: fn main"),
        other => panic!("expected a failed check, got {:?}", other),
    }
}

#[test]
fn verdict_of_a_wrong_directive_carries_the_reason() {
    match ir_verdict(true, Err("invalid variable name".to_string())) {
        Err(IrCheckError::DirectiveError(reason)) => assert_eq!(reason, "invalid variable name"),
        other => panic!("expected a directive error, got {:?}", other),
    }
}

#[test]
fn a_file_is_taken_unless_the_filter_says_no() {
    assert!(selected_by(None));
    assert!(selected_by(Some(true)));
    assert!(!selected_by(Some(false)));
}

const IR: &str = "script {\n    fn main() -> u64 {\n        entry:\n        v0 = const u64 42\n        ret u64 v0\n    }\n}\n";

#[test]
fn ir_that_matches_its_directives_passes() {
    let directives = "// check: fn main() -> u64\n// check: v0 = const u64 42\n// nextln: ret u64 v0\n";
    assert!(check_ir(directives, IR).is_ok());
}

#[test]
fn ir_passes_with_variables_and_unordered_and_not_directives() {
    let directives = "// regex: VAL=v\\d+\n// check: $(ret=$VAL) = const u64 42\n// not: const u64 43\n// check: ret u64 $ret\n// unordered: }\n";
    assert!(check_ir(directives, IR).is_ok());
}

#[test]
fn ir_that_misses_a_directive_fails_with_the_explanation() {
    let directives = "// check: fn main() -> u64\n// check: v0 = const u64 43\n";
    match check_ir(directives, IR) {
        Err(IrCheckError::CheckFailed(report)) => {
            assert!(report.contains("Matched #0"), "{}", report);
            assert!(report.contains("Missed #1"), "{}", report);
            assert!(report.contains("> script {"), "{}", report);
        }
        other => panic!("expected a failed check, got {:?}", other),
    }
}

#[test]
fn ir_that_holds_what_a_not_directive_forbids_fails() {
    let directives = "// check: entry:\n// not: const u64 42\n// check: ret\n";
    assert!(matches!(check_ir(directives, IR), Err(IrCheckError::CheckFailed(_))));
}

#[test]
fn text_without_directives_is_missing_directives() {
    assert!(matches!(check_ir("", IR), Err(IrCheckError::MissingDirectives)));
    assert!(matches!(
        check_ir("script;\nfn main() -> u64 { 42 }\n", IR),
        Err(IrCheckError::MissingDirectives)
    ));
    assert!(matches!(check_ir("", ""), Err(IrCheckError::MissingDirectives)));
}

#[test]
fn a_directive_that_is_wrong_in_itself_is_a_directive_error() {
    match check_ir("// check: $(unterminated\n", IR) {
        Err(IrCheckError::DirectiveError(reason)) => {
            assert_eq!(reason, "unterminated $(unterminated...")
        }
        other => panic!("expected a directive error, got {:?}", other),
    }
    match check_ir("// regex: =oops\n// check: fn main\n", IR) {
        Err(IrCheckError::DirectiveError(reason)) => {
            assert!(reason.starts_with("invalid variable name in regex"), "{}", reason)
        }
        other => panic!("expected a directive error, got {:?}", other),
    }
    // wrong directives are reported before an IR that cannot be explained
    assert!(matches!(check_ir("// check: $(x\n", ""), Err(IrCheckError::DirectiveError(_))));
}

#[test]
fn a_directive_with_an_unknown_variable_is_a_directive_error() {
    match check_ir("// check: ret u64 $nowhere\n", IR) {
        Err(IrCheckError::DirectiveError(reason)) => {
            assert_eq!(reason, "undefined variable $nowhere")
        }
        other => panic!("expected a directive error, got {:?}", other),
    }
}

#[test]
fn ir_that_cannot_be_explained_is_reported() {
    let directives = "// check: main\n";
    assert!(matches!(check_ir(directives, ""), Err(IrCheckError::OutputNotExplainable)));
    assert!(matches!(
        check_ir(directives, "fn main() -> caf\u{e9}"),
        Err(IrCheckError::OutputNotExplainable)
    ));
    assert!(matches!(
        check_ir(directives, "main \u{2014}"),
        Err(IrCheckError::OutputNotExplainable)
    ));
}

#[test]
fn ir_with_other_characters_inside_and_no_last_line_feed_is_checked() {
    let directives = "// check: caf\u{e9}\n// sameln: main\n";
    assert!(check_ir(directives, "caf\u{e9} main").is_ok());
    assert!(check_ir(directives, "caf\u{e9} main\n").is_ok());
    assert!(matches!(
        check_ir(directives, "main caf\u{e9} x"),
        Err(IrCheckError::CheckFailed(_))
    ));
    assert!(check_ir("// check: $()\n", "x").is_ok());
}

#[test]
fn directives_error_tells_wrong_directives_from_right_ones() {
    assert_eq!(directives_error("// check: fn main\n"), None);
    assert_eq!(directives_error(""), None);
    assert_eq!(directives_error("no directive here"), None);
    assert_eq!(
        directives_error("// not: $(x=a)\n"),
        Some("can't define variables '$(x=...' in not: $(x=a)".to_string())
    );
    assert_eq!(
        directives_error("// check: a $ b\n"),
        Some("pattern syntax error, use $$ to match a single $".to_string())
    );
}

#[test]
fn every_explainable_text_is_explained() {
    let directive_sets = [
        "check: a\n",
        "check: $()\n",
        "check: a\nsameln: b\nnextln: c\n",
        "nextln: a\nnextln: $()\n",
        "sameln: $()\nsameln: $()\n",
        "unordered: c\nunordered: a\nnot: b\ncheck: a\n",
        "check: $(x=[a-z]+)\nnot: $x\nunordered: $x\ncheck: $x\nnot: $x\n",
        "regex: R=.\nunordered: $(y=$R)\nnot: $y$y\nnextln: $(=.*)\nnot: $()\n",
        "not: a\nnot: b\n",
        "check: caf\u{e9}\nsameln: \u{2014}\nnot: \u{e9}\ncheck: $(=\u{e9}*)\n",
    ];
    let texts = [
        "a",
        "\n",
        "a\n",
        "a b c",
        "a b\nc\n",
        "\n\na\n\n",
        "caf\u{e9} \u{2014} a\nb\u{e9}b\nc",
        "\u{e9}\n",
        "\u{2014}\u{2014}a",
        "a\r\nb\r\nc\r\n",
        "aaa\naaa\naaa",
    ];
    for directives in directive_sets {
        assert_eq!(directives_error(directives), None, "{:?}", directives);
        for text in texts {
            match check_ir(directives, text) {
                Ok(()) | Err(IrCheckError::CheckFailed(_)) => {}
                other => panic!("{:?} on {:?} gave {:?}", directives, text, other),
            }
        }
    }
}

fn next_choice(state: &mut u64, bound: usize) -> usize {
    *state = state.wrapping_mul(6364136223846793005).wrapping_add(1442695040888963407);
    ((*state >> 33) as usize) % bound
}

fn check_many_texts(seed: u64, rounds: usize) {
    let keywords = ["check", "sameln", "nextln", "unordered", "not"];
    let patterns = [
        "a", "b", "ab", "a b", "$()", "$(=a*)", "$(=.*)", "$(x=a+)", "$(y=[ab]*)", "$x", "$y",
        "$(x)", "$R", "$(z=$R)", "a$$", "\u{e9}", "$(=\u{e9}?)a", "$()a$()", "$(w=)",
    ];
    let pieces = ["a", "b", " ", "\n", "\u{e9}", "ab", "\n\n", "\u{2014}", "a a", "b\na"];
    let endings = ["a", "b", "\n", " ", "a\n"];
    let mut state = seed;
    let mut checked = 0;
    for _ in 0..rounds {
        let mut directives = String::from("regex: R=[ab]\n");
        for _ in 0..1 + next_choice(&mut state, 5) {
            directives.push_str(keywords[next_choice(&mut state, keywords.len())]);
            directives.push_str(": ");
            directives.push_str(patterns[next_choice(&mut state, patterns.len())]);
            directives.push('\n');
        }
        if directives_error(&directives).is_some() {
            assert!(matches!(
                check_ir(&directives, "a\n"),
                Err(IrCheckError::DirectiveError(_))
            ));
            continue;
        }
        let mut text = String::new();
        for _ in 0..next_choice(&mut state, 6) {
            text.push_str(pieces[next_choice(&mut state, pieces.len())]);
        }
        text.push_str(endings[next_choice(&mut state, endings.len())]);
        match check_ir(&directives, &text) {
            Ok(()) | Err(IrCheckError::CheckFailed(_)) | Err(IrCheckError::DirectiveError(_)) => {}
            other => panic!("{:?} on {:?} gave {:?}", directives, text, other),
        }
        checked += 1;
    }
    assert!(checked > rounds / 4);
}

#[test]
fn many_texts_and_directives_are_checked_without_failure() {
    check_many_texts(7, 400);
}

#[test]
fn many_more_texts_and_directives_are_checked_without_failure() {
    check_many_texts(1_000_003, 400);
}

#[test]
fn yet_more_texts_and_directives_are_checked_without_failure() {
    check_many_texts(0x9e37_79b9_7f4a_7c15, 400);
}
