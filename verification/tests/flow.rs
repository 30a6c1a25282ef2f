use ai_commit::ai::{
    candidate_count, clean_line, collect_block, first_suggestion, interpret_response, keeps,
    process_api_response_candidates, request_url, strip_fences, strip_marker, AiError,
    ApiErrorDetail, Candidate, ModelContent, ModelPart,
};
use ai_commit::interactive::{
    menu_after, next_step, Next, Picked, CANCEL_OPTION, REGENERATE_OPTION,
};
use ai_commit::mode::{AiCommitMode, Args};

fn chars(s: &str) -> Vec<char> {
    s.chars().collect()
}

fn block(text: &str) -> Vec<String> {
    let mut out = Vec::new();
    collect_block(text, &mut out);
    out
}

fn candidate(texts: &[Option<&str>]) -> Candidate {
    Candidate {
        content: Some(ModelContent {
            parts: Some(
                texts.iter().map(|t| ModelPart { text: t.map(|s| s.to_string()) }).collect(),
            ),
        }),
    }
}

#[test]
fn the_four_modes() {
    let mode = |interactive, amend| Args { interactive, amend }.determine_mode();
    assert_eq!(mode(false, false), AiCommitMode::Auto);
    assert_eq!(mode(true, false), AiCommitMode::Interactive);
    assert_eq!(mode(false, true), AiCommitMode::AmendAuto);
    assert_eq!(mode(true, true), AiCommitMode::AmendInteractive);
}

#[test]
fn what_each_mode_needs() {
    assert!(AiCommitMode::Auto.needs_staged_files());
    assert!(AiCommitMode::Interactive.needs_staged_files());
    assert!(!AiCommitMode::AmendAuto.needs_staged_files());
    assert!(!AiCommitMode::AmendInteractive.needs_staged_files());
    assert_eq!(AiCommitMode::Auto.variations(), 1);
    assert_eq!(AiCommitMode::Interactive.variations(), 5);
    assert_eq!(AiCommitMode::AmendAuto.variations(), 1);
    assert_eq!(AiCommitMode::AmendInteractive.variations(), 5);
}

#[test]
fn the_menu_after_each_kind_of_answer() {
    let actions = vec![REGENERATE_OPTION.to_string(), CANCEL_OPTION.to_string()];
    let failed = menu_after(None);
    assert_eq!(failed.question, "AI failed. What would you like to do?");
    assert_eq!(failed.options, actions);
    assert!(!failed.offers_messages);

    let nothing = menu_after(Some(&vec![]));
    assert_eq!(nothing.question, "AI returned no suggestions. What would you like to do?");
    assert_eq!(nothing.options, actions);
    assert!(!nothing.offers_messages);

    let some = menu_after(Some(&vec!["feat: a".to_string(), "fix: b".to_string()]));
    assert_eq!(some.question, "Select a commit message (or action):");
    assert_eq!(
        some.options,
        vec!["feat: a", "fix: b", REGENERATE_OPTION, CANCEL_OPTION]
    );
    assert!(some.offers_messages);
}

#[test]
fn what_follows_from_what_was_picked() {
    for offers in [false, true] {
        assert_eq!(next_step(offers, Picked::Item(REGENERATE_OPTION.to_string())), Next::Regenerate);
        assert_eq!(next_step(offers, Picked::Item(CANCEL_OPTION.to_string())), Next::Stop);
        assert_eq!(next_step(offers, Picked::Canceled), Next::Stop);
        assert_eq!(next_step(offers, Picked::Failed), Next::Fail);
    }
    assert_eq!(
        next_step(true, Picked::Item("feat: a".to_string())),
        Next::Use("feat: a".to_string())
    );
    assert_eq!(next_step(true, Picked::Item(String::new())), Next::Use(String::new()));
}

#[test]
fn the_address_and_the_count_of_a_request() {
    assert_eq!(
        request_url("K3Y"),
        "https://generativelanguage.googleapis.com/v1beta/models/gemini-2.5-flash-lite-preview-06-17:generateContent?key=K3Y"
    );
    assert_eq!(candidate_count(0), 1);
    assert_eq!(candidate_count(1), 1);
    assert_eq!(candidate_count(5), 5);
    assert_eq!(candidate_count(u32::MAX), u32::MAX);
}

#[test]
fn an_error_of_the_service_comes_before_the_candidates() {
    let detail = ApiErrorDetail { code: 429, message: "slow down".to_string(), status: "RESOURCE_EXHAUSTED".to_string() };
    let result = interpret_response(Some(detail), Some(vec![candidate(&[Some("feat: x")])]), 1);
    match result {
        Err(AiError::Api { code, message, status }) => {
            assert_eq!(code, 429);
            assert_eq!(message, "slow down");
            assert_eq!(status, "RESOURCE_EXHAUSTED");
        }
        other => panic!("{:?}", other),
    }
    let ok = interpret_response(None, Some(vec![candidate(&[Some("feat: x")])]), 1).unwrap();
    assert_eq!(ok, vec!["feat: x"]);
    assert!(matches!(interpret_response(None, None, 1), Err(AiError::NoSuggestions)));
}

#[test]
fn errors_of_the_generator_in_words() {
    assert_eq!(
        AiError::NoSuggestions.message(),
        "No valid commit suggestions derived from AI response after filtering. The AI might have returned explanatory text instead of commit messages."
    );
    assert_eq!(
        AiError::Api { code: -7, message: "m".to_string(), status: "S".to_string() }.message(),
        "Gemini API returned an error: code -7, message: m, status: S"
    );
    assert_eq!(
        AiError::Api { code: i32::MIN, message: String::new(), status: String::new() }.message(),
        "Gemini API returned an error: code -2147483648, message: , status: "
    );
    assert_eq!(
        AiError::RequestFailed { status: "404 Not Found".to_string(), body: "{}".to_string() }.message(),
        "Gemini API request failed with status 404 Not Found: {}"
    );
}

#[test]
fn the_first_suggestion_trimmed() {
    assert_eq!(first_suggestion(&vec![]), None);
    assert_eq!(first_suggestion(&vec!["  ".to_string(), "fix: b".to_string()]), None);
    assert_eq!(
        first_suggestion(&vec![" feat: a \n".to_string(), "fix: b".to_string()]),
        Some("feat: a".to_string())
    );
}

#[test]
fn none_may_be_returned_where_none_is_asked_for() {
    let result = process_api_response_candidates(Some(vec![candidate(&[Some("feat: x")])]), 0);
    assert!(matches!(result, Err(AiError::NoSuggestions)));
}

#[test]
fn suggestions_come_from_every_part_of_every_candidate_in_order() {
    let candidates = vec![
        candidate(&[Some("feat: a\nfix: b"), None, Some("docs: c")]),
        Candidate { content: None },
        Candidate { content: Some(ModelContent { parts: None }) },
        candidate(&[]),
        candidate(&[Some("chore: d")]),
    ];
    let result = process_api_response_candidates(Some(candidates.clone()), 10).unwrap();
    assert_eq!(result, vec!["feat: a", "fix: b", "docs: c", "chore: d"]);
    let result = process_api_response_candidates(Some(candidates.clone()), 4).unwrap();
    assert_eq!(result, vec!["feat: a", "fix: b", "docs: c", "chore: d"]);
    let result = process_api_response_candidates(Some(candidates), 3).unwrap();
    assert_eq!(result, vec!["feat: a", "fix: b", "docs: c"]);
}

#[test]
fn fences_around_a_block() {
    let strip = |s: &str| strip_fences(&chars(s)).iter().collect::<String>();
    assert_eq!(strip("```\nfeat: a\n```"), "feat: a");
    assert_eq!(strip("```\n  feat: a  \n```"), "feat: a");
    assert_eq!(strip("```feat: a```"), "feat: a");
    assert_eq!(strip("```rust\nfeat: a\n```"), "rust\nfeat: a");
    assert_eq!(strip("```\n```"), "```\n```");
    assert_eq!(strip("```"), "```");
    assert_eq!(strip("````"), "````");
    assert_eq!(strip("``````"), "");
    assert_eq!(strip("```\n\n```"), "");
    assert_eq!(strip("```\nfeat: a"), "```\nfeat: a");
    assert_eq!(strip("feat: a\n```"), "feat: a\n```");
    assert_eq!(strip("plain"), "plain");
    assert_eq!(strip(""), "");
}

#[test]
fn markers_of_list_items_and_objections() {
    let strip = |s: &str| strip_marker(&chars(s)).iter().collect::<String>();
    assert_eq!(strip("1. feat: a"), "feat: a");
    assert_eq!(strip("12.   feat: a"), "feat: a");
    assert_eq!(strip("1. "), "");
    assert_eq!(strip("1. 2. x"), "2. x");
    assert_eq!(strip("a. feat: a"), "a. feat: a");
    assert_eq!(strip(". feat: a"), ". feat: a");
    assert_eq!(strip("1a. feat: a"), "1a. feat: a");
    assert_eq!(strip("٣. feat: a"), "٣. feat: a");
    assert_eq!(strip("- feat: a"), "feat: a");
    assert_eq!(strip("*   feat: a"), "feat: a");
    assert_eq!(strip("- "), "");
    assert_eq!(strip("-feat: a"), "-feat: a");
    assert_eq!(strip("- fix: a. b"), "- fix: a. b");
    assert_eq!(strip("However, try: fix: a"), "fix: a");
    assert_eq!(strip("HOWEVER, this:   fix: a  "), "fix: a");
    assert_eq!(strip("however, nothing"), "however, nothing");
    assert_eq!(strip("however, ends: "), "however, ends: ");
    assert_eq!(strip("However, wait. one: two"), "However, wait. one: two");
    assert_eq!(strip("feat: a"), "feat: a");
}

#[test]
fn what_is_kept_as_a_suggestion() {
    let keep = |s: &str| keeps(s, &s.to_lowercase());
    assert!(keep("feat: a"));
    assert!(keep(":"));
    assert!(!keep(""));
    assert!(!keep("no colon here"));
    assert!(!keep("Here are: some"));
    assert!(!keep("SURE, feat: a"));
    assert!(!keep("Okay, feat: a"));
    assert!(!keep("Response: feat: a"));
    assert!(!keep("Given the diff: x"));
    assert!(!keep("The AI suggests: x"));
    assert!(!keep("I suggest: x"));
    assert!(!keep("a Possible Commit Message: x"));
    assert!(!keep("this commit message based on the provided diff: x"));
    assert!(keep("well, here are: some"));
    let long = format!("feat: {}", "x".repeat(194));
    assert_eq!(long.len(), 200);
    assert!(keep(&long));
    assert!(!keep(&format!("{}x", long)));
    let wide = format!("feat: {}", "é".repeat(97));
    assert_eq!(wide.len(), 200);
    assert!(keep(&wide));
    assert!(!keep(&format!("{}é", wide)));
    assert!(keep(&format!("{}x\n", long)));
}

#[test]
fn a_line_is_cleaned_or_dropped() {
    let clean = |s: &str| clean_line(&chars(s));
    assert_eq!(clean("  feat: a  "), Some("feat: a".to_string()));
    assert_eq!(clean(""), None);
    assert_eq!(clean("   "), None);
    assert_eq!(clean(" ``` "), None);
    assert_eq!(clean("3. fix: b"), Some("fix: b".to_string()));
    assert_eq!(clean("3. "), None);
    assert_eq!(clean("3. no colon"), None);
    assert_eq!(clean("- Here are: x"), None);
    assert_eq!(clean("However, here is one: chore: c"), Some("chore: c".to_string()));
    assert_eq!(clean("HERE ARE some: x"), None);
}

#[test]
fn a_block_gives_its_suggestions_line_by_line() {
    assert_eq!(block("feat: a\r\nfix: b\n\n"), vec!["feat: a", "fix: b"]);
    assert_eq!(block("  ```\nfeat: a\n```  "), vec!["feat: a"]);
    assert_eq!(block("```\n```"), Vec::<String>::new());
    assert_eq!(block(""), Vec::<String>::new());
    let mut out = vec!["kept: before".to_string()];
    collect_block("1. feat: a\nnoise\n* fix: b", &mut out);
    assert_eq!(out, vec!["kept: before", "feat: a", "fix: b"]);
}
