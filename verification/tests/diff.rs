use ai_commit::diff::preprocess_diff_for_ai;

#[test]
fn test_preprocess_simple_addition() {
    let raw_diff = "diff --git a/file.txt b/file.txt\n\
                    index 000..111 100644\n\
                    --- a/file.txt\n\
                    +++ b/file.txt\n\
                    @@ -0,0 +1 @@\n\
                    +new line content";
    let expected = "diff --git a/file.txt b/file.txt\n\
                    index 000..111 100644\n\
                    --- a/file.txt\n\
                    +++ b/file.txt\n\
                    @@ -0,0 +1 @@\n\
                    [ADDED_LINE]: new line content";
    assert_eq!(preprocess_diff_for_ai(raw_diff), expected);
}

#[test]
fn test_preprocess_simple_removal() {
    let raw_diff = "--- a/file.txt\n\
                    +++ b/file.txt\n\
                    @@ -1 +0,0 @@\n\
                    -old line content";
    let expected = "--- a/file.txt\n\
                    +++ b/file.txt\n\
                    @@ -1 +0,0 @@\n\
                    [REMOVED_LINE]: old line content";
    assert_eq!(preprocess_diff_for_ai(raw_diff), expected);
}

#[test]
fn test_preprocess_modification_with_context() {
    let raw_diff = "--- a/file.txt\n\
                    +++ b/file.txt\n\
                    @@ -1,3 +1,3 @@\n\
                     context before\n\
                    -old line\n\
                    +new line\n\
                     context after";
    let expected = "--- a/file.txt\n\
                    +++ b/file.txt\n\
                    @@ -1,3 +1,3 @@\n\
                     context before\n\
                    [REMOVED_LINE]: old line\n\
                    [ADDED_LINE]: new line\n\
                     context after";
    assert_eq!(preprocess_diff_for_ai(raw_diff), expected);
}

#[test]
fn test_preprocess_no_content_changes_mode_only() {
    let raw_diff = "diff --git a/file.txt b/file.txt\n\
                    old mode 100644\n\
                    new mode 100755";
    let expected = "diff --git a/file.txt b/file.txt\n\
                    old mode 100644\n\
                    new mode 100755";
    assert_eq!(preprocess_diff_for_ai(raw_diff), expected);
}

#[test]
fn test_preprocess_rename_summary_lines() {
    let raw_diff = "diff --git a/old_name.txt b/new_name.txt\n\
                    similarity index 90%\n\
                    rename from old_name.txt\n\
                    rename to new_name.txt\n\
                    index 000..111 100644\n\
                    --- a/old_name.txt\n\
                    +++ b/new_name.txt\n\
                    @@ -1 +1 @@\n\
                    -old content\n\
                    +new content";
    let expected = "diff --git a/old_name.txt b/new_name.txt\n\
                    similarity index 90%\n\
                    rename from old_name.txt\n\
                    rename to new_name.txt\n\
                    index 000..111 100644\n\
                    --- a/old_name.txt\n\
                    +++ b/new_name.txt\n\
                    @@ -1 +1 @@\n\
                    [REMOVED_LINE]: old content\n\
                    [ADDED_LINE]: new content";
    assert_eq!(preprocess_diff_for_ai(raw_diff), expected);
}

#[test]
fn test_preprocess_binary_files_differ() {
    let raw_diff = "diff --git a/image.png b/image.png\n\
                    Binary files a/image.png and b/image.png differ";
    let expected = "diff --git a/image.png b/image.png\n\
                    Binary files a/image.png and b/image.png differ";
    assert_eq!(preprocess_diff_for_ai(raw_diff), expected);
}

#[test]
fn test_preprocess_empty_input() {
    assert_eq!(preprocess_diff_for_ai(""), "");
}

#[test]
fn test_preprocess_multiple_hunks() {
    let raw_diff = "diff --git a/file.txt b/file.txt\n\
                    --- a/file.txt\n\
                    +++ b/file.txt\n\
                    @@ -1,3 +1,3 @@\n\
                     context1\n\
                    -first old\n\
                    +first new\n\
                     context2\n\
                    @@ -10,3 +10,3 @@\n\
                     context3\n\
                    -second old\n\
                    +second new\n\
                     context4";
    let expected = "diff --git a/file.txt b/file.txt\n\
                    --- a/file.txt\n\
                    +++ b/file.txt\n\
                    @@ -1,3 +1,3 @@\n\
                     context1\n\
                    [REMOVED_LINE]: first old\n\
                    [ADDED_LINE]: first new\n\
                     context2\n\
                    @@ -10,3 +10,3 @@\n\
                     context3\n\
                    [REMOVED_LINE]: second old\n\
                    [ADDED_LINE]: second new\n\
                     context4";
    assert_eq!(preprocess_diff_for_ai(raw_diff), expected);
}

#[test]
fn test_line_starting_with_space_after_plus_minus() {
    let raw_diff = "--- a/file.txt\n\
                    +++ b/file.txt\n\
                    @@ -1 +1 @@\n\
                    - old line with leading space\n\
                    + new line with leading space";
    let expected = "--- a/file.txt\n\
                    +++ b/file.txt\n\
                    @@ -1 +1 @@\n\
                    [REMOVED_LINE]:  old line with leading space\n\
                    [ADDED_LINE]:  new line with leading space";
    assert_eq!(preprocess_diff_for_ai(raw_diff), expected);
}

#[test]
fn test_plus_minus_not_at_start_of_line_content() {
    let raw_diff = "--- a/file.txt\n\
                    +++ b/file.txt\n\
                    @@ -1 +1 @@\n\
                    +this line has a + plus and a - minus sign.";
    let expected = "--- a/file.txt\n\
                    +++ b/file.txt\n\
                    @@ -1 +1 @@\n\
                    [ADDED_LINE]: this line has a + plus and a - minus sign.";
    assert_eq!(preprocess_diff_for_ai(raw_diff), expected);
}

#[test]
fn annotates_a_single_added_line() {
    assert_eq!(preprocess_diff_for_ai("+foo"), "[ADDED_LINE]: foo");
}

#[test]
fn annotates_a_single_removed_line() {
    assert_eq!(preprocess_diff_for_ai("-bar"), "[REMOVED_LINE]: bar");
}

#[test]
fn keeps_context_lines() {
    assert_eq!(preprocess_diff_for_ai(" baz"), " baz");
    assert_eq!(preprocess_diff_for_ai("baz"), "baz");
}

#[test]
fn keeps_a_hunk_header() {
    assert_eq!(preprocess_diff_for_ai("@@ -1,2 +1,2 @@"), "@@ -1,2 +1,2 @@");
}

#[test]
fn keeps_every_kind_of_header() {
    let headers = [
        "+++ b/x",
        "--- a/x",
        "diff --git a/x b/x",
        "index 1..2",
        "old mode 100644",
        "new mode 100755",
        "deleted file mode 100644",
        "new file mode 100644",
        "copy from a",
        "copy to b",
        "rename from a",
        "rename to b",
        "similarity index 90%",
        "dissimilarity index 10%",
        "Binary files a and b differ",
        "@@ -1 +1 @@",
    ];
    for header in headers {
        assert_eq!(preprocess_diff_for_ai(header), header);
    }
}

#[test]
fn looks_at_the_first_character_only() {
    assert_eq!(preprocess_diff_for_ai("++x"), "[ADDED_LINE]: +x");
    assert_eq!(preprocess_diff_for_ai("--x"), "[REMOVED_LINE]: -x");
    assert_eq!(preprocess_diff_for_ai("+-x"), "[ADDED_LINE]: -x");
    assert_eq!(preprocess_diff_for_ai("+"), "[ADDED_LINE]: ");
    assert_eq!(preprocess_diff_for_ai("-"), "[REMOVED_LINE]: ");
}

#[test]
fn a_second_pass_marks_nothing_new() {
    let once = preprocess_diff_for_ai("+a\n-b\n c");
    assert_eq!(once, "[ADDED_LINE]: a\n[REMOVED_LINE]: b\n c");
    assert_eq!(preprocess_diff_for_ai(&once), once);
    let twice = preprocess_diff_for_ai(&preprocess_diff_for_ai("++a"));
    assert_eq!(twice, "[ADDED_LINE]: +a");
}

#[test]
fn drops_the_final_line_ending() {
    assert_eq!(preprocess_diff_for_ai("+a\n"), "[ADDED_LINE]: a");
    assert_eq!(preprocess_diff_for_ai("\n"), "");
    assert_eq!(preprocess_diff_for_ai("a\n\n"), "a\n");
    assert_eq!(preprocess_diff_for_ai("a\n\nb"), "a\n\nb");
}

#[test]
fn drops_carriage_returns_before_line_feeds() {
    assert_eq!(preprocess_diff_for_ai("+a\r\n-b\r\n"), "[ADDED_LINE]: a\n[REMOVED_LINE]: b");
    assert_eq!(preprocess_diff_for_ai("+a\r"), "[ADDED_LINE]: a\r");
    assert_eq!(preprocess_diff_for_ai("a\r\r\nb"), "a\r\nb");
}

#[test]
fn agrees_with_the_standard_line_splitting() {
    let samples = ["", "\n", "\r\n", "a", "a\n", "a\nb", "a\r\nb\r", "\n\n", "x\r\n\r\ny\n", "é\n+ü"];
    for sample in samples {
        let expected: Vec<String> = sample
            .lines()
            .map(|line| {
                if let Some(rest) = line.strip_prefix('+') {
                    format!("[ADDED_LINE]: {}", rest)
                } else {
                    line.to_string()
                }
            })
            .collect();
        assert_eq!(preprocess_diff_for_ai(sample), expected.join("\n"));
    }
}
