use ai_commit::git::{
    collect_changes, get_binary_status_map, get_staged_changes_summary, has_no_fields,
    parse_numstat_lead, BinaryStatusMap, Field, LeadShape, StagedChangesSummary, SummaryError,
};

fn texts(items: &[&str]) -> Vec<String> {
    items.iter().map(|s| s.to_string()).collect()
}

#[test]
fn test_summary_no_staged_files() {
    let summary = get_staged_changes_summary(b"", b"").unwrap();
    assert_eq!(summary, StagedChangesSummary::default());
}

#[test]
fn test_summary_add_text_file() {
    let summary = get_staged_changes_summary(b"A  new.txt\0", b"1\t0\tnew.txt\0").unwrap();
    assert_eq!(summary.binary_file_changes, Vec::<String>::new());
    assert_eq!(summary.structure_changes, Vec::<String>::new());
}

#[test]
fn test_summary_add_binary_file() {
    let summary = get_staged_changes_summary(b"A  new.bin\0", b"-\t-\tnew.bin\0").unwrap();
    let expected = StagedChangesSummary {
        binary_file_changes: vec!["added binary file: new.bin".to_string()],
        structure_changes: vec![],
    };
    assert_eq!(summary, expected);
}

#[test]
fn test_summary_modify_binary_file() {
    let summary = get_staged_changes_summary(b"M  app.exe\0", b"-\t-\tapp.exe\0").unwrap();
    let expected = StagedChangesSummary {
        binary_file_changes: vec!["modified binary file: app.exe".to_string()],
        structure_changes: vec![],
    };
    assert_eq!(summary, expected);
}

#[test]
fn test_summary_delete_text_file() {
    let summary = get_staged_changes_summary(b"D  old.txt\0", b"0\t1\told.txt\0").unwrap();
    let expected = StagedChangesSummary {
        binary_file_changes: vec![],
        structure_changes: vec!["deleted file: old.txt".to_string()],
    };
    assert_eq!(summary, expected);
}

#[test]
fn test_summary_delete_binary_file() {
    let summary = get_staged_changes_summary(b"D  old.bin\0", b"-\t-\told.bin\0").unwrap();
    let expected = StagedChangesSummary {
        binary_file_changes: vec![],
        structure_changes: vec!["deleted file: old.bin".to_string()],
    };
    assert_eq!(summary, expected);
}

#[test]
fn test_summary_rename_text_file() {
    let summary = get_staged_changes_summary(
        b"R  renamed.txt\0original.txt\0",
        b"0\t0\t\0original.txt\0renamed.txt\0",
    )
    .unwrap();
    let expected = StagedChangesSummary {
        binary_file_changes: vec![],
        structure_changes: vec!["renamed: original.txt to renamed.txt".to_string()],
    };
    assert_eq!(summary, expected);
}

#[test]
fn test_summary_rename_binary_file() {
    let summary = get_staged_changes_summary(
        b"R  renamed.dat\0original.dat\0",
        b"-\t-\t\0original.dat\0renamed.dat\0",
    )
    .unwrap();
    let expected = StagedChangesSummary {
        binary_file_changes: vec!["renamed binary file: original.dat to renamed.dat".to_string()],
        structure_changes: vec!["renamed: original.dat to renamed.dat".to_string()],
    };
    assert_eq!(summary, expected);
}

#[test]
fn test_summary_rename_directory_with_files() {
    let summary = get_staged_changes_summary(
        b"R  new_dir/file1.txt\0old_dir/file1.txt\0R  new_dir/file2.bin\0old_dir/file2.bin\0",
        b"0\t0\t\0old_dir/file1.txt\0new_dir/file1.txt\0-\t-\t\0old_dir/file2.bin\0new_dir/file2.bin\0",
    )
    .unwrap();

    let mut expected_binary =
        vec!["renamed binary file: old_dir/file2.bin to new_dir/file2.bin".to_string()];
    expected_binary.sort();
    let mut expected_structure = vec![
        "renamed: old_dir/file1.txt to new_dir/file1.txt".to_string(),
        "renamed: old_dir/file2.bin to new_dir/file2.bin".to_string(),
    ];
    expected_structure.sort();

    let mut actual_binary = summary.binary_file_changes;
    actual_binary.sort();
    let mut actual_structure = summary.structure_changes;
    actual_structure.sort();

    assert_eq!(actual_binary, expected_binary);
    assert_eq!(actual_structure, expected_structure);
}

#[test]
fn test_summary_mixed_changes() {
    let status = b"M  committed_binary.bin\0A  new_binary.dat\0A  new_text.txt\0D  to_be_deleted.txt\0R  was_renamed.txt\0to_be_renamed.txt\0";
    let numstat = b"-\t-\tcommitted_binary.bin\0-\t-\tnew_binary.dat\01\t0\tnew_text.txt\00\t1\tto_be_deleted.txt\00\t0\t\0to_be_renamed.txt\0was_renamed.txt\0";
    let summary = get_staged_changes_summary(status, numstat).unwrap();

    let mut expected_binary = vec![
        "added binary file: new_binary.dat".to_string(),
        "modified binary file: committed_binary.bin".to_string(),
    ];
    expected_binary.sort();

    let mut expected_structure = vec![
        "deleted file: to_be_deleted.txt".to_string(),
        "renamed: to_be_renamed.txt to was_renamed.txt".to_string(),
    ];
    expected_structure.sort();

    let mut actual_binary = summary.binary_file_changes;
    actual_binary.sort();
    let mut actual_structure = summary.structure_changes;
    actual_structure.sort();

    assert_eq!(actual_binary, expected_binary, "Binary changes mismatch");
    assert_eq!(actual_structure, expected_structure, "Structure changes mismatch");
}

#[test]
fn test_summary_rename_with_common_prefix_suffix_binary() {
    let summary = get_staged_changes_summary(
        b"R  src/new_file.bin\0src/old_file.bin\0",
        b"-\t-\t\0src/old_file.bin\0src/new_file.bin\0",
    )
    .unwrap();
    let expected = StagedChangesSummary {
        binary_file_changes: vec![
            "renamed binary file: src/old_file.bin to src/new_file.bin".to_string(),
        ],
        structure_changes: vec!["renamed: src/old_file.bin to src/new_file.bin".to_string()],
    };
    assert_eq!(summary, expected);
}

#[test]
fn mixed_changes_come_out_sorted_and_apart() {
    let status = b"M  committed_binary.bin\0A  new_binary.dat\0D  to_be_deleted.txt\0R  was_renamed.txt\0to_be_renamed.txt\0";
    let numstat = b"-\t-\tcommitted_binary.bin\0-\t-\tnew_binary.dat\x000\t1\tto_be_deleted.txt\x000\t0\t\0to_be_renamed.txt\0was_renamed.txt\0";
    let summary = get_staged_changes_summary(status, numstat).unwrap();
    assert_eq!(
        summary.binary_file_changes,
        texts(&["added binary file: new_binary.dat", "modified binary file: committed_binary.bin"])
    );
    assert_eq!(
        summary.structure_changes,
        texts(&["deleted file: to_be_deleted.txt", "renamed: to_be_renamed.txt to was_renamed.txt"])
    );
}

#[test]
fn empty_status_gives_the_default_summary_whatever_the_numstat() {
    for status in [&b""[..], &b"\0"[..], &b"\0\0\0"[..]] {
        for numstat in [&b""[..], &b"-\t-\tx\0"[..], &b"1\t2\0"[..], &b"\xff\0"[..], &b"1\t2\t\0"[..]] {
            assert_eq!(
                get_staged_changes_summary(status, numstat),
                Ok(StagedChangesSummary::default())
            );
        }
    }
}

#[test]
fn a_deletion_is_listed_whatever_the_numstat() {
    for numstat in [&b""[..], &b"-\t-\told.txt\0"[..], &b"0\t9\told.txt\0"[..], &b"noise\0"[..]] {
        let summary = get_staged_changes_summary(b"D  old.txt\0", numstat).unwrap();
        assert_eq!(summary.structure_changes, texts(&["deleted file: old.txt"]));
        assert_eq!(summary.binary_file_changes, Vec::<String>::new());
    }
}

#[test]
fn a_binary_rename_with_a_similarity_score() {
    let summary = get_staged_changes_summary(b"R  b.dat\0a.dat\0", b"-\t-\t100%\0a.dat\0b.dat\0").unwrap();
    assert_eq!(summary.structure_changes, texts(&["renamed: a.dat to b.dat"]));
    assert_eq!(summary.binary_file_changes, texts(&["renamed binary file: a.dat to b.dat"]));
}

#[test]
fn the_lists_are_sorted_by_bytes_and_keep_repeats() {
    let status = b"D  b\0D  a\0D  B\0D  a\0D  \xc3\xa9\0D  z\0D  ab\0";
    let summary = get_staged_changes_summary(status, b"").unwrap();
    let mut expected = texts(&[
        "deleted file: b",
        "deleted file: a",
        "deleted file: B",
        "deleted file: a",
        "deleted file: \u{e9}",
        "deleted file: z",
        "deleted file: ab",
    ]);
    expected.sort();
    assert_eq!(summary.structure_changes, expected);
    assert_eq!(
        summary.structure_changes,
        texts(&[
            "deleted file: B",
            "deleted file: a",
            "deleted file: a",
            "deleted file: ab",
            "deleted file: b",
            "deleted file: z",
            "deleted file: \u{e9}",
        ])
    );
}

#[test]
fn type_changes_and_copies() {
    let numstat = b"-\t-\tlink\0-\t-\t\0src\0dst\x001\t1\tplain\0";
    let summary =
        get_staged_changes_summary(b"T  link\0C  dst\0src\0T  plain\0", numstat).unwrap();
    assert_eq!(
        summary.structure_changes,
        texts(&["copied: src to dst", "type changed for: link", "type changed for: plain"])
    );
    assert_eq!(
        summary.binary_file_changes,
        texts(&["copied binary file to: dst", "type changed to binary: link"])
    );
}

#[test]
fn unknown_codes_and_short_leads_are_passed_over() {
    let summary = get_staged_changes_summary(b"?? x\0U  y\0 M z\0AB\0A\0MM w\0", b"-\t-\tx\0-\t-\tz\0-\t-\tw\0").unwrap();
    assert_eq!(summary.structure_changes, Vec::<String>::new());
    assert_eq!(summary.binary_file_changes, texts(&["modified binary file: w"]));
}

#[test]
fn only_the_first_status_code_counts() {
    let summary = get_staged_changes_summary(b"AM a\0 D b\0DA c\0", b"-\t-\ta\0").unwrap();
    assert_eq!(summary.binary_file_changes, texts(&["added binary file: a"]));
    assert_eq!(summary.structure_changes, texts(&["deleted file: c"]));
}

#[test]
fn a_rename_to_an_empty_path_adds_nothing_and_a_copy_does() {
    let summary = get_staged_changes_summary(b"R  \0old\0C  \0src\0", b"").unwrap();
    assert_eq!(summary.structure_changes, texts(&["copied: src to "]));
    assert_eq!(summary.binary_file_changes, Vec::<String>::new());
}

#[test]
fn a_rename_without_its_old_path_is_an_error() {
    assert_eq!(
        get_staged_changes_summary(b"D  a\0R  new\0", b""),
        Err(SummaryError::Truncated { code: b'R', index: 1 })
    );
    assert_eq!(
        get_staged_changes_summary(b"C  new\0\0\0", b""),
        Err(SummaryError::Truncated { code: b'C', index: 0 })
    );
}

#[test]
fn fields_that_are_not_text_are_errors() {
    assert_eq!(
        get_staged_changes_summary(b"A  a\0M  \xff\0", b""),
        Err(SummaryError::NotText { field: Field::StatusLead, index: 1 })
    );
    assert_eq!(
        get_staged_changes_summary(b"A \xc3\xa9x\0", b""),
        Err(SummaryError::NotText { field: Field::StatusPath, index: 0 })
    );
    assert_eq!(
        get_staged_changes_summary(b"R  new\0\xc3\0", b""),
        Err(SummaryError::NotText { field: Field::StatusOldPath, index: 1 })
    );
    assert_eq!(
        get_staged_changes_summary(b"A  a\0", b"1\t1\ta\0\xfe\t\0"),
        Err(SummaryError::NotText { field: Field::NumstatLead, index: 1 })
    );
    assert_eq!(
        get_staged_changes_summary(b"A  a\0", b"1\t1\t\0old\0\xc0\x80\0"),
        Err(SummaryError::NotText { field: Field::NumstatNewPath, index: 2 })
    );
}

#[test]
fn a_numstat_record_that_breaks_off_is_an_error() {
    assert_eq!(
        get_staged_changes_summary(b"A  a\0", b"1\t1\t\0"),
        Err(SummaryError::Missing { field: Field::NumstatOldPath, index: 0 })
    );
    assert_eq!(
        get_staged_changes_summary(b"A  a\0", b"1\t1\tx\x001\t1\0old\0"),
        Err(SummaryError::Missing { field: Field::NumstatNewPath, index: 1 })
    );
}

#[test]
fn the_old_path_of_a_numstat_rename_need_not_be_text() {
    let map = get_binary_status_map(b"-\t-\t\0\xff\xfe\0new\0").ok().unwrap();
    assert_eq!(map.get("new"), Some(true));
    assert_eq!(map.len(), 1);
}

#[test]
fn the_binary_status_map_by_shape_of_record() {
    let map = get_binary_status_map(
        b"-\t-\tbin\x003\t4\ttext\0-\t-\t\0o1\0n1\x001\t2\t\0o2\0n2\0-\t-\t57%\0o3\0n3\0-\t-\0o4\0n4\0junk\0a\tb\tc\td\0-\t5\thalf\0",
    )
    .ok()
    .unwrap();
    assert_eq!(map.get("bin"), Some(true));
    assert_eq!(map.get("text"), Some(false));
    assert_eq!(map.get("n1"), Some(true));
    assert_eq!(map.get("n2"), Some(false));
    assert_eq!(map.get("n3"), Some(true));
    assert_eq!(map.get("n4"), Some(true));
    assert_eq!(map.get("half"), Some(false));
    assert_eq!(map.get("o1"), None);
    assert_eq!(map.get("junk"), None);
    assert_eq!(map.len(), 7);
    assert!(map.is_binary("bin"));
    assert!(!map.is_binary("text"));
    assert!(!map.is_binary("absent"));
}

#[test]
fn a_later_numstat_record_replaces_an_earlier_one() {
    let map = get_binary_status_map(b"-\t-\tx\x001\t1\tx\0").ok().unwrap();
    assert_eq!(map.get("x"), Some(false));
    assert_eq!(map.len(), 1);
}

#[test]
fn an_empty_numstat_report_gives_an_empty_map() {
    assert_eq!(get_binary_status_map(b"").ok().unwrap().len(), 0);
    assert_eq!(get_binary_status_map(b"\0\0").ok().unwrap().len(), 0);
}

#[test]
fn the_shapes_of_a_numstat_lead() {
    assert!(matches!(parse_numstat_lead(b"-\t-\tp"), LeadShape::Inline { path: b"p", binary: true }));
    assert!(matches!(parse_numstat_lead(b"1\t-\tp"), LeadShape::Inline { path: b"p", binary: false }));
    assert!(matches!(parse_numstat_lead(b"--\t-\tp"), LeadShape::Inline { path: b"p", binary: false }));
    assert!(matches!(parse_numstat_lead(b"-\t-\t"), LeadShape::Separate { binary: true }));
    assert!(matches!(parse_numstat_lead(b"1\t2\t100%"), LeadShape::Separate { binary: false }));
    assert!(matches!(parse_numstat_lead(b"1\t2\t%"), LeadShape::Inline { path: b"%", binary: false }));
    assert!(matches!(parse_numstat_lead(b"1\t2\t+5%"), LeadShape::Inline { path: b"+5%", binary: false }));
    assert!(matches!(parse_numstat_lead(b"1\t2\t5%x"), LeadShape::Inline { path: b"5%x", binary: false }));
    assert!(matches!(
        parse_numstat_lead(b"1\t2\t99999999999999999999%"),
        LeadShape::Separate { binary: false }
    ));
    assert!(matches!(parse_numstat_lead(b"-\t-"), LeadShape::Separate { binary: true }));
    assert!(matches!(parse_numstat_lead(b"\t"), LeadShape::Separate { binary: false }));
    assert!(matches!(parse_numstat_lead(b"x"), LeadShape::Noise));
    assert!(matches!(parse_numstat_lead(b""), LeadShape::Noise));
    assert!(matches!(parse_numstat_lead(b"1\t2\tp\tq"), LeadShape::Noise));
}

#[test]
fn changes_are_collected_in_the_order_of_the_report() {
    let mut map = BinaryStatusMap::new();
    map.insert("b", true);
    map.insert("a", true);
    map.insert("c", false);
    let summary = collect_changes(b"M  b\0A  a\0M  c\0D  z\0D  y\0", &map).unwrap();
    assert_eq!(summary.binary_file_changes, texts(&["modified binary file: b", "added binary file: a"]));
    assert_eq!(summary.structure_changes, texts(&["deleted file: z", "deleted file: y"]));
}

#[test]
fn reports_without_fields() {
    assert!(has_no_fields(b""));
    assert!(has_no_fields(b"\0\0"));
    assert!(!has_no_fields(b"\0a\0"));
}
