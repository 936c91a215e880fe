use unicode_info::registry::{args_to_map, print_record, registry_report, split_key_value, vec_to_map};

fn lines(v: &[&str]) -> Vec<String> {
    v.iter().map(|s| s.to_string()).collect()
}

fn pairs(v: &[(&str, &str)]) -> Vec<(String, String)> {
    v.iter().map(|(a, b)| (a.to_string(), b.to_string())).collect()
}

#[test]
fn repeated_keys_are_joined() {
    let m = vec_to_map(&lines(&["Type: language", "Subtag: aa", "Description: Afar", "Description: Other", "nokey"]));
    assert_eq!(
        m,
        pairs(&[("Type", "language"), ("Subtag", "aa"), ("Description", "Afar ::<sep_tzu>:: Other")])
    );
    assert_eq!(split_key_value("Comments: a: b"), Some(("Comments".to_string(), "a: b".to_string())));
    assert_eq!(split_key_value("Comments:x"), None);
}

#[test]
fn options_name_keys_and_later_values_replace() {
    let q = args_to_map(&lines(&["prog", "-sub", "aa", "--type", "language", "-sub", "ab", "stray", "--color=never"]));
    assert_eq!(q.criteria, pairs(&[("Subtag", "ab"), ("Type", "language")]));
    assert_eq!(q.color, Some(false));
    assert!(!q.help);
    let h = args_to_map(&lines(&["prog", "-h"]));
    assert!(h.help);
    assert!(h.criteria.is_empty());
    assert_eq!(args_to_map(&lines(&["prog", "-ta", "--color=always", "x"])).criteria, pairs(&[("Tag", "x")]));
}

#[test]
fn records_match_by_substring_or_exactly() {
    let rec = lines(&["Type: language", "Subtag: aa", "Description: Afar"]);
    assert_eq!(
        print_record(&rec, &pairs(&[("Description", "fa")]), false),
        lines(&["%%", "  Type: language", "  Subtag: aa", "  Description: Afar"])
    );
    assert!(print_record(&rec, &pairs(&[("Subtag", "=a")]), false).is_empty());
    assert_eq!(print_record(&rec, &pairs(&[("Subtag", "=aa")]), true)[2], "  \x1b[93mSubtag:\x1b[m aa");
    assert!(print_record(&rec, &pairs(&[("Scope", "x")]), false).is_empty());
}

#[test]
fn registry_report_folds_and_filters() {
    let file = lines(&[
        "File-Date: 2024-01-01",
        "%%",
        "Type: language",
        "Subtag: aa",
        "Description: Afar",
        "Comments: first",
        "  second",
        "%%",
        "Type: language",
        "Subtag: ab",
        "Description: Abkhazian",
    ]);
    let out = registry_report(&file, &pairs(&[("Subtag", "=aa")]), false);
    assert_eq!(
        out,
        lines(&[
            "File-Date: 2024-01-01",
            "%%",
            "  Type: language",
            "  Subtag: aa",
            "  Description: Afar",
            "  Comments: first second",
            "%%",
            "DONE!",
        ])
    );
    let last = registry_report(&file, &pairs(&[("Description", "Abk")]), true);
    assert_eq!(last[1], "%%");
    assert_eq!(last[last.len() - 1], "\x1b[32mDONE!\x1b[m");
}
