use peak::query::apply_limit;
use peak::query::chars_of;
use peak::query::cap_query;
use peak::query::contains_word;
use peak::query::is_word_at;
use peak::query::is_word_character;
use peak::query::limit_is_due;
use peak::query::default_sql;
use peak::query::effective_query;
use peak::query::join_lines;
use peak::query::matches_at;
use peak::query::needs_limit;
use peak::query::skip_white_space;
use peak::query::skip_white_space_back;
use peak::query::statement_of;
use peak::query::trim;
use peak::query::MAX_PREVIEW_ROWS;

fn lines(texts: &[&str]) -> Vec<String> {
    texts.iter().map(|text| text.to_string()).collect()
}

#[test]
fn the_preview_limit_is_a_thousand_rows() {
    assert_eq!(MAX_PREVIEW_ROWS, 1000);
    assert_eq!(default_sql(), "SELECT * FROM data LIMIT 100");
}

#[test]
fn chars_of_gives_every_character() {
    assert_eq!(chars_of(""), Vec::<char>::new());
    assert_eq!(chars_of("aé✓"), vec!['a', 'é', '✓']);
}

#[test]
fn lines_are_joined_with_the_separator_between_them() {
    assert_eq!(join_lines(&lines(&[]), " "), "");
    assert_eq!(join_lines(&lines(&["a"]), " "), "a");
    assert_eq!(join_lines(&lines(&["a", "b", "c"]), " "), "a b c");
    assert_eq!(join_lines(&lines(&["", ""]), " "), " ");
    assert_eq!(join_lines(&lines(&["out", "put.parquet"]), ""), "output.parquet");
    assert_eq!(join_lines(&lines(&["a", "b"]), ", "), "a, b");
}

#[test]
fn joining_agrees_with_the_standard_library() {
    let cases: Vec<Vec<String>> = vec![
        lines(&[]),
        lines(&[""]),
        lines(&["SELECT *", "FROM data", "", "WHERE x > 1"]),
        lines(&["", "x", ""]),
    ];
    for case in cases {
        assert_eq!(join_lines(&case, " "), case.join(" "));
        assert_eq!(join_lines(&case, ""), case.join(""));
    }
}

#[test]
fn trim_removes_white_space_at_both_ends_only() {
    assert_eq!(trim("  a b  "), "a b");
    assert_eq!(trim("\t\n a\u{a0}"), "a");
    assert_eq!(trim("a"), "a");
    assert_eq!(trim(""), "");
    assert_eq!(trim(" \n\t "), "");
    assert_eq!(trim("é ✓"), "é ✓");
}

#[test]
fn trim_agrees_with_the_standard_library() {
    for text in ["", " ", "x", " x", "x ", "  x  y  ", "\u{3000}x\u{2003}", "\r\nSELECT 1;\r\n"] {
        assert_eq!(trim(text), text.trim());
    }
}

#[test]
fn white_space_is_skipped_from_either_side() {
    let text = chars_of("  ab  ");
    assert_eq!(skip_white_space(&text, 0), 2);
    assert_eq!(skip_white_space(&text, 2), 2);
    assert_eq!(skip_white_space(&text, 4), 6);
    assert_eq!(skip_white_space(&text, 9), 9);
    assert_eq!(skip_white_space_back(&text, 6), 4);
    assert_eq!(skip_white_space_back(&text, 4), 4);
    assert_eq!(skip_white_space_back(&text, 2), 0);
    assert_eq!(skip_white_space_back(&text, 9), 9);
}

#[test]
fn patterns_are_found_where_they_stand() {
    let text = chars_of("SELECT LIMIT");
    let limit = chars_of("LIMIT");
    assert!(matches_at(&text, &limit, 7));
    assert!(!matches_at(&text, &limit, 6));
    assert!(!matches_at(&text, &limit, 8));
    assert!(!matches_at(&text, &limit, 100));
    assert!(matches_at(&text, &chars_of(""), 12));
    assert!(!matches_at(&text, &chars_of(""), 13));
    assert!(matches_at(&chars_of("UNLIMITED"), &limit, 2));
}

#[test]
fn letters_digits_and_the_underscore_make_words() {
    for c in ['A', 'M', 'Z', '0', '5', '9', '_'] {
        assert!(is_word_character(c));
    }
    for c in [' ', '\n', ';', ',', '(', ')', '*', '.', '-', '\'', '"', '@', '[', '`', '{', '/', ':', 'a', 'z', 'É'] {
        assert!(!is_word_character(c));
    }
}

#[test]
fn a_word_has_no_word_character_next_to_it() {
    let limit = chars_of("LIMIT");
    assert!(is_word_at(&chars_of("LIMIT"), &limit, 0));
    assert!(is_word_at(&chars_of("X LIMIT 5"), &limit, 2));
    assert!(is_word_at(&chars_of("X\nLIMIT\n5"), &limit, 2));
    assert!(is_word_at(&chars_of("(LIMIT)"), &limit, 1));
    assert!(is_word_at(&chars_of("X LIMIT;"), &limit, 2));
    assert!(!is_word_at(&chars_of("X LIMIT 5"), &limit, 1));
    assert!(!is_word_at(&chars_of("UNLIMITED"), &limit, 2));
    assert!(!is_word_at(&chars_of("LIMITS"), &limit, 0));
    assert!(!is_word_at(&chars_of("NOLIMIT"), &limit, 2));
    assert!(!is_word_at(&chars_of("LIMIT_1"), &limit, 0));
    assert!(!is_word_at(&chars_of("_LIMIT"), &limit, 1));
    assert!(!is_word_at(&chars_of("LIMIT5"), &limit, 0));
    assert!(!is_word_at(&chars_of("LIMI"), &limit, 0));
    assert!(!is_word_at(&chars_of("LIMIT"), &limit, 9));
}

#[test]
fn a_word_is_found_anywhere_in_a_text() {
    let limit = chars_of("LIMIT");
    assert!(contains_word(&chars_of("SELECT * FROM DATA LIMIT 5"), &limit));
    assert!(contains_word(&chars_of("LIMIT"), &limit));
    assert!(contains_word(&chars_of("UNLIMITED LIMIT"), &limit));
    assert!(contains_word(&chars_of("LIMITS,LIMIT"), &limit));
    assert!(!contains_word(&chars_of("SELECT UNLIMITED FROM DATA"), &limit));
    assert!(!contains_word(&chars_of("LIMITLESS"), &limit));
    assert!(!contains_word(&chars_of("LIMI T"), &limit));
    assert!(!contains_word(&chars_of(""), &limit));
    assert!(contains_word(&chars_of(""), &chars_of("")));
    assert!(contains_word(&chars_of("A  B"), &chars_of("")));
    assert!(!contains_word(&chars_of("A B"), &chars_of("")));
    assert!(!contains_word(&chars_of("AB"), &chars_of("")));
}

#[test]
fn the_limit_is_due_for_a_selection_without_limit_clause() {
    assert!(limit_is_due(&chars_of("SELECT * FROM DATA"), 0));
    assert!(limit_is_due(&chars_of("SELECT UNLIMITED FROM DATA"), 0));
    assert!(limit_is_due(&chars_of("  SELECT 1"), 2));
    assert!(!limit_is_due(&chars_of("  SELECT 1"), 0));
    assert!(!limit_is_due(&chars_of("SELECT * FROM DATA LIMIT 5"), 0));
    assert!(!limit_is_due(&chars_of("WITH T AS (SELECT 1) SELECT * FROM T"), 0));
    assert!(!limit_is_due(&chars_of("SELECT 1"), 50));
}

#[test]
fn the_cap_for_given_upper_case_and_start() {
    assert_eq!(
        cap_query("SELECT unlimited FROM data", &chars_of("SELECT UNLIMITED FROM DATA"), 0),
        "SELECT unlimited FROM data LIMIT 1000"
    );
    assert_eq!(
        cap_query("SELECT * FROM data", &chars_of("SELECT * FROM DATA"), 0),
        "SELECT * FROM data LIMIT 1000"
    );
    assert_eq!(
        cap_query("select id from data limit 5", &chars_of("SELECT ID FROM DATA LIMIT 5"), 0),
        "select id from data limit 5"
    );
    assert_eq!(
        cap_query("SELECT * FROM data", &chars_of("SELECT * FROM DATA"), 1),
        "SELECT * FROM data"
    );
}

#[test]
fn a_plain_selection_without_limit_wants_one() {
    assert!(needs_limit("SELECT * FROM DATA"));
    assert!(needs_limit("  \n SELECT A FROM DATA"));
    assert!(needs_limit("SELECTED"));
    assert!(needs_limit("SELECT UNLIMITED FROM DATA"));
    assert!(needs_limit("SELECT LIMITS, NO_LIMIT, LIMIT2 FROM DATA"));
}

#[test]
fn other_queries_want_no_limit() {
    assert!(!needs_limit("SELECT * FROM DATA LIMIT 5"));
    assert!(!needs_limit("SELECT * FROM DATA\nLIMIT\n5"));
    assert!(!needs_limit("SELECT * FROM (SELECT * FROM DATA LIMIT 5)"));
    assert!(!needs_limit("SELECT * FROM DATA LIMIT"));
    assert!(!needs_limit("WITH T AS (SELECT 1) SELECT * FROM T"));
    assert!(!needs_limit("EXPLAIN SELECT 1"));
    assert!(!needs_limit("select * from data"));
    assert!(!needs_limit(""));
    assert!(!needs_limit("SELEC"));
}

#[test]
fn the_limit_goes_behind_the_query_as_it_was_written() {
    assert_eq!(
        apply_limit("select * from data", "SELECT * FROM DATA"),
        "select * from data LIMIT 1000"
    );
    assert_eq!(
        apply_limit("select * from data limit 3", "SELECT * FROM DATA LIMIT 3"),
        "select * from data limit 3"
    );
    assert_eq!(apply_limit("show tables", "SHOW TABLES"), "show tables");
}

#[test]
fn an_unbounded_selection_is_capped_at_the_preview_limit() {
    assert_eq!(effective_query("SELECT * FROM data"), "SELECT * FROM data LIMIT 1000");
}

#[test]
fn case_does_not_matter_for_the_cap() {
    assert_eq!(effective_query("select * from data"), "select * from data LIMIT 1000");
    assert_eq!(effective_query("Select a From data"), "Select a From data LIMIT 1000");
    assert_eq!(
        effective_query("select * from data limit 10"),
        "select * from data limit 10"
    );
    assert_eq!(
        effective_query("SELECT * FROM data Limit 10"),
        "SELECT * FROM data Limit 10"
    );
}

#[test]
fn queries_that_are_no_selection_are_left_alone() {
    assert_eq!(effective_query("DESCRIBE data"), "DESCRIBE data");
    assert_eq!(
        effective_query("WITH t AS (SELECT 1) SELECT * FROM t"),
        "WITH t AS (SELECT 1) SELECT * FROM t"
    );
    assert_eq!(effective_query(""), "");
}

#[test]
fn the_letters_of_limit_inside_a_longer_word_are_no_limit_clause() {
    assert_eq!(
        effective_query("SELECT unlimited FROM data"),
        "SELECT unlimited FROM data LIMIT 1000"
    );
    assert_eq!(
        effective_query("select limitless from data"),
        "select limitless from data LIMIT 1000"
    );
    assert_eq!(
        effective_query("SELECT row_limit, limit_1 FROM data"),
        "SELECT row_limit, limit_1 FROM data LIMIT 1000"
    );
    assert_eq!(
        apply_limit("SELECT unlimited FROM data", "SELECT UNLIMITED FROM DATA"),
        "SELECT unlimited FROM data LIMIT 1000"
    );
}

#[test]
fn the_word_limit_anywhere_keeps_the_cap_away() {
    for sql in [
        "select id from data limit 5",
        "SELECT * FROM data\nLIMIT 10",
        "SELECT * FROM (SELECT * FROM data LIMIT 3) t",
        "SELECT * FROM data -- no limit",
        "select l\u{131}m\u{131}t from data",
    ] {
        assert_eq!(effective_query(sql), sql);
    }
}

#[test]
fn the_first_word_decides_in_upper_case() {
    assert_eq!(effective_query("SELECT 1"), "SELECT 1 LIMIT 1000");
    assert_eq!(effective_query("\u{17f}elect * from data"), "\u{17f}elect * from data LIMIT 1000");
    assert_eq!(effective_query("values (1)"), "values (1)");
    assert_eq!(
        effective_query("WITH t AS (SELECT 1) SELECT * FROM t"),
        "WITH t AS (SELECT 1) SELECT * FROM t"
    );
}

#[test]
fn the_documented_white_space() {
    assert_eq!(trim("   "), "");
    assert_eq!(trim(" \n\u{a0}x\u{a0}\n "), "x");
    assert_eq!(trim("\u{8d8a}"), "\u{8d8a}");
    assert_eq!(trim(" \u{8d8a} "), "\u{8d8a}");
}

#[test]
fn the_statement_is_the_lines_joined_by_blanks_and_trimmed() {
    assert_eq!(statement_of(&lines(&["SELECT *", "FROM data"])), "SELECT * FROM data");
    assert_eq!(statement_of(&lines(&["", "  SELECT 1  ", ""])), "SELECT 1");
    assert_eq!(statement_of(&lines(&[""])), "");
    assert_eq!(statement_of(&lines(&["  ", "\t"])), "");
    assert_eq!(statement_of(&lines(&[])), "");
}
