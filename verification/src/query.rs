//! The text of a query: how the lines of the editor become one statement,
//! and when a row limit is put behind it before the engine sees it.
//!
//! Two things are left to the standard library and taken on trust: which
//! characters count as white space (`char::is_whitespace`) and the upper
//! case of a text (`str::to_uppercase`). Everything else is verified here,
//! and what decides on the row limit is also offered as functions of the
//! upper case and of the place where the statement starts, which depend on
//! neither.

use vstd::prelude::*;

verus! {

/// The most rows that a query without a limit of its own may return.
pub const MAX_PREVIEW_ROWS: usize = 1000;

/// The clause that holds a query to `MAX_PREVIEW_ROWS` rows.
pub open spec fn limit_clause() -> Seq<char> {
    " LIMIT 1000"@
}

/// The query that the editor starts with.
pub open spec fn spec_default_sql() -> Seq<char> {
    "SELECT * FROM data LIMIT 100"@
}

/// Returns the query that the editor starts with, and goes back to when the
/// data is reloaded.
pub fn default_sql() -> (sql: String)
    ensures
        sql@ == spec_default_sql(),
{
    String::from_str("SELECT * FROM data LIMIT 100")
}

/// Whether `c` has the Unicode property `White_Space`, as
/// `char::is_whitespace` tells it.
pub uninterp spec fn is_white_space(c: char) -> bool;

/// The upper case of `text`, as `str::to_uppercase` gives it.
pub uninterp spec fn upper_case(text: Seq<char>) -> Seq<char>;

/// Calls `char::is_whitespace`. Trusted: the result is the value that
/// `is_white_space` names, so the same character is classed the same way
/// every time; and of the four characters that the documentation of
/// `char::is_whitespace` gives as examples, the blank, the line feed and the
/// no-break space are white space and U+8D8A is not.
#[verifier::external_body]
pub(crate) fn is_whitespace(c: char) -> (space: bool)
    ensures
        space == is_white_space(c),
        c == ' ' || c == '\n' || c == '\u{a0}' ==> space,
        c == '\u{8d8a}' ==> !space,
{
    c.is_whitespace()
}

/// Calls `str::to_uppercase`. Trusted: the result is the value that
/// `upper_case` names, so it depends on the characters of `text` alone.
#[verifier::external_body]
fn to_uppercase(text: &str) -> (upper: String)
    ensures
        upper@ == upper_case(text@),
{
    text.to_uppercase()
}

/// The lines with `sep` between each two of them.
pub open spec fn joined(lines: Seq<Seq<char>>, sep: Seq<char>) -> Seq<char>
    decreases lines.len(),
{
    if lines.len() == 0 {
        Seq::empty()
    } else if lines.len() == 1 {
        lines[0]
    } else {
        joined(lines.drop_last(), sep) + sep + lines.last()
    }
}

/// The index of the first character at or after `from` that is no white
/// space, or the length of `text` if there is none.
pub open spec fn first_non_space(text: Seq<char>, from: int) -> int
    decreases text.len() - from,
{
    if 0 <= from < text.len() && is_white_space(text[from]) {
        first_non_space(text, from + 1)
    } else {
        from
    }
}

/// One past the index of the last character before `to` that is no white
/// space, or zero if there is none.
pub open spec fn last_non_space_end(text: Seq<char>, to: int) -> int
    decreases to,
{
    if 0 < to <= text.len() && is_white_space(text[to - 1]) {
        last_non_space_end(text, to - 1)
    } else {
        to
    }
}

/// `text` without the white space at its start and at its end.
pub open spec fn trimmed(text: Seq<char>) -> Seq<char> {
    let start = first_non_space(text, 0);
    let end = last_non_space_end(text, text.len() as int);
    if start < end {
        text.subrange(start, end)
    } else {
        Seq::empty()
    }
}

/// Whether `pattern` stands in `text` at index `at`.
pub open spec fn occurs_at(text: Seq<char>, pattern: Seq<char>, at: int) -> bool {
    &&& 0 <= at
    &&& at + pattern.len() <= text.len()
    &&& text.subrange(at, at + pattern.len()) == pattern
}

/// Whether `c` can stand inside a word of an upper-case statement: a
/// capital letter, a digit or the underscore.
pub open spec fn is_word_char(c: char) -> bool {
    ('A' <= c && c <= 'Z') || ('0' <= c && c <= '9') || c == '_'
}

/// Whether `word` stands in `text` at index `at` as a word of its own: no
/// character of a word stands right before it or right behind it.
pub open spec fn word_at(text: Seq<char>, word: Seq<char>, at: int) -> bool {
    &&& occurs_at(text, word, at)
    &&& (at == 0 || !is_word_char(text[at - 1]))
    &&& (at + word.len() == text.len() || !is_word_char(text[at + word.len()]))
}

/// Whether `word` stands somewhere in `text` as a word of its own.
pub open spec fn has_word(text: Seq<char>, word: Seq<char>) -> bool {
    exists|at: int| word_at(text, word, at)
}

/// Whether a statement gets the row limit, given its upper case and the
/// index at which it starts: it has no row-limit clause, which is to say that
/// the word `LIMIT` stands nowhere in it, and it starts with `SELECT`. The
/// letters of `LIMIT` inside a longer word, as in `UNLIMITED`, are no clause.
pub open spec fn limit_due(upper: Seq<char>, start: int) -> bool {
    &&& !has_word(upper, "LIMIT"@)
    &&& occurs_at(upper, "SELECT"@, start)
}

/// Whether a query whose upper case is `upper` gets the row limit: the
/// limit is due where the statement starts, behind any white space.
pub open spec fn wants_limit(upper: Seq<char>) -> bool {
    limit_due(upper, first_non_space(upper, 0))
}

/// The query that the engine is given for `sql`, whose upper case is `upper`
/// and starts at index `start`: `sql` with the row limit behind it where the
/// limit is due, else `sql` as it is.
pub open spec fn capped(sql: Seq<char>, upper: Seq<char>, start: int) -> Seq<char> {
    if limit_due(upper, start) {
        sql + limit_clause()
    } else {
        sql
    }
}

/// The query that the engine is given for `sql`, whose upper case is
/// `upper`.
pub open spec fn limited(sql: Seq<char>, upper: Seq<char>) -> Seq<char> {
    capped(sql, upper, first_non_space(upper, 0))
}

/// The statement that the lines of the editor hold: the lines with one
/// blank between each two, without white space at either end.
pub open spec fn statement(lines: Seq<Seq<char>>) -> Seq<char> {
    trimmed(joined(lines, " "@))
}

/// Returns the characters of `text`.
pub fn chars_of(text: &str) -> (chars: Vec<char>)
    ensures
        chars@ == text@,
{
    let mut chars: Vec<char> = Vec::new();
    for c in it: text.chars()
        invariant
            it.seq() == text@,
            chars@ == it.seq().take(it.index()),
    {
        chars.push(c);
    }
    chars
}

/// Joins the lines with `sep` between each two of them.
pub fn join_lines(lines: &Vec<String>, sep: &str) -> (text: String)
    ensures
        text@ == joined(lines.deep_view(), sep@),
{
    let ghost all = lines.deep_view();
    let mut text = String::new();
    let mut i: usize = 0;
    while i < lines.len()
        invariant
            i <= lines.len(),
            all == lines.deep_view(),
            text@ == joined(all.take(i as int), sep@),
        decreases lines.len() - i,
    {
        if i > 0 {
            text.append(sep);
        }
        text.append(lines[i].as_str());
        proof {
            let next = all.take(i + 1);
            assert(next.drop_last() == all.take(i as int));
            assert(next.last() == lines[i as int]@);
            if i == 0 {
                assert(Seq::<char>::empty() + lines[0]@ == lines[0]@);
            }
        }
        i = i + 1;
    }
    assert(all.take(lines.len() as int) == all);
    text
}

/// Returns the index of the first character at or after `from` that is no
/// white space.
pub fn skip_white_space(chars: &Vec<char>, from: usize) -> (at: usize)
    ensures
        at == first_non_space(chars@, from as int),
        from <= at,
        from <= chars.len() ==> at <= chars.len(),
{
    let mut at: usize = from;
    while at < chars.len() && is_whitespace(chars[at])
        invariant
            from <= at,
            from <= chars.len() ==> at <= chars.len(),
            first_non_space(chars@, from as int) == first_non_space(chars@, at as int),
        decreases chars.len() - at,
    {
        at = at + 1;
    }
    at
}

/// Returns one past the index of the last character before `to` that is no
/// white space.
pub fn skip_white_space_back(chars: &Vec<char>, to: usize) -> (end: usize)
    ensures
        end == last_non_space_end(chars@, to as int),
        end <= to,
{
    if to > chars.len() {
        return to;
    }
    let mut end: usize = to;
    while end > 0 && is_whitespace(chars[end - 1])
        invariant
            end <= to <= chars.len(),
            last_non_space_end(chars@, to as int) == last_non_space_end(chars@, end as int),
        decreases end,
    {
        end = end - 1;
    }
    end
}

/// Returns `text` without the white space at its start and at its end.
pub fn trim(text: &str) -> (result: String)
    ensures
        result@ == trimmed(text@),
{
    let chars = chars_of(text);
    let start: usize = skip_white_space(&chars, 0);
    let end: usize = skip_white_space_back(&chars, chars.len());
    if start < end {
        text.substring_char(start, end).to_owned()
    } else {
        String::new()
    }
}

/// Tells whether `pattern` stands in `text` at index `at`.
pub fn matches_at(text: &Vec<char>, pattern: &Vec<char>, at: usize) -> (hit: bool)
    ensures
        hit == occurs_at(text@, pattern@, at as int),
{
    if at > text.len() || pattern.len() > text.len() - at {
        return false;
    }
    let mut k: usize = 0;
    while k < pattern.len()
        invariant
            k <= pattern.len(),
            at + pattern.len() <= text.len(),
            forall|j: int| 0 <= j < k ==> text@[at + j] == pattern@[j],
        decreases pattern.len() - k,
    {
        if text[at + k] != pattern[k] {
            assert(text@.subrange(at as int, at + pattern.len())[k as int] != pattern@[k as int]);
            return false;
        }
        k = k + 1;
    }
    assert(text@.subrange(at as int, at + pattern.len()) =~= pattern@);
    true
}

/// Tells whether `c` can stand inside a word of an upper-case statement.
pub fn is_word_character(c: char) -> (inside: bool)
    ensures
        inside == is_word_char(c),
{
    ('A' <= c && c <= 'Z') || ('0' <= c && c <= '9') || c == '_'
}

/// Tells whether `word` stands in `text` at index `at` as a word of its own.
pub fn is_word_at(text: &Vec<char>, word: &Vec<char>, at: usize) -> (hit: bool)
    ensures
        hit == word_at(text@, word@, at as int),
{
    if !matches_at(text, word, at) {
        return false;
    }
    assert(at + word.len() <= text.len());
    if at > 0 && is_word_character(text[at - 1]) {
        return false;
    }
    let end: usize = at + word.len();
    !(end < text.len() && is_word_character(text[end]))
}

/// Tells whether `word` stands somewhere in `text` as a word of its own.
pub fn contains_word(text: &Vec<char>, word: &Vec<char>) -> (found: bool)
    ensures
        found == has_word(text@, word@),
{
    let mut at: usize = 0;
    while at < text.len()
        invariant
            at <= text.len(),
            forall|j: int| 0 <= j < at ==> !word_at(text@, word@, j),
        decreases text.len() - at,
    {
        if is_word_at(text, word, at) {
            return true;
        }
        at = at + 1;
    }
    if is_word_at(text, word, at) {
        return true;
    }
    assert(forall|j: int| !word_at(text@, word@, j));
    false
}

/// Tells whether a statement gets the row limit, given the characters of its
/// upper case and the index at which it starts.
pub fn limit_is_due(upper: &Vec<char>, start: usize) -> (due: bool)
    ensures
        due == limit_due(upper@, start as int),
{
    let limit = chars_of("LIMIT");
    let select = chars_of("SELECT");
    !contains_word(upper, &limit) && matches_at(upper, &select, start)
}

/// Returns the query that the engine is given for `sql`, given the
/// characters of its upper case and the index at which it starts: `sql`
/// itself, with the row limit behind it where the limit is due.
pub fn cap_query(sql: &str, upper: &Vec<char>, start: usize) -> (query: String)
    ensures
        query@ == capped(sql@, upper@, start as int),
{
    let query = sql.to_owned();
    if limit_is_due(upper, start) {
        query.concat(" LIMIT 1000")
    } else {
        query
    }
}

/// Tells whether a query whose upper case is `upper` gets the row limit.
pub fn needs_limit(upper: &str) -> (wanted: bool)
    ensures
        wanted == wants_limit(upper@),
{
    let chars = chars_of(upper);
    let start: usize = skip_white_space(&chars, 0);
    limit_is_due(&chars, start)
}

/// Returns the query that the engine is given for `sql`, whose upper case is
/// `upper`: `sql` itself, with the row limit behind it where the query
/// starts with `SELECT` and has no row-limit clause.
pub fn apply_limit(sql: &str, upper: &str) -> (query: String)
    ensures
        query@ == limited(sql@, upper@),
{
    let chars = chars_of(upper);
    let start: usize = skip_white_space(&chars, 0);
    cap_query(sql, &chars, start)
}

/// Returns the query that the engine is given for `sql`. Upper and lower
/// case are not told apart: the query is examined in upper case.
pub fn effective_query(sql: &str) -> (query: String)
    ensures
        query@ == limited(sql@, upper_case(sql@)),
{
    let upper = to_uppercase(sql);
    apply_limit(sql, upper.as_str())
}

/// Returns the statement that the lines of the editor hold.
pub fn statement_of(lines: &Vec<String>) -> (sql: String)
    ensures
        sql@ == statement(lines.deep_view()),
{
    let text = join_lines(lines, " ");
    trim(text.as_str())
}

} // verus!
