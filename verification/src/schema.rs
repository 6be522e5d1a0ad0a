//! The text that defines a relation, laid out for reading.
//!
//! The layout is the work of the SQL formatter of the `sqlformat` crate.
//! What this module adds is a guard: a layout is shown only if laying it
//! out once more changes nothing. So formatting is idempotent whatever the
//! formatter does, and text that it cannot lay out in one go is shown as it
//! was written.

use vstd::prelude::*;
use vstd::string::StrSliceExecFns;

verus! {

/// Spaces per level of indentation.
pub const INDENT_WIDTH: u8 = 4;

/// Whether keywords are put in capitals.
pub const UPPERCASE_KEYWORDS: bool = false;

/// Line breaks after each statement.
pub const LINES_BETWEEN_QUERIES: u8 = 1;

/// Whether a character is white space: one of the characters that Unicode
/// lists under the property `White_Space`.
pub open spec fn is_white_space(c: char) -> bool {
    let code = c as u32;
    ||| 0x09 <= code <= 0x0D
    ||| code == 0x20
    ||| code == 0x85
    ||| code == 0xA0
    ||| code == 0x1680
    ||| 0x2000 <= code <= 0x200A
    ||| code == 0x2028
    ||| code == 0x2029
    ||| code == 0x202F
    ||| code == 0x205F
    ||| code == 0x3000
}

/// The text without the white space that it starts with.
pub open spec fn trimmed_start(text: Seq<char>) -> Seq<char>
    decreases text.len(),
{
    if text.len() > 0 && is_white_space(text.first()) {
        trimmed_start(text.drop_first())
    } else {
        text
    }
}

/// The text without the white space that it ends with.
pub open spec fn trimmed_end(text: Seq<char>) -> Seq<char>
    decreases text.len(),
{
    if text.len() > 0 && is_white_space(text.last()) {
        trimmed_end(text.drop_last())
    } else {
        text
    }
}

/// The text without the white space around it.
pub open spec fn trimmed(text: Seq<char>) -> Seq<char> {
    trimmed_end(trimmed_start(text))
}

/// What the SQL formatter of the `sqlformat` crate makes of `query` when it
/// indents by `indent` spaces, puts keywords in capitals if `uppercase`
/// says so, ends each statement with `lines_between_queries` line breaks
/// and fills in no parameters.
pub uninterp spec fn sql_formatted(
    query: Seq<char>,
    indent: u8,
    uppercase: bool,
    lines_between_queries: u8,
) -> Seq<char>;

/// `sqlformat::format`, called without parameters to fill in. The result
/// depends on the arguments alone; the contract gives it its name and
/// claims nothing else of it.
#[verifier::external_body]
fn format_sql(query: &str, indent: u8, uppercase: bool, lines_between_queries: u8) -> (res: String)
    ensures
        res@ == sql_formatted(query@, indent, uppercase, lines_between_queries),
{
    let options = sqlformat::FormatOptions {
        indent: sqlformat::Indent::Spaces(indent),
        uppercase,
        lines_between_queries,
    };
    sqlformat::format(query, &sqlformat::QueryParams::None, options)
}

/// One pass of the formatter over text that has no white space around it.
/// Empty text stays empty without being shown to the formatter.
pub open spec fn laid_out(raw: Seq<char>) -> Seq<char> {
    if raw.len() == 0 {
        Seq::empty()
    } else {
        sql_formatted(raw, INDENT_WIDTH, UPPERCASE_KEYWORDS, LINES_BETWEEN_QUERIES)
    }
}

/// What is shown for a text, given the text as written, its layout, and
/// the layout of its layout: the layout if the second pass left it as it
/// was, and the text as written otherwise.
pub open spec fn settled(raw: Seq<char>, once: Seq<char>, twice: Seq<char>) -> Seq<char> {
    if twice == once {
        once
    } else {
        raw
    }
}

/// The defining text `sql` as it is shown.
pub open spec fn schema_text(sql: Seq<char>) -> Seq<char> {
    let raw = trimmed(sql);
    let once = laid_out(raw);
    settled(raw, once, laid_out(trimmed(once)))
}

/// White space gone from the start, the text is empty or starts with
/// something else.
proof fn lemma_trimmed_start(text: Seq<char>)
    ensures
        trimmed_start(text).len() == 0 || !is_white_space(trimmed_start(text).first()),
        trimmed_start(text).len() <= text.len(),
    decreases text.len(),
{
    if text.len() > 0 && is_white_space(text.first()) {
        lemma_trimmed_start(text.drop_first());
    }
}

/// White space gone from the end, the text is empty or ends with something
/// else; and what is left is the start of what was there.
proof fn lemma_trimmed_end(text: Seq<char>)
    ensures
        trimmed_end(text).len() == 0 || !is_white_space(trimmed_end(text).last()),
        trimmed_end(text).len() <= text.len(),
        trimmed_end(text) == text.subrange(0, trimmed_end(text).len() as int),
    decreases text.len(),
{
    if text.len() > 0 && is_white_space(text.last()) {
        lemma_trimmed_end(text.drop_last());
    }
}

/// Text that was trimmed has no white space left to trim.
pub proof fn lemma_trimmed_twice(text: Seq<char>)
    ensures
        trimmed(trimmed(text)) == trimmed(text),
{
    // What is left starts as the text did once its leading white space was
    // gone, so neither end has white space to lose.
    lemma_trimmed_start(text);
    lemma_trimmed_end(trimmed_start(text));
}

/// Text that is white space throughout is shown as empty text.
pub proof fn lemma_blank_is_shown_empty(sql: Seq<char>)
    requires
        trimmed(sql).len() == 0,
    ensures
        schema_text(sql).len() == 0,
{
}

/// Empty text is shown as empty text.
pub proof fn lemma_empty_is_shown_empty()
    ensures
        schema_text(Seq::empty()) == Seq::<char>::empty(),
{
    lemma_blank_is_shown_empty(Seq::empty());
}

/// Formatting is idempotent: text that was formatted is shown as it is.
pub proof fn lemma_format_idempotent(sql: Seq<char>)
    ensures
        schema_text(schema_text(sql)) == schema_text(sql),
{
    // Either the layout is shown, and it is shown because laying it out
    // again changes nothing; or the text is shown as written, and what is
    // written has no white space around it any more.
    lemma_trimmed_twice(sql);
}

/// Whether a character is white space.
pub fn is_space(c: char) -> (res: bool)
    ensures
        res == is_white_space(c),
{
    let code = c as u32;
    (0x09 <= code && code <= 0x0D) || code == 0x20 || code == 0x85 || code == 0xA0 || code
        == 0x1680 || (0x2000 <= code && code <= 0x200A) || code == 0x2028 || code == 0x2029
        || code == 0x202F || code == 0x205F || code == 0x3000
}

/// The part of `text` that is left when the white space at both ends is
/// taken away.
pub fn trim(text: &str) -> (res: &str)
    ensures
        res@ == trimmed(text@),
{
    let length = text.unicode_len();
    let mut start: usize = 0;
    assert(text@.subrange(0, length as int) == text@);
    loop
        invariant
            start <= length,
            length == text@.len(),
            trimmed_start(text@) == trimmed_start(text@.subrange(start as int, length as int)),
        ensures
            start <= length,
            trimmed_start(text@) == text@.subrange(start as int, length as int),
        decreases length - start,
    {
        let ghost rest = text@.subrange(start as int, length as int);
        if start == length {
            break ;
        }
        if !is_space(text.get_char(start)) {
            break ;
        }
        assert(rest.drop_first() == text@.subrange(start + 1, length as int));
        start += 1;
    }
    let ghost front = text@.subrange(start as int, length as int);
    let mut end: usize = length;
    loop
        invariant
            start <= end <= length,
            length == text@.len(),
            front == text@.subrange(start as int, length as int),
            trimmed_end(front) == trimmed_end(text@.subrange(start as int, end as int)),
        ensures
            start <= end <= length,
            trimmed_end(front) == text@.subrange(start as int, end as int),
        decreases end - start,
    {
        let ghost rest = text@.subrange(start as int, end as int);
        if end == start {
            break ;
        }
        if !is_space(text.get_char(end - 1)) {
            break ;
        }
        assert(rest.drop_last() == text@.subrange(start as int, end - 1));
        end -= 1;
    }
    text.substring_char(start, end)
}

/// One pass of the formatter over text that has no white space around it.
fn lay_out(raw: &str) -> (res: String)
    ensures
        res@ == laid_out(raw@),
{
    if raw.is_empty() {
        String::new()
    } else {
        format_sql(raw, INDENT_WIDTH, UPPERCASE_KEYWORDS, LINES_BETWEEN_QUERIES)
    }
}

/// What is shown for a text, given the text as written, its layout, and
/// the layout of its layout.
pub fn settle(raw: &str, once: String, twice: &String) -> (res: String)
    ensures
        res@ == settled(raw@, once@, twice@),
{
    if *twice == once {
        once
    } else {
        raw.to_owned()
    }
}

/// Lays out the text that defines a relation: the white space around it
/// is dropped, and what is left is indented and broken into lines by the
/// formatter. Empty text stays empty.
pub fn format_schema(sql: &str) -> (res: String)
    ensures
        res@ == schema_text(sql@),
{
    let raw = trim(sql);
    let once = lay_out(raw);
    let twice = lay_out(trim(once.as_str()));
    settle(raw, once, &twice)
}

} // verus!
