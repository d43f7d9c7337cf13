//! The two layouts of a report.

use vstd::prelude::*;
use vstd::string::*;

use crate::options::OutputFormat;
use crate::report::{entry_views, Entry, EntryView, Report};

verus! {

/// Why a report could not be rendered.
#[derive(Clone, Copy, Debug, PartialEq, Eq, Structural)]
pub enum FormatError {
    /// The serialiser refused the records.
    Serialization,
}

/// The first line of the plain layout.
pub open spec fn plain_header() -> Seq<char> {
    "=== File & Directory List ===\n"@
}

/// The line that lists an entry: its path.
pub open spec fn path_line(entry: EntryView) -> Seq<char> {
    entry.path + "\n"@
}

/// The block that shows the text of an entry: a title line with the path,
/// then the text and a line end. An entry without text has no block.
pub open spec fn content_block(entry: EntryView) -> Seq<char> {
    match entry.content {
        Some(text) => "=== "@ + entry.path + " ===\n"@ + text + "\n"@,
        None => Seq::empty(),
    }
}

/// The lines of all entries, in order.
pub open spec fn path_lines(entries: Seq<EntryView>) -> Seq<char> {
    entries.map_values(|e: EntryView| path_line(e)).flatten()
}

/// The blocks of all entries, in order.
pub open spec fn content_blocks(entries: Seq<EntryView>) -> Seq<char> {
    entries.map_values(|e: EntryView| content_block(e)).flatten()
}

/// The plain layout: the header, a line for every entry, an empty line, and
/// a block for every entry that has text.
pub open spec fn plain_text(entries: Seq<EntryView>) -> Seq<char> {
    plain_header() + path_lines(entries) + "\n"@ + content_blocks(entries)
}

/// The paths of the entries, in order.
pub open spec fn paths(entries: Seq<EntryView>) -> Seq<Seq<char>> {
    entries.map_values(|e: EntryView| e.path)
}

/// The texts of the entries, in order, each one there or not.
pub open spec fn contents(entries: Seq<EntryView>) -> Seq<Option<Seq<char>>> {
    entries.map_values(|e: EntryView| e.content)
}

/// The text that `serde_json::to_string_pretty` gives for a list of records
/// of two fields: record `i` holds the string `firsts[i]` under `first_key`
/// and then, under `second_key`, the string `seconds[i]` or null.
pub uninterp spec fn pretty_json_records(
    first_key: Seq<char>,
    second_key: Seq<char>,
    firsts: Seq<Seq<char>>,
    seconds: Seq<Option<Seq<char>>>,
) -> Seq<char>;

/// The structured layout: one record for every entry, with its path under
/// `path` and its text, or null, under `content`.
pub open spec fn structured_text(entries: Seq<EntryView>) -> Seq<char> {
    pretty_json_records("path"@, "content"@, paths(entries), contents(entries))
}

/// The layout asked for.
pub open spec fn rendered(entries: Seq<EntryView>, format: OutputFormat) -> Seq<char> {
    match format {
        OutputFormat::Plain => plain_text(entries),
        OutputFormat::Structured => structured_text(entries),
    }
}

#[verifier::external_type_specification]
#[verifier::external_body]
pub struct ExJsonError(serde_json::Error);

/// Turns each entry into a `serde_json::Value` object of two members, the
/// path under `first_key` and the text or null under `second_key`, in that
/// order, and calls `serde_json::to_string_pretty` on the list. Nothing is
/// proved of the call. Its text is what `pretty_json_records` stands for,
/// and it is claimed to succeed: the serialiser fails only where a value
/// refuses to be serialised, a map key is not a string, or the writer fails,
/// and here strings and nulls under string keys are written to memory.
#[verifier::external_body]
fn pretty_records(first_key: &str, second_key: &str, entries: &[Entry]) -> (out: Result<
    String,
    serde_json::Error,
>)
    ensures
        out is Ok,
        out matches Ok(text) ==> text@ == pretty_json_records(
            first_key@,
            second_key@,
            paths(entry_views(entries@)),
            contents(entry_views(entries@)),
        ),
{
    let mut records: Vec<serde_json::Value> = Vec::new();
    for entry in entries.iter() {
        let mut record = serde_json::Map::new();
        record.insert(first_key.to_owned(), serde_json::Value::from(entry.path.as_str()));
        record.insert(second_key.to_owned(), serde_json::Value::from(entry.content.as_deref()));
        records.push(serde_json::Value::Object(record));
    }
    serde_json::to_string_pretty(&records)
}

/// What becomes of the serialiser's answer: its text, or the library's error
/// in place of its own.
pub fn structured_outcome(serialized: Result<String, serde_json::Error>) -> (out: Result<
    String,
    FormatError,
>)
    ensures
        serialized matches Ok(text) ==> out == Ok::<String, FormatError>(text),
        serialized is Err ==> out == Err::<String, FormatError>(FormatError::Serialization),
{
    match serialized {
        Ok(text) => Ok(text),
        Err(_) => Err(FormatError::Serialization),
    }
}

/// One more entry adds its line.
proof fn lemma_path_lines_step(entries: Seq<EntryView>, i: int)
    requires
        0 <= i < entries.len(),
    ensures
        path_lines(entries.take(i + 1)) == path_lines(entries.take(i)) + path_line(entries[i]),
{
    let lines = entries.take(i).map_values(|e: EntryView| path_line(e));
    assert(entries.take(i + 1).map_values(|e: EntryView| path_line(e)) =~= lines.push(
        path_line(entries[i]),
    ));
    lines.lemma_flatten_push(path_line(entries[i]));
}

/// One more entry adds its block.
proof fn lemma_content_blocks_step(entries: Seq<EntryView>, i: int)
    requires
        0 <= i < entries.len(),
    ensures
        content_blocks(entries.take(i + 1)) == content_blocks(entries.take(i)) + content_block(
            entries[i],
        ),
{
    let blocks = entries.take(i).map_values(|e: EntryView| content_block(e));
    assert(entries.take(i + 1).map_values(|e: EntryView| content_block(e)) =~= blocks.push(
        content_block(entries[i]),
    ));
    blocks.lemma_flatten_push(content_block(entries[i]));
}

/// Renders a report in the plain layout.
pub fn format_plain(report: &Report) -> (text: String)
    ensures
        text@ == plain_text(report@),
{
    let entries = report.entries();
    let mut text = String::from_str("=== File & Directory List ===\n");
    let mut i: usize = 0;
    while i < entries.len()
        invariant
            i <= entries.len(),
            entry_views(entries@) == report@,
            text@ == plain_header() + path_lines(report@.take(i as int)),
        decreases entries.len() - i,
    {
        text.append(entries[i].path.as_str());
        text.append("\n");
        proof {
            lemma_path_lines_step(report@, i as int);
        }
        i += 1;
    }
    assert(report@.take(i as int) =~= report@);
    text.append("\n");
    let mut i: usize = 0;
    while i < entries.len()
        invariant
            i <= entries.len(),
            entry_views(entries@) == report@,
            text@ == plain_header() + path_lines(report@) + "\n"@ + content_blocks(
                report@.take(i as int),
            ),
        decreases entries.len() - i,
    {
        proof {
            lemma_content_blocks_step(report@, i as int);
        }
        match &entries[i].content {
            Some(content) => {
                text.append("=== ");
                text.append(entries[i].path.as_str());
                text.append(" ===\n");
                text.append(content.as_str());
                text.append("\n");
            },
            None => {},
        }
        i += 1;
    }
    assert(report@.take(i as int) =~= report@);
    text
}

/// Renders a report in the structured layout. The serialiser does not fail
/// on a report, so the result is always `Ok`.
pub fn format_structured(report: &Report) -> (out: Result<String, FormatError>)
    ensures
        out matches Ok(text) && text@ == structured_text(report@),
{
    structured_outcome(pretty_records("path", "content", report.entries().as_slice()))
}

/// Renders a report in the layout asked for. Both layouts always succeed.
pub fn format_report(report: &Report, format: OutputFormat) -> (out: Result<String, FormatError>)
    ensures
        out matches Ok(text) && text@ == rendered(report@, format),
{
    match format {
        OutputFormat::Plain => Ok(format_plain(report)),
        OutputFormat::Structured => format_structured(report),
    }
}

} // verus!
