//! What is shown for a reply: the envelope around a classified reply and the
//! row of a CSV listing.

use vstd::prelude::*;
use vstd::string::StringExecFns;
use crate::chars::{to_chars, to_text};
use crate::cli::OutputFormat;
use crate::firmware::words_of;
use crate::json::{classified, ParsedRecord, RecordView, ResponseParser};

verus! {

/// What an envelope carries.
#[derive(Debug, Clone, PartialEq, Eq)]
pub enum JsonData {
    /// A classified reply.
    Record(ParsedRecord),
    /// The description of a failure.
    Failure(String),
}

/// The envelope in which a reply is shown.
#[derive(Debug, Clone, PartialEq, Eq)]
pub struct JsonResponse {
    /// When the envelope was made, in milliseconds since the Unix epoch.
    pub timestamp_ms: i64,
    pub command: String,
    pub status: String,
    pub data: JsonData,
    pub raw_response: Option<String>,
}

/// Mathematical content of a [`JsonData`].
pub enum DataView {
    Record(RecordView),
    Failure(Seq<char>),
}

/// Mathematical content of a [`JsonResponse`].
pub struct ResponseView {
    pub timestamp_ms: i64,
    pub command: Seq<char>,
    pub status: Seq<char>,
    pub data: DataView,
    pub raw_response: Option<Seq<char>>,
}

impl View for JsonData {
    type V = DataView;

    open spec fn view(&self) -> DataView {
        match self {
            JsonData::Record(r) => DataView::Record(r@),
            JsonData::Failure(m) => DataView::Failure(m@),
        }
    }
}

impl View for JsonResponse {
    type V = ResponseView;

    open spec fn view(&self) -> ResponseView {
        ResponseView {
            timestamp_ms: self.timestamp_ms,
            command: self.command@,
            status: self.status@,
            data: self.data@,
            raw_response: match self.raw_response {
                Some(t) => Some(t@),
                None => None,
            },
        }
    }
}

impl JsonResponse {
    /// The envelope of a reply that was classified.
    pub fn success(command: &str, data: ParsedRecord, timestamp_ms: i64) -> (r: JsonResponse)
        ensures
            r@ == (ResponseView {
                timestamp_ms,
                command: command@,
                status: "success"@,
                data: DataView::Record(data@),
                raw_response: None,
            }),
    {
        JsonResponse {
            timestamp_ms,
            command: String::from_str(command),
            status: String::from_str("success"),
            data: JsonData::Record(data),
            raw_response: None,
        }
    }

    /// The envelope of a reply that was classified, with the reply's text.
    pub fn success_with_raw(command: &str, data: ParsedRecord, raw: &str, timestamp_ms: i64) -> (r:
        JsonResponse)
        ensures
            r@ == (ResponseView {
                timestamp_ms,
                command: command@,
                status: "success"@,
                data: DataView::Record(data@),
                raw_response: Some(raw@),
            }),
    {
        JsonResponse {
            timestamp_ms,
            command: String::from_str(command),
            status: String::from_str("success"),
            data: JsonData::Record(data),
            raw_response: Some(String::from_str(raw)),
        }
    }

    /// The envelope of a failure.
    pub fn error(command: &str, error: &str, timestamp_ms: i64) -> (r: JsonResponse)
        ensures
            r@ == (ResponseView {
                timestamp_ms,
                command: command@,
                status: "error"@,
                data: DataView::Failure(error@),
                raw_response: None,
            }),
    {
        JsonResponse {
            timestamp_ms,
            command: String::from_str(command),
            status: String::from_str("error"),
            data: JsonData::Failure(String::from_str(error)),
            raw_response: None,
        }
    }
}

/// The first row of a CSV listing.
pub const CSV_HEADER: &'static str = "timestamp,command,status,response";

/// `s` with every double quote written twice.
pub open spec fn doubled_quotes(s: Seq<char>) -> Seq<char>
    decreases s.len(),
{
    if s.len() == 0 {
        Seq::empty()
    } else if s.last() == '"' {
        doubled_quotes(s.drop_last()).push('"').push('"')
    } else {
        doubled_quotes(s.drop_last()).push(s.last())
    }
}

/// The CSV row of a successful reply: time, command, the word `success`, and
/// the reply between double quotes, with the quotes inside it doubled.
pub open spec fn csv_row_text(timestamp: Seq<char>, command: Seq<char>, response: Seq<char>) -> Seq<
    char,
> {
    timestamp + ","@ + command + ",success,\""@ + doubled_quotes(response) + "\""@
}

/// Writes every double quote of `text` twice.
pub fn double_quotes(text: &str) -> (r: String)
    ensures
        r@ == doubled_quotes(text@),
{
    let chars = to_chars(text);
    let mut out: Vec<char> = Vec::new();
    let mut i: usize = 0;
    while i < chars.len()
        invariant
            i <= chars.len(),
            out@ == doubled_quotes(chars@.subrange(0, i as int)),
        decreases chars.len() - i,
    {
        proof {
            assert(chars@.subrange(0, i + 1).drop_last() =~= chars@.subrange(0, i as int));
        }
        if chars[i] == '"' {
            out.push('"');
            out.push('"');
        } else {
            out.push(chars[i]);
        }
        i += 1;
    }
    proof {
        assert(chars@.subrange(0, chars@.len() as int) =~= chars@);
    }
    to_text(out.as_slice())
}

/// The CSV row of a successful reply.
pub fn csv_row(timestamp: &str, command: &str, response: &str) -> (r: String)
    ensures
        r@ == csv_row_text(timestamp@, command@, response@),
{
    let quoted = double_quotes(response);
    String::from_str(timestamp).concat(",").concat(command).concat(",success,\"").concat(
        quoted.as_str(),
    ).concat("\"")
}

/// What is put out for a reply.
#[derive(Debug, Clone, PartialEq, Eq)]
pub enum Shown {
    /// Nothing: output is switched off.
    Nothing,
    /// These lines, one after the other.
    Lines(Vec<String>),
    /// This envelope, as JSON.
    Envelope(JsonResponse),
}

/// Mathematical content of a [`Shown`].
pub enum ShownView {
    Nothing,
    Lines(Seq<Seq<char>>),
    Envelope(ResponseView),
}

impl View for Shown {
    type V = ShownView;

    open spec fn view(&self) -> ShownView {
        match self {
            Shown::Nothing => ShownView::Nothing,
            Shown::Lines(lines) => ShownView::Lines(words_of(lines@)),
            Shown::Envelope(envelope) => ShownView::Envelope(envelope@),
        }
    }
}

/// What is put out for a reply that is printed as it is: nothing where
/// output is switched off, else the title with a colon and the reply.
pub open spec fn shown_plain(quiet: bool, title: Seq<char>, response: Seq<char>) -> ShownView {
    if quiet {
        ShownView::Nothing
    } else {
        ShownView::Lines(seq![title + ":"@, response])
    }
}

/// What is put out for a reply in the format that was asked for: nothing
/// where output is switched off; for a reader the title and the reply; as
/// JSON the envelope of the classified reply; as CSV the header and one row.
pub open spec fn shown_response(
    quiet: bool,
    format: OutputFormat,
    command: Seq<char>,
    response: Seq<char>,
    title: Seq<char>,
    timestamp_ms: i64,
    timestamp: Seq<char>,
) -> ShownView {
    if quiet {
        ShownView::Nothing
    } else {
        match format {
            OutputFormat::Human => shown_plain(false, title, response),
            OutputFormat::Json => ShownView::Envelope(
                ResponseView {
                    timestamp_ms,
                    command,
                    status: "success"@,
                    data: DataView::Record(classified(command, response)),
                    raw_response: Some(response),
                },
            ),
            OutputFormat::Csv => ShownView::Lines(
                seq![CSV_HEADER@, csv_row_text(timestamp, command, response)],
            ),
        }
    }
}

fn two_lines(first: String, second: String) -> (r: Vec<String>)
    ensures
        words_of(r@) == seq![first@, second@],
{
    let mut lines: Vec<String> = Vec::new();
    lines.push(first);
    lines.push(second);
    proof {
        assert(words_of(lines@) =~= seq![first@, second@]);
    }
    lines
}

/// What is put out for a reply that is printed as it is.
pub fn plain_response(quiet: bool, title: &str, response: &str) -> (r: Shown)
    ensures
        r@ == shown_plain(quiet, title@, response@),
{
    if quiet {
        Shown::Nothing
    } else {
        Shown::Lines(two_lines(String::from_str(title).concat(":"), String::from_str(response)))
    }
}

/// What is put out for a reply in the format that was asked for. The time
/// is given twice: in milliseconds for the envelope, as text for the row.
pub fn output_response(
    quiet: bool,
    format: OutputFormat,
    command: &str,
    response: &str,
    title: &str,
    timestamp_ms: i64,
    timestamp: &str,
) -> (r: Shown)
    ensures
        r@ == shown_response(
            quiet,
            format,
            command@,
            response@,
            title@,
            timestamp_ms,
            timestamp@,
        ),
{
    if quiet {
        return Shown::Nothing;
    }
    match format {
        OutputFormat::Human => plain_response(false, title, response),
        OutputFormat::Json => {
            let record = ResponseParser::classify(command, response);
            Shown::Envelope(JsonResponse::success_with_raw(command, record, response, timestamp_ms))
        },
        OutputFormat::Csv => Shown::Lines(
            two_lines(String::from_str(CSV_HEADER), csv_row(timestamp, command, response)),
        ),
    }
}

} // verus!
