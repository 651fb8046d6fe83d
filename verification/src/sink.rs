//! What a sink writes for a record, and the steps by which a sink that keeps
//! one remote file per month brings a record into the file of its month.

use crate::bot::{Bot, KoinlyData, RecordText};
use vstd::prelude::*;
use vstd::string::*;

verus! {

/// The texts of a list of strings.
pub open spec fn texts(cells: Seq<String>) -> Seq<Seq<char>> {
    Seq::new(cells.len(), |i: int| cells[i]@)
}

/// The texts of a list of rows.
pub open spec fn rows_text(rows: Seq<Vec<String>>) -> Seq<Seq<Seq<char>>> {
    Seq::new(rows.len(), |i: int| texts(rows[i]@))
}

/// The titles of the eight columns, in the order of the columns.
pub open spec fn header_text() -> Seq<Seq<char>> {
    seq![
        "Date"@,
        "Sent Amount"@,
        "Sent Currency"@,
        "Received Amount"@,
        "Received Currency"@,
        "Fee Amount"@,
        "Fee Currency"@,
        "TxHash"@,
    ]
}

/// The eight cells of a record, in the order of the columns.
pub open spec fn row_text(record: RecordText) -> Seq<Seq<char>> {
    seq![
        record.date,
        record.amount_in,
        record.amount_in_symbol,
        record.amount_out,
        record.amount_out_symbol,
        record.fee,
        record.fee_symbol,
        record.tx_hash,
    ]
}

/// The titles of the eight columns.
pub fn header_row() -> (r: Vec<String>)
    ensures
        texts(r@) == header_text(),
{
    let mut r: Vec<String> = Vec::new();
    r.push("Date".to_owned());
    r.push("Sent Amount".to_owned());
    r.push("Sent Currency".to_owned());
    r.push("Received Amount".to_owned());
    r.push("Received Currency".to_owned());
    r.push("Fee Amount".to_owned());
    r.push("Fee Currency".to_owned());
    r.push("TxHash".to_owned());
    assert(texts(r@) =~= header_text());
    r
}

impl KoinlyData {
    /// The eight cells of the record, in the order of the columns.
    pub fn to_row(&self) -> (r: Vec<String>)
        ensures
            texts(r@) == row_text(self@),
    {
        let mut r: Vec<String> = Vec::new();
        r.push(self.date.clone());
        r.push(self.amount_in.clone());
        r.push(self.amount_in_symbol.clone());
        r.push(self.amount_out.clone());
        r.push(self.amount_out_symbol.clone());
        r.push(self.fee.clone());
        r.push(self.fee_symbol.clone());
        r.push(self.tx_hash.clone());
        assert(texts(r@) =~= row_text(self@));
        r
    }
}

impl Bot {
    /// Write liquidation data into the table of the export: one row more,
    /// at the end, whether or not the table holds the same row already.
    pub fn write_to_koinly_csv(&self, table: &mut Vec<Vec<String>>, data: &KoinlyData)
        ensures
            rows_text(final(table)@) == rows_text(old(table)@).push(row_text(data@)),
    {
        table.push(data.to_row());
        assert(rows_text(table@) =~= rows_text(old(table)@).push(row_text(data@)));
    }
}

/// Whether a character is a decimal digit.
pub open spec fn is_digit(c: char) -> bool {
    '0' <= c && c <= '9'
}

/// Whether a date starts with a year of four digits, a hyphen and a month
/// of two digits.
pub open spec fn starts_with_month(date: Seq<char>) -> bool {
    &&& date.len() >= 7
    &&& is_digit(date[0])
    &&& is_digit(date[1])
    &&& is_digit(date[2])
    &&& is_digit(date[3])
    &&& date[4] == '-'
    &&& is_digit(date[5])
    &&& is_digit(date[6])
}

/// The name of the month file of a date: its year and month, `YYYY-MM`.
pub open spec fn month_name(date: Seq<char>) -> Option<Seq<char>> {
    if starts_with_month(date) {
        Some(date.subrange(0, 7))
    } else {
        None
    }
}

fn digit_at(date: &str, i: usize) -> (r: bool)
    requires
        i < date@.len(),
    ensures
        r == is_digit(date@[i as int]),
{
    let c = date.get_char(i);
    '0' <= c && c <= '9'
}

/// The name of the month file of a record's date, or `None` for a date that
/// does not start with a year of four digits and a month.
pub fn month_of(date: &str) -> (r: Option<String>)
    ensures
        r matches Some(name) ==> month_name(date@) == Some(name@),
        r is None ==> month_name(date@) is None,
{
    if date.unicode_len() < 7 {
        return None;
    }
    if digit_at(date, 0) && digit_at(date, 1) && digit_at(date, 2) && digit_at(date, 3)
        && date.get_char(4) == '-' && digit_at(date, 5) && digit_at(date, 6) {
        Some(date.substring_char(0, 7).to_owned())
    } else {
        None
    }
}

/// The two kinds of sink.
#[derive(Clone, Copy, Debug, PartialEq, Eq, Structural)]
pub enum SinkKind {
    /// Appends every row to one destination.
    RowWriter,
    /// Keeps one remote file per month.
    BucketedRemote,
}

/// A failure to bring a record out. The caller may try again or give up.
#[derive(Clone, Copy, Debug, PartialEq, Eq, Structural)]
pub enum OutputError {
    /// The record's date names no month.
    UndatedRecord,
    /// The destination refused or failed.
    Destination,
    /// The destination answered what was not asked.
    UnexpectedAnswer,
}

/// Where the emission of one record stands.
#[derive(Clone, Copy, Debug, PartialEq, Eq, Structural)]
pub enum SinkPhase {
    /// Waiting to hear whether the month file exists.
    Finding,
    /// Waiting for the month file to be created.
    Creating,
    /// Waiting for the rows to be appended.
    Appending,
    /// Nothing more to do for this record.
    Finished,
}

/// What the destination answered.
#[derive(Clone, Copy, Debug, PartialEq, Eq, Structural)]
pub enum SinkEvent {
    /// A file of the name asked for exists.
    Found,
    /// No file of the name asked for exists.
    Missing,
    /// The file was created.
    Created,
    /// The rows were appended.
    Appended,
    /// The request failed.
    Failed,
}

/// What to ask of the destination next.
#[derive(Clone, Debug)]
pub enum SinkAction {
    /// Ask whether a file of this name exists.
    FindFile(String),
    /// Create an empty file of this name.
    CreateFile(String),
    /// Append these rows, in order, to the destination: for a sink by
    /// month, to the file just found or created.
    AppendRows(Vec<Vec<String>>),
    /// The record is out.
    Done,
    /// The record is not out.
    Fail(OutputError),
}

/// A `SinkAction` with its strings taken as texts.
pub ghost enum ActionText {
    FindFile(Seq<char>),
    CreateFile(Seq<char>),
    AppendRows(Seq<Seq<Seq<char>>>),
    Done,
    Fail(OutputError),
}

impl View for SinkAction {
    type V = ActionText;

    open spec fn view(&self) -> ActionText {
        match self {
            SinkAction::FindFile(name) => ActionText::FindFile(name@),
            SinkAction::CreateFile(name) => ActionText::CreateFile(name@),
            SinkAction::AppendRows(rows) => ActionText::AppendRows(rows_text(rows@)),
            SinkAction::Done => ActionText::Done,
            SinkAction::Fail(e) => ActionText::Fail(*e),
        }
    }
}

/// The first step for a record: a row writer appends its row at once, a
/// sink by month first asks for the file of the record's month.
pub open spec fn first_step(kind: SinkKind, record: RecordText) -> (SinkPhase, ActionText) {
    match kind {
        SinkKind::RowWriter => (
            SinkPhase::Appending,
            ActionText::AppendRows(seq![row_text(record)]),
        ),
        SinkKind::BucketedRemote => match month_name(record.date) {
            Some(name) => (SinkPhase::Finding, ActionText::FindFile(name)),
            None => (SinkPhase::Finished, ActionText::Fail(OutputError::UndatedRecord)),
        },
    }
}

/// The step that follows an answer of the destination. A file that exists
/// gets the record's row; a file that is missing is created and then gets
/// the header and the record's row.
pub open spec fn next_step(phase: SinkPhase, event: SinkEvent, record: RecordText) -> (
    SinkPhase,
    ActionText,
) {
    match (phase, event) {
        (SinkPhase::Finished, _) => (
            SinkPhase::Finished,
            ActionText::Fail(OutputError::UnexpectedAnswer),
        ),
        (_, SinkEvent::Failed) => (SinkPhase::Finished, ActionText::Fail(OutputError::Destination)),
        (SinkPhase::Finding, SinkEvent::Found) => (
            SinkPhase::Appending,
            ActionText::AppendRows(seq![row_text(record)]),
        ),
        (SinkPhase::Finding, SinkEvent::Missing) => match month_name(record.date) {
            Some(name) => (SinkPhase::Creating, ActionText::CreateFile(name)),
            None => (SinkPhase::Finished, ActionText::Fail(OutputError::UndatedRecord)),
        },
        (SinkPhase::Creating, SinkEvent::Created) => (
            SinkPhase::Appending,
            ActionText::AppendRows(seq![header_text(), row_text(record)]),
        ),
        (SinkPhase::Appending, SinkEvent::Appended) => (SinkPhase::Finished, ActionText::Done),
        _ => (SinkPhase::Finished, ActionText::Fail(OutputError::UnexpectedAnswer)),
    }
}

fn one_row(record: &KoinlyData) -> (r: Vec<Vec<String>>)
    ensures
        rows_text(r@) == seq![row_text(record@)],
{
    let mut rows: Vec<Vec<String>> = Vec::new();
    rows.push(record.to_row());
    assert(rows_text(rows@) =~= seq![row_text(record@)]);
    rows
}

fn header_and_row(record: &KoinlyData) -> (r: Vec<Vec<String>>)
    ensures
        rows_text(r@) == seq![header_text(), row_text(record@)],
{
    let mut rows: Vec<Vec<String>> = Vec::new();
    rows.push(header_row());
    rows.push(record.to_row());
    assert(rows_text(rows@) =~= seq![header_text(), row_text(record@)]);
    rows
}

/// Starts the emission of a record.
pub fn begin_emit(kind: SinkKind, record: &KoinlyData) -> (r: (SinkPhase, SinkAction))
    ensures
        (r.0, r.1@) == first_step(kind, record@),
{
    match kind {
        SinkKind::RowWriter => (SinkPhase::Appending, SinkAction::AppendRows(one_row(record))),
        SinkKind::BucketedRemote => match month_of(record.date.as_str()) {
            Some(name) => (SinkPhase::Finding, SinkAction::FindFile(name)),
            None => (SinkPhase::Finished, SinkAction::Fail(OutputError::UndatedRecord)),
        },
    }
}

/// Goes on with the emission of a record after an answer of the destination.
pub fn continue_emit(phase: SinkPhase, event: SinkEvent, record: &KoinlyData) -> (r: (
    SinkPhase,
    SinkAction,
))
    ensures
        (r.0, r.1@) == next_step(phase, event, record@),
{
    match phase {
        SinkPhase::Finished => (
            SinkPhase::Finished,
            SinkAction::Fail(OutputError::UnexpectedAnswer),
        ),
        SinkPhase::Finding => match event {
            SinkEvent::Failed => (SinkPhase::Finished, SinkAction::Fail(OutputError::Destination)),
            SinkEvent::Found => (SinkPhase::Appending, SinkAction::AppendRows(one_row(record))),
            SinkEvent::Missing => match month_of(record.date.as_str()) {
                Some(name) => (SinkPhase::Creating, SinkAction::CreateFile(name)),
                None => (SinkPhase::Finished, SinkAction::Fail(OutputError::UndatedRecord)),
            },
            _ => (SinkPhase::Finished, SinkAction::Fail(OutputError::UnexpectedAnswer)),
        },
        SinkPhase::Creating => match event {
            SinkEvent::Failed => (SinkPhase::Finished, SinkAction::Fail(OutputError::Destination)),
            SinkEvent::Created => (
                SinkPhase::Appending,
                SinkAction::AppendRows(header_and_row(record)),
            ),
            _ => (SinkPhase::Finished, SinkAction::Fail(OutputError::UnexpectedAnswer)),
        },
        SinkPhase::Appending => match event {
            SinkEvent::Failed => (SinkPhase::Finished, SinkAction::Fail(OutputError::Destination)),
            SinkEvent::Appended => (SinkPhase::Finished, SinkAction::Done),
            _ => (SinkPhase::Finished, SinkAction::Fail(OutputError::UnexpectedAnswer)),
        },
    }
}

/// The files of a remote folder: the rows of each file, by the file's name.
pub type Folder = Map<Seq<char>, Seq<Seq<Seq<char>>>>;

/// A folder that does what it is asked, and the steps of a sink by month
/// on it: what the folder holds once the steps have ended, and what they
/// ended with. `current` is the name of the file found or created last.
pub open spec fn run_on_folder(
    folder: Folder,
    current: Seq<char>,
    phase: SinkPhase,
    action: ActionText,
    record: RecordText,
    steps: nat,
) -> (Folder, ActionText)
    decreases steps,
{
    if steps == 0 {
        (folder, action)
    } else {
        match action {
            ActionText::FindFile(name) => {
                let event = if folder.dom().contains(name) {
                    SinkEvent::Found
                } else {
                    SinkEvent::Missing
                };
                let next = next_step(phase, event, record);
                run_on_folder(folder, name, next.0, next.1, record, (steps - 1) as nat)
            },
            ActionText::CreateFile(name) => {
                let next = next_step(phase, SinkEvent::Created, record);
                run_on_folder(
                    folder.insert(name, Seq::empty()),
                    name,
                    next.0,
                    next.1,
                    record,
                    (steps - 1) as nat,
                )
            },
            ActionText::AppendRows(rows) => {
                let next = next_step(phase, SinkEvent::Appended, record);
                let before = if folder.dom().contains(current) {
                    folder[current]
                } else {
                    Seq::empty()
                };
                run_on_folder(
                    folder.insert(current, before + rows),
                    current,
                    next.0,
                    next.1,
                    record,
                    (steps - 1) as nat,
                )
            },
            ActionText::Done => (folder, action),
            ActionText::Fail(_) => (folder, action),
        }
    }
}

/// Emitting a record into a folder that has no file for the record's month
/// ends well and leaves the folder with one file more, named by the month,
/// that holds the header and then the record's row. Emitting it into a
/// folder that has the file ends well and adds the record's row, and
/// nothing else, at the end of that file. No other file changes.
pub proof fn lemma_emit_creates_or_appends(folder: Folder, record: RecordText)
    requires
        month_name(record.date) is Some,
    ensures
        ({
            let name = month_name(record.date).unwrap();
            let start = first_step(SinkKind::BucketedRemote, record);
            let end = run_on_folder(folder, Seq::empty(), start.0, start.1, record, 4);
            &&& end.1 == ActionText::Done
            &&& !folder.dom().contains(name) ==> end.0 == folder.insert(
                name,
                seq![header_text(), row_text(record)],
            )
            &&& folder.dom().contains(name) ==> end.0 == folder.insert(
                name,
                folder[name] + seq![row_text(record)],
            )
        }),
{
    reveal_with_fuel(run_on_folder, 5);
    let name = month_name(record.date).unwrap();
    let start = first_step(SinkKind::BucketedRemote, record);
    let end = run_on_folder(folder, Seq::empty(), start.0, start.1, record, 4);
    if !folder.dom().contains(name) {
        let created = folder.insert(name, Seq::empty());
        assert(Seq::<Seq<Seq<char>>>::empty() + seq![header_text(), row_text(record)]
            =~= seq![header_text(), row_text(record)]);
        assert(created.insert(name, seq![header_text(), row_text(record)]) =~= folder.insert(
            name,
            seq![header_text(), row_text(record)],
        ));
    }
}

} // verus!
