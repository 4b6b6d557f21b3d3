//! The record-file codec: converting between the persisted tabular records
//! and a [`CountdownList`], in both directions.
//!
//! The file is a table of text fields. Its header row carries the selected
//! index in field 0 (defaulting to 0 where the field is missing or not a
//! plain decimal number, and clamped into range after the load); each data
//! row holds a countdown as `name`, `background_color`, `foreground_color`
//! (six hexadecimal digits each) and an RFC 3339-like `datetime` with an
//! explicit offset. The first malformed data row aborts the whole load.

use vstd::prelude::*;

use crate::clock::{epoch_of_text, format_datetime, parse_datetime};
use crate::codec::{
    color_of_hex, format_hex_color, format_index, index_of_text, lemma_color_of_hex_bound,
    lemma_hex_color_round_trip, lemma_index_round_trip, parse_hex_color, parse_index,
    text_of_index,
};
use crate::countdown::{Countdown, CountdownModel};
use crate::list::{CountdownList, CountdownListModel};

verus! {

/// What was wrong with a malformed field.
#[derive(Debug, Clone, Copy, PartialEq, Eq, Structural)]
pub enum ParseFault {
    /// The row does not have exactly four fields.
    WrongFieldCount,
    /// The name field is empty.
    EmptyName,
    /// A color field is not six hexadecimal digits.
    BadColor,
    /// The datetime field is not a parsable timestamp.
    BadDateTime,
}

/// The first malformed field of a record file: the data row (0-based, the
/// header not counted), the field within it, and the fault. For a row with
/// the wrong field count the field is 0.
#[derive(Debug, Clone, Copy, PartialEq, Eq, Structural)]
pub struct ParseError {
    pub row: usize,
    pub field: usize,
    pub fault: ParseFault,
}

/// The raw content of the record file: the header row and the data rows,
/// each a sequence of text fields.
#[derive(Debug, Clone, PartialEq)]
pub struct RecordFile {
    pub header: Vec<String>,
    pub rows: Vec<Vec<String>>,
}

/// The mathematical content of a [`RecordFile`].
#[verifier::ext_equal]
pub ghost struct RecordFileModel {
    pub header: Seq<Seq<char>>,
    pub rows: Seq<Seq<Seq<char>>>,
}

impl View for RecordFile {
    type V = RecordFileModel;

    open spec fn view(&self) -> RecordFileModel {
        RecordFileModel {
            header: self.header@.map_values(|s: String| s@),
            rows: self.rows@.map_values(|r: Vec<String>| r@.map_values(|s: String| s@)),
        }
    }
}

/// The countdown a data row denotes, or the first malformed field (its index
/// and fault).
pub open spec fn parse_row(row: Seq<Seq<char>>) -> Result<CountdownModel, (usize, ParseFault)> {
    if row.len() != 4 {
        Err((0, ParseFault::WrongFieldCount))
    } else if row[0].len() == 0 {
        Err((0, ParseFault::EmptyName))
    } else if color_of_hex(row[1]) is None {
        Err((1, ParseFault::BadColor))
    } else if color_of_hex(row[2]) is None {
        Err((2, ParseFault::BadColor))
    } else if epoch_of_text(row[3]) is None {
        Err((3, ParseFault::BadDateTime))
    } else {
        Ok(
            CountdownModel {
                name: row[0],
                background_color: color_of_hex(row[1])->Some_0,
                foreground_color: color_of_hex(row[2])->Some_0,
                target_time: epoch_of_text(row[3])->Some_0,
            },
        )
    }
}

/// The countdowns the data rows denote, in order, or the first error.
pub open spec fn parse_rows(rows: Seq<Seq<Seq<char>>>) -> Result<Seq<CountdownModel>, ParseError>
    decreases rows.len(),
{
    if rows.len() == 0 {
        Ok(Seq::empty())
    } else {
        match parse_rows(rows.drop_last()) {
            Ok(entries) => match parse_row(rows.last()) {
                Ok(c) => Ok(entries.push(c)),
                Err(e) => Err(
                    ParseError { row: (rows.len() - 1) as usize, field: e.0, fault: e.1 },
                ),
            },
            Err(e) => Err(e),
        }
    }
}

/// The selected index the header row denotes: field 0 as a decimal number,
/// defaulting to 0 where the field is missing, not all digits, or too large
/// to represent.
pub open spec fn header_index(header: Seq<Seq<char>>) -> nat {
    if header.len() == 0 {
        0
    } else {
        match index_of_text(header[0]) {
            Some(v) => if v <= usize::MAX { v } else { 0 },
            None => 0,
        }
    }
}

/// Clamps a stored index into the range of a list of length `len` (0 on the
/// empty list).
pub open spec fn clamp_index(i: nat, len: nat) -> nat {
    if len == 0 {
        0
    } else if i < len {
        i
    } else {
        (len - 1) as nat
    }
}

/// What loading yields: a missing file (`None`) is the empty list, not an
/// error; otherwise the parsed entries with the clamped header index, or the
/// first parse error.
pub open spec fn load_spec(file: Option<RecordFileModel>) -> Result<CountdownListModel, ParseError> {
    match file {
        None => Ok(CountdownListModel { entries: Seq::empty(), selected_index: 0 }),
        Some(f) => match parse_rows(f.rows) {
            Ok(entries) => Ok(
                CountdownListModel {
                    entries,
                    selected_index: clamp_index(header_index(f.header), entries.len()) as int,
                },
            ),
            Err(e) => Err(e),
        },
    }
}

/// The content handed to [`load`]: `None` where the file is missing.
pub open spec fn file_model(file: Option<&RecordFile>) -> Option<RecordFileModel> {
    match file {
        None => None,
        Some(f) => Some(f@),
    }
}

/// Converts one data row into a countdown, or reports its first malformed
/// field.
pub fn parse_data_row(row: &Vec<String>) -> (r: Result<Countdown, (usize, ParseFault)>)
    ensures
        match r {
            Ok(c) => parse_row(row@.map_values(|s: String| s@)) == Ok::<
                CountdownModel,
                (usize, ParseFault),
            >(c@) && c@.wf(),
            Err(e) => parse_row(row@.map_values(|s: String| s@)) == Err::<
                CountdownModel,
                (usize, ParseFault),
            >(e),
        },
{
    let ghost rowm = row@.map_values(|s: String| s@);
    if row.len() != 4 {
        return Err((0, ParseFault::WrongFieldCount));
    }
    if row[0].as_str().is_empty() {
        return Err((0, ParseFault::EmptyName));
    }
    let background_color = match parse_hex_color(row[1].as_str()) {
        Some(v) => v,
        None => {
            return Err((1, ParseFault::BadColor));
        },
    };
    let foreground_color = match parse_hex_color(row[2].as_str()) {
        Some(v) => v,
        None => {
            return Err((2, ParseFault::BadColor));
        },
    };
    let target_time = match parse_datetime(row[3].as_str()) {
        Some(t) => t,
        None => {
            return Err((3, ParseFault::BadDateTime));
        },
    };
    proof {
        lemma_color_of_hex_bound(rowm[1]);
        lemma_color_of_hex_bound(rowm[2]);
    }
    Ok(
        Countdown {
            name: row[0].clone(),
            background_color,
            foreground_color,
            target_time,
        },
    )
}

/// An error at data row `i` is the error of the whole parse, provided every
/// earlier row parses.
proof fn lemma_parse_rows_first_err(rows: Seq<Seq<Seq<char>>>, i: int)
    requires
        0 <= i < rows.len(),
        parse_rows(rows.take(i)) is Ok,
        parse_row(rows[i]) is Err,
    ensures
        ({
            let e = parse_row(rows[i])->Err_0;
            parse_rows(rows) == Err::<Seq<CountdownModel>, ParseError>(
                ParseError { row: i as usize, field: e.0, fault: e.1 },
            )
        }),
    decreases rows.len(),
{
    if i == rows.len() - 1 {
        assert(rows.drop_last() =~= rows.take(i));
    } else {
        assert(rows.drop_last().take(i) =~= rows.take(i));
        assert(rows.drop_last()[i] == rows[i]);
        lemma_parse_rows_first_err(rows.drop_last(), i);
    }
}

/// Loads the record file. A missing file yields the empty list; the first
/// malformed data row aborts the load with its error, exposing no entries.
#[verifier::rlimit(50)]
pub fn load(file: Option<&RecordFile>) -> (r: Result<CountdownList, ParseError>)
    ensures
        match r {
            Ok(list) => load_spec(file_model(file)) == Ok::<CountdownListModel, ParseError>(list@)
                && list.wf(),
            Err(e) => load_spec(file_model(file)) == Err::<CountdownListModel, ParseError>(e),
        },
{
    let f = match file {
        None => {
            let list = CountdownList::new();
            proof {
                assert(load_spec(file_model(file))->Ok_0 =~= list@);
            }
            return Ok(list);
        },
        Some(f) => f,
    };
    proof {
        assert(file_model(file) == Some(f@));
    }
    let ghost rowsm = f@.rows;
    let mut entries: Vec<Countdown> = Vec::new();
    let mut i: usize = 0;
    proof {
        assert(rowsm.take(0) =~= Seq::<Seq<Seq<char>>>::empty());
        assert(entries@.map_values(|c: Countdown| c@) =~= Seq::<CountdownModel>::empty());
    }
    while i < f.rows.len()
        invariant
            0 <= i <= f.rows.len(),
            file_model(file) == Some(f@),
            rowsm == f@.rows,
            rowsm.len() == f.rows.len(),
            parse_rows(rowsm.take(i as int)) == Ok::<Seq<CountdownModel>, ParseError>(
                entries@.map_values(|c: Countdown| c@),
            ),
            forall|j: int| 0 <= j < entries.len() ==> (#[trigger] entries[j])@.wf(),
        decreases f.rows.len() - i,
    {
        proof {
            assert(rowsm.take(i + 1).drop_last() =~= rowsm.take(i as int));
            assert(rowsm.take(i + 1).last() == rowsm[i as int]);
            assert(rowsm[i as int] == f.rows@[i as int]@.map_values(|s: String| s@));
        }
        let ghost sofar = entries@;
        match parse_data_row(&f.rows[i]) {
            Ok(c) => {
                entries.push(c);
                proof {
                    assert(entries@.map_values(|e: Countdown| e@) =~= sofar.map_values(
                        |e: Countdown| e@,
                    ).push(c@));
                }
            },
            Err((field, fault)) => {
                proof {
                    lemma_parse_rows_first_err(rowsm, i as int);
                }
                return Err(ParseError { row: i, field, fault });
            },
        }
        i = i + 1;
    }
    proof {
        assert(rowsm.take(f.rows.len() as int) =~= rowsm);
    }
    let stored = parse_header_index(&f.header);
    let selected_index = if entries.len() == 0 {
        0
    } else if stored < entries.len() {
        stored
    } else {
        entries.len() - 1
    };
    let list = CountdownList { entries, selected_index };
    proof {
        assert(load_spec(file_model(file))->Ok_0 =~= list@);
    }
    Ok(list)
}

/// Reads the selected index from the header row, with the default of 0.
fn parse_header_index(header: &Vec<String>) -> (r: usize)
    ensures
        r as nat == header_index(header@.map_values(|s: String| s@)),
{
    if header.len() == 0 {
        return 0;
    }
    match parse_index(header[0].as_str()) {
        Some(v) => v,
        None => 0,
    }
}

/// Every row encoding the matching entry makes the whole parse succeed.
proof fn lemma_parse_rows_all_ok(rows: Seq<Seq<Seq<char>>>, entries: Seq<CountdownModel>)
    requires
        rows.len() == entries.len(),
        forall|j: int|
            0 <= j < rows.len() ==> parse_row(#[trigger] rows[j]) == Ok::<
                CountdownModel,
                (usize, ParseFault),
            >(entries[j]),
    ensures
        parse_rows(rows) == Ok::<Seq<CountdownModel>, ParseError>(entries),
    decreases rows.len(),
{
    if rows.len() == 0 {
        assert(entries =~= Seq::<CountdownModel>::empty());
    } else {
        lemma_parse_rows_all_ok(rows.drop_last(), entries.drop_last());
        assert(entries.drop_last().push(entries.last()) =~= entries);
    }
}

/// Serializes a list into record-file content: the header carries the
/// selected index, and each countdown becomes one data row in order. Loading
/// the result reproduces the list exactly.
pub fn save(list: &CountdownList) -> (r: RecordFile)
    requires
        list.wf(),
    ensures
        load_spec(Some(r@)) == Ok::<CountdownListModel, ParseError>(list@),
        r@.rows.len() == list@.entries.len(),
{
    let ghost entriesm = list@.entries;
    let mut header: Vec<String> = Vec::new();
    header.push(format_index(list.selected_index));
    header.push(String::new());
    header.push(String::new());
    header.push(String::new());
    let mut rows: Vec<Vec<String>> = Vec::new();
    let mut i: usize = 0;
    while i < list.entries.len()
        invariant
            0 <= i <= list.entries.len(),
            entriesm == list@.entries,
            entriesm.len() == list.entries.len(),
            rows.len() == i,
            list.wf(),
            forall|j: int|
                0 <= j < i ==> parse_row(
                    (#[trigger] rows@[j])@.map_values(|s: String| s@),
                ) == Ok::<CountdownModel, (usize, ParseFault)>(entriesm[j]),
        decreases list.entries.len() - i,
    {
        let c = &list.entries[i];
        proof {
            assert(c@ == entriesm[i as int]);
            assert(entriesm[i as int].wf());
        }
        let mut row: Vec<String> = Vec::new();
        row.push(c.name.clone());
        row.push(format_hex_color(c.background_color));
        row.push(format_hex_color(c.foreground_color));
        row.push(format_datetime(c.target_time));
        proof {
            lemma_hex_color_round_trip(c.background_color);
            lemma_hex_color_round_trip(c.foreground_color);
            let rowm = row@.map_values(|s: String| s@);
            assert(rowm.len() == 4);
            assert(rowm[0] == c.name@);
            assert(parse_row(rowm) == Ok::<CountdownModel, (usize, ParseFault)>(entriesm[i as int]));
        }
        rows.push(row);
        i = i + 1;
    }
    let r = RecordFile { header, rows };
    proof {
        let rowsm = r@.rows;
        assert forall|j: int| 0 <= j < rowsm.len() implies parse_row(#[trigger] rowsm[j]) == Ok::<
            CountdownModel,
            (usize, ParseFault),
        >(entriesm[j]) by {
            assert(rowsm[j] == (rows@[j])@.map_values(|s: String| s@));
        }
        lemma_parse_rows_all_ok(rowsm, entriesm);
        lemma_index_round_trip(list.selected_index as nat);
        assert(r@.header[0] == text_of_index(list.selected_index as nat));
        assert(load_spec(Some(r@))->Ok_0 =~= list@);
    }
    r
}

} // verus!
