//! The output of the external frame-timing helper: comma-separated lines,
//! a header that names the columns, then one row per presented frame.

use crate::decimal::{decimal_text, parse_micros, reading_of, to_decimal, FrameReading};
use crate::text::{first_index_of, lemma_first_index_of, range_equals, trim_bounds, trimmed};
use vstd::prelude::*;
use vstd::string::StringSliceAdditionalSpecFns;

verus! {

/// The byte that separates the fields of a line: a comma.
pub const SEPARATOR: u8 = 44;

/// The fields of a line: the stretches between separators, in order. A
/// line without a separator is one field, also where it is empty.
pub open spec fn fields(line: Seq<u8>) -> Seq<Seq<u8>>
    decreases line.len(),
{
    let cut = first_index_of(line, SEPARATOR);
    if 0 <= cut < line.len() {
        seq![line.take(cut)] + fields(line.skip(cut + 1))
    } else {
        seq![line]
    }
}

/// The bounds of each field of `line`, in order.
pub fn split_fields(line: &[u8]) -> (bounds: Vec<(usize, usize)>)
    ensures
        bounds@.len() == fields(line@).len(),
        forall|i: int|
            #![trigger bounds@[i]]
            0 <= i < bounds@.len() ==> bounds@[i].0 <= bounds@[i].1 <= line@.len() && fields(
                line@,
            )[i] == line@.subrange(bounds@[i].0 as int, bounds@[i].1 as int),
{
    let n: usize = line.len();
    let mut bounds: Vec<(usize, usize)> = Vec::new();
    let mut start: usize = 0;
    let mut done: bool = false;
    let ghost mut found: Seq<Seq<u8>> = Seq::empty();
    proof {
        assert(line@.skip(0) =~= line@);
        assert(found + fields(line@.skip(0)) =~= fields(line@));
    }
    while !done
        invariant
            n == line@.len(),
            start <= n,
            found.len() == bounds@.len(),
            !done ==> fields(line@) == found + fields(line@.skip(start as int)),
            done ==> fields(line@) == found,
            forall|i: int|
                #![trigger bounds@[i]]
                0 <= i < bounds@.len() ==> bounds@[i].0 <= bounds@[i].1 <= n && found[i]
                    == line@.subrange(bounds@[i].0 as int, bounds@[i].1 as int),
        decreases n - start + if done { 0int } else { 1int },
    {
        let mut end: usize = start;
        while end < n && line[end] != SEPARATOR
            invariant
                n == line@.len(),
                start <= end <= n,
                forall|j: int| start <= j < end ==> line@[j] != SEPARATOR,
            decreases n - end,
        {
            end += 1;
        }
        proof {
            let rest = line@.skip(start as int);
            assert forall|j: int| 0 <= j < end - start implies rest[j] != SEPARATOR by {
                assert(rest[j] == line@[start + j]);
            }
            lemma_first_index_of(rest, SEPARATOR, end - start);
            assert(rest.take(end - start) =~= line@.subrange(start as int, end as int));
            if end < n {
                assert(rest.skip(end - start + 1) =~= line@.skip(end + 1));
                assert(found + (seq![rest.take(end - start)] + fields(line@.skip(end + 1)))
                    =~= found.push(line@.subrange(start as int, end as int)) + fields(
                    line@.skip(end + 1),
                ));
            } else {
                assert(rest =~= line@.subrange(start as int, end as int));
                assert(found + seq![rest] =~= found.push(
                    line@.subrange(start as int, end as int),
                ));
            }
            found = found.push(line@.subrange(start as int, end as int));
        }
        bounds.push((start, end));
        if end < n {
            start = end + 1;
        } else {
            done = true;
        }
    }
    bounds
}

/// Name of the column that holds the time between two presented frames, in
/// milliseconds.
pub const TIMING_COLUMN: &'static str = "MsBetweenPresents";

/// Whether `field`, white space at its ends aside, is the name of the
/// timing column.
pub open spec fn names_timing(field: Seq<u8>) -> bool {
    trimmed(field) == TIMING_COLUMN.spec_bytes()
}

/// Whether `column` is what a header search of `line` yields: the position
/// of the first field that names the timing column, or `None` where no
/// field does.
pub open spec fn is_timing_column_of(line: Seq<u8>, column: Option<usize>) -> bool {
    match column {
        Some(c) => {
            &&& c < fields(line).len()
            &&& names_timing(fields(line)[c as int])
            &&& forall|j: int| 0 <= j < c ==> !names_timing(#[trigger] fields(line)[j])
        },
        None => forall|j: int|
            0 <= j < fields(line).len() ==> !names_timing(#[trigger] fields(line)[j]),
    }
}

/// The frame time in field `column` of the row `line`; `None` where the
/// row has no such field, or the field is no decimal number, or the time in
/// microseconds does not fit in a `u64`.
pub open spec fn row_reading(line: Seq<u8>, column: usize) -> Option<FrameReading> {
    if column < fields(line).len() {
        reading_of(trimmed(fields(line)[column as int]))
    } else {
        None
    }
}

/// Searches a line for the timing column and returns its position among
/// the fields.
pub fn find_timing_column(line: &[u8]) -> (column: Option<usize>)
    ensures
        is_timing_column_of(line@, column),
{
    let bounds = split_fields(line);
    let name: &[u8] = TIMING_COLUMN.as_bytes();
    let n: usize = bounds.len();
    let mut i: usize = 0;
    while i < n
        invariant
            n == bounds@.len(),
            n == fields(line@).len(),
            i <= n,
            name@ == TIMING_COLUMN.spec_bytes(),
            forall|k: int|
                #![trigger bounds@[k]]
                0 <= k < bounds@.len() ==> bounds@[k].0 <= bounds@[k].1 <= line@.len() && fields(
                    line@,
                )[k] == line@.subrange(bounds@[k].0 as int, bounds@[k].1 as int),
            forall|j: int| 0 <= j < i ==> !names_timing(#[trigger] fields(line@)[j]),
        decreases n - i,
    {
        let (from, to) = bounds[i];
        let (a, b) = trim_bounds(line, from, to);
        if range_equals(line, a, b, name) {
            return Some(i);
        }
        i += 1;
    }
    None
}

/// Reads the frame time from field `column` of a row.
pub fn read_row(line: &[u8], column: usize) -> (reading: Option<FrameReading>)
    ensures
        reading == row_reading(line@, column),
{
    let bounds = split_fields(line);
    if column >= bounds.len() {
        return None;
    }
    let (from, to) = bounds[column];
    let (a, b) = trim_bounds(line, from, to);
    parse_micros(line, a, b)
}

/// What a line of the helper's output turned out to be.
#[derive(Debug, Clone, Copy, PartialEq, Eq, Structural)]
pub enum LineOutcome {
    /// The header: the timing column is field `column`.
    Header { column: usize },
    /// A row with the frame time `time`.
    Reading { time: FrameReading },
    /// Neither: a line before the header that is not the header, or a row
    /// without a usable frame time.
    Skipped,
}

/// Reads the helper's output line by line: first it looks for the header,
/// then it takes a frame time from each row.
pub struct HelperReader {
    column: Option<usize>,
}

impl HelperReader {
    /// Position of the timing column, once the header has been seen.
    pub closed spec fn column(&self) -> Option<usize> {
        self.column
    }

    /// A reader that has not seen the header yet.
    pub fn new() -> (reader: Self)
        ensures
            reader.column() is None,
    {
        HelperReader { column: None }
    }

    /// Whether the header has been seen. A reader for which this is still
    /// false when the output ends has found no timing column, and no frame
    /// time came from it.
    pub fn has_header(&self) -> (seen: bool)
        ensures
            seen == self.column() is Some,
    {
        self.column.is_some()
    }

    /// Takes the next line of output. Before the header every line is
    /// searched for the timing column; after it every line is read as a
    /// row, and the position of the column stays as it is.
    pub fn feed(&mut self, line: &[u8]) -> (outcome: LineOutcome)
        ensures
            old(self).column() is None ==> is_timing_column_of(line@, final(self).column())
                && outcome == match final(self).column() {
                Some(c) => LineOutcome::Header { column: c },
                None => LineOutcome::Skipped,
            },
            old(self).column() matches Some(c) ==> final(self).column() == Some(c) && outcome
                == match row_reading(line@, c) {
                Some(time) => LineOutcome::Reading { time },
                None => LineOutcome::Skipped,
            },
    {
        match self.column {
            None => {
                let found = find_timing_column(line);
                self.column = found;
                match found {
                    Some(column) => LineOutcome::Header { column },
                    None => LineOutcome::Skipped,
                }
            },
            Some(column) => {
                match read_row(line, column) {
                    Some(time) => LineOutcome::Reading { time },
                    None => LineOutcome::Skipped,
                }
            },
        }
    }
}

/// How many directories, from the one of the executable upwards, are
/// searched for the helper.
pub const ANCESTOR_LEVELS: u8 = 4;

/// A place where the helper's executable is looked for.
#[derive(Debug, Clone, Copy, PartialEq, Eq, Structural)]
pub enum HelperLocation {
    /// In the directory of the host executable.
    BesideExecutable,
    /// In the current working directory.
    WorkingDirectory,
    /// In the directory `level` steps above that of the host executable;
    /// level 0 is that directory itself.
    Ancestor { level: u8 },
    /// In the temporary directory, written there from the copy that the
    /// host carries.
    Embedded,
}

impl HelperLocation {
    /// Place in the search order; 0 is looked at first. `None` for an
    /// ancestor beyond `ANCESTOR_LEVELS`, which is never looked at.
    pub open spec fn rank(self) -> Option<nat> {
        match self {
            HelperLocation::BesideExecutable => Some(0),
            HelperLocation::WorkingDirectory => Some(1),
            HelperLocation::Ancestor { level } => if level < ANCESTOR_LEVELS {
                Some((2 + level) as nat)
            } else {
                None
            },
            HelperLocation::Embedded => Some((2 + ANCESTOR_LEVELS) as nat),
        }
    }

    /// The place to look at when the helper is not at this one.
    pub open spec fn successor(self) -> Option<HelperLocation> {
        match self {
            HelperLocation::BesideExecutable => Some(HelperLocation::WorkingDirectory),
            HelperLocation::WorkingDirectory => Some(HelperLocation::Ancestor { level: 0 }),
            HelperLocation::Ancestor { level } => if level + 1 < ANCESTOR_LEVELS {
                Some(HelperLocation::Ancestor { level: (level + 1) as u8 })
            } else {
                Some(HelperLocation::Embedded)
            },
            HelperLocation::Embedded => None,
        }
    }

    /// The place to look at first.
    pub fn first() -> (location: HelperLocation)
        ensures
            location == HelperLocation::BesideExecutable,
    {
        HelperLocation::BesideExecutable
    }

    /// Returns the place to look at when the helper is not at this one;
    /// `None` when the search is over.
    pub fn next(&self) -> (location: Option<HelperLocation>)
        ensures
            location == self.successor(),
    {
        match self {
            HelperLocation::BesideExecutable => Some(HelperLocation::WorkingDirectory),
            HelperLocation::WorkingDirectory => Some(HelperLocation::Ancestor { level: 0 }),
            HelperLocation::Ancestor { level } => {
                if *level < ANCESTOR_LEVELS - 1 {
                    Some(HelperLocation::Ancestor { level: *level + 1 })
                } else {
                    Some(HelperLocation::Embedded)
                }
            },
            HelperLocation::Embedded => None,
        }
    }
}

/// What the search does after it has looked at a place.
#[derive(Debug, Clone, Copy, PartialEq, Eq, Structural)]
pub enum SearchStep {
    /// The helper is at `location`: the search ends with it.
    Use { location: HelperLocation },
    /// The helper is not there: `location` is looked at next.
    Look { location: HelperLocation },
    /// The helper is at none of the places.
    GiveUp,
}

/// The step that follows a look at `location`, where the helper was
/// `found` or not: the first place that holds the helper is used, and the
/// places are gone through in their order until none is left.
pub open spec fn step_after(location: HelperLocation, found: bool) -> SearchStep {
    if found {
        SearchStep::Use { location }
    } else {
        match location.successor() {
            Some(next) => SearchStep::Look { location: next },
            None => SearchStep::GiveUp,
        }
    }
}

/// Decides how the search goes on after a look at `location`.
pub fn search_step(location: HelperLocation, found: bool) -> (step: SearchStep)
    ensures
        step == step_after(location, found),
{
    if found {
        SearchStep::Use { location }
    } else {
        match location.next() {
            Some(next) => SearchStep::Look { location: next },
            None => SearchStep::GiveUp,
        }
    }
}

/// The search goes through the places in the order of their ranks, one
/// rank at a time, and ends after the embedded copy.
pub proof fn lemma_search_order(location: HelperLocation)
    requires
        location.rank() is Some,
    ensures
        HelperLocation::BesideExecutable.rank() == Some(0nat),
        location.successor() matches Some(next) ==> next.rank() == Some(
            (location.rank().unwrap() + 1) as nat,
        ),
        location.successor() is None <==> location == HelperLocation::Embedded,
{
}

/// Whether the embedded copy of the helper can be used after an attempt to
/// write it out. It can if its directory could be made and the file is
/// there: a failed write does no harm where an earlier copy is in place.
pub fn embedded_helper_usable(directory_ready: bool, written: bool, present: bool) -> (usable:
    bool)
    ensures
        usable == (directory_ready && present),
{
    directory_ready && present
}

/// The arguments with which the helper is started for process `pid`: the
/// process to watch, rows on standard output, and an end to any session
/// that is still open.
pub fn helper_arguments(pid: u32) -> (arguments: Vec<String>)
    ensures
        arguments@.len() == 4,
        arguments@[0]@ == "-process_id"@,
        arguments@[1]@ == decimal_text(pid as nat),
        arguments@[2]@ == "-output_stdout"@,
        arguments@[3]@ == "-stop_existing_session"@,
{
    let mut arguments: Vec<String> = Vec::new();
    arguments.push("-process_id".to_owned());
    arguments.push(to_decimal(pid as u64));
    arguments.push("-output_stdout".to_owned());
    arguments.push("-stop_existing_session".to_owned());
    arguments
}

} // verus!
