//! The frames of a project laid out as a table of text, for showing on a
//! console. The table itself is the work of the `prettytable` crate; what
//! stands in it is decided here.

use vstd::prelude::*;
use vstd::string::*;
use prettytable::{Cell, Row, Table};
use crate::frame::{Frame, FrameView};
use crate::project::{frames_view, Project};
use crate::text::{decimal, decimal_text, decimal_text_is_digits};

verus! {

#[verifier::external_type_specification]
#[verifier::external_body]
pub struct ExTable(Table);

/// The rows of a table, first to last: of each row the texts that its cells
/// hold, left to right.
pub uninterp spec fn table_cells(table: Table) -> Seq<Seq<Seq<char>>>;

/// Whether a table is in the format without borders and without lines
/// between its rows.
pub uninterp spec fn table_is_plain(table: Table) -> bool;

/// Whether a table is of the kind that is made here: it has no title row,
/// its format is the crate's default format or the plain one, and each of
/// its cells is what `Cell::new` makes of a text without a line feed (one
/// line at most, aligned to the left, without style, one column wide).
pub uninterp spec fn table_is_regular(table: Table) -> bool;

/// The text that `prettytable` writes for a regular table that has these
/// rows, in the plain format if `plain` holds and in the crate's default
/// format if not. Lines end as the crate ends them on the platform that it
/// is built for.
pub uninterp spec fn table_text(cells: Seq<Seq<Seq<char>>>, plain: bool) -> Seq<char>;

/// Whether a text can stand in a cell as it is: it holds no escape
/// character and no line feed. (A cell keeps its text line by line and loses
/// a line break at the end; and on an escape sequence the crate's measuring
/// of a text can fail.)
pub open spec fn fits_a_cell(text: Seq<char>) -> bool {
    forall|at: int| 0 <= at < text.len() ==> text[at] != '\u{1b}' && text[at] != '\n'
}

/// Whether every text of a row can stand in a cell.
pub open spec fn row_fits(cells: Seq<Seq<char>>) -> bool {
    forall|at: int| 0 <= at < cells.len() ==> fits_a_cell(#[trigger] cells[at])
}

/// Whether every text of every row can stand in a cell.
pub open spec fn rows_fit(rows: Seq<Seq<Seq<char>>>) -> bool {
    forall|at: int| 0 <= at < rows.len() ==> row_fits(#[trigger] rows[at])
}

/// The texts of a row of cells.
pub open spec fn cell_texts(cells: Seq<String>) -> Seq<Seq<char>> {
    cells.map_values(|cell: String| cell@)
}

/// `prettytable::Table::new`. Claimed: the new table has no rows and no
/// title row, and is in the crate's default format, which is not the plain
/// one; so it is regular.
#[verifier::external_body]
fn new_table() -> (table: Table)
    ensures
        table_cells(table) == Seq::<Seq<Seq<char>>>::empty(),
        !table_is_plain(table),
        table_is_regular(table),
{
    Table::new()
}

/// `prettytable::Table::add_row`, with a row of one `Cell::new` for each
/// text. Asked: no text holds an escape character, on which `Cell::new` can
/// panic, nor a line feed, at which it would split the text. Claimed: the
/// row is appended behind the rows that were there, each cell holding its
/// text; the format, the title row and the other cells are not touched, so
/// that, the new cells being regular ones, the table is regular afterwards
/// exactly if it was before.
#[verifier::external_body]
fn add_row(table: &mut Table, cells: &Vec<String>)
    requires
        row_fits(cell_texts(cells@)),
    ensures
        table_cells(*final(table)) == table_cells(*old(table)).push(cell_texts(cells@)),
        table_is_plain(*final(table)) == table_is_plain(*old(table)),
        table_is_regular(*final(table)) == table_is_regular(*old(table)),
{
    table.add_row(Row::new(cells.iter().map(|cell| Cell::new(cell)).collect()));
}

/// `prettytable::Table::set_format`, with the crate's
/// `FORMAT_NO_BORDER_LINE_SEPARATOR`. Claimed: the table is in the plain
/// format afterwards; its rows stay; and a regular table stays regular, as
/// the title row is not touched.
#[verifier::external_body]
fn set_plain_format(table: &mut Table)
    ensures
        table_cells(*final(table)) == table_cells(*old(table)),
        table_is_plain(*final(table)),
        table_is_regular(*old(table)) ==> table_is_regular(*final(table)),
{
    table.set_format(*prettytable::format::consts::FORMAT_NO_BORDER_LINE_SEPARATOR);
}

/// `to_string` on a `prettytable::Table`, which goes through the crate's
/// `Display` for tables. Asked: the table is regular, and no text in it
/// holds an escape character or a line feed. Claimed: the text of such a
/// table depends on its rows and on which of the two formats it is in, and
/// on nothing else. What the text looks like is not stated.
#[verifier::external_body]
fn table_to_string(table: &Table) -> (text: String)
    requires
        table_is_regular(*table),
        rows_fit(table_cells(*table)),
    ensures
        text@ == table_text(table_cells(*table), table_is_plain(*table)),
{
    table.to_string()
}

/// The row of column titles.
pub open spec fn title_row() -> Seq<Seq<char>> {
    seq!["Name"@, "Duration"@, "Path"@]
}

/// The row that shows a frame: its name, its duration in decimal notation,
/// and its path.
pub open spec fn frame_row(frame: FrameView) -> Seq<Seq<char>> {
    seq![frame.name, decimal_text(frame.duration as nat), frame.path]
}

/// The rows of the table that shows `frames`: the titles, and then one row
/// for each frame, in playback order.
pub open spec fn frame_rows(frames: Seq<FrameView>) -> Seq<Seq<Seq<char>>> {
    seq![title_row()] + frames.map_values(|frame: FrameView| frame_row(frame))
}

/// Whether the frames can be shown in a table: the name and the path of
/// each can stand in a cell.
pub open spec fn frames_fit(frames: Seq<FrameView>) -> bool {
    forall|at: int|
        0 <= at < frames.len() ==> fits_a_cell((#[trigger] frames[at]).name) && fits_a_cell(
            frames[at].path,
        )
}

/// The titles can stand in cells.
proof fn title_row_fits()
    ensures
        row_fits(title_row()),
{
    reveal_strlit("Name");
    reveal_strlit("Duration");
    reveal_strlit("Path");
}

/// The row of a frame whose name and path can stand in cells can stand in
/// cells: its third text is a number.
proof fn frame_row_fits(frame: FrameView)
    requires
        fits_a_cell(frame.name),
        fits_a_cell(frame.path),
    ensures
        row_fits(frame_row(frame)),
{
    decimal_text_is_digits(frame.duration as nat);
}

/// The rows of frames that can be shown can all stand in cells.
proof fn frame_rows_fit(frames: Seq<FrameView>)
    requires
        frames_fit(frames),
    ensures
        rows_fit(frame_rows(frames)),
{
    title_row_fits();
    assert forall|at: int| 0 <= at < frame_rows(frames).len() implies row_fits(
        #[trigger] frame_rows(frames)[at],
    ) by {
        if at > 0 {
            frame_row_fits(frames[at - 1]);
        }
    }
}

/// Whether a text can stand in a cell.
pub fn text_fits_a_cell(text: &str) -> (fits: bool)
    ensures
        fits == fits_a_cell(text@),
{
    let len = text.unicode_len();
    let mut at: usize = 0;
    while at < len
        invariant
            at <= len,
            len == text@.len(),
            forall|before: int| 0 <= before < at ==> text@[before] != '\u{1b}' && text@[before] != '\n',
        decreases len - at,
    {
        let c = text.get_char(at);
        if c == '\u{1b}' || c == '\n' {
            return false;
        }
        at += 1;
    }
    true
}

/// The cells of the title row.
fn title_cells() -> (cells: Vec<String>)
    ensures
        cell_texts(cells@) == title_row(),
{
    let mut cells: Vec<String> = Vec::new();
    cells.push(String::from_str("Name"));
    cells.push(String::from_str("Duration"));
    cells.push(String::from_str("Path"));
    cells
}

/// The cells of the row that shows a frame.
fn frame_cells(frame: &Frame) -> (cells: Vec<String>)
    ensures
        cell_texts(cells@) == frame_row(frame@),
{
    let mut cells: Vec<String> = Vec::new();
    cells.push(frame.name.clone());
    cells.push(decimal(frame.duration as u64));
    cells.push(frame.path.clone());
    cells
}

impl Project {
    /// Whether the frames can be shown in a table: no name and no path
    /// holds an escape character or a line feed.
    pub fn fits_a_table(&self) -> (fits: bool)
        ensures
            fits == frames_fit(self@),
    {
        let frames = self.frames();
        let mut index: usize = 0;
        while index < frames.len()
            invariant
                index <= frames.len(),
                frames_view(frames@) == self@,
                frames_fit(self@.take(index as int)),
            decreases frames.len() - index,
        {
            let frame = &frames[index];
            if !text_fits_a_cell(frame.name.as_str()) || !text_fits_a_cell(frame.path.as_str()) {
                assert(self@[index as int] == frame@);
                return false;
            }
            assert(self@.take(index + 1) =~= self@.take(index as int).push(frame@));
            index += 1;
        }
        assert(self@.take(index as int) =~= self@);
        true
    }

    /// The frames as a table of text with the columns name, duration and
    /// path: a row of titles, then a row for each frame, in the plain format.
    ///
    /// The names and paths must be texts that can stand in a cell;
    /// [`Project::try_to_table_text`] makes that test itself.
    pub fn to_table_text(&self) -> (text: String)
        requires
            frames_fit(self@),
        ensures
            text@ == table_text(frame_rows(self@), true),
    {
        let frames = self.frames();
        let mut table = new_table();
        let titles = title_cells();
        proof {
            title_row_fits();
            frame_rows_fit(self@);
        }
        add_row(&mut table, &titles);
        let mut index: usize = 0;
        while index < frames.len()
            invariant
                index <= frames.len(),
                frames_view(frames@) == self@,
                frames_fit(self@),
                table_cells(table) == frame_rows(self@.take(index as int)),
                !table_is_plain(table),
                table_is_regular(table),
            decreases frames.len() - index,
        {
            let cells = frame_cells(&frames[index]);
            proof {
                frame_row_fits(self@[index as int]);
            }
            add_row(&mut table, &cells);
            index += 1;
        }
        assert(self@.take(index as int) =~= self@);
        set_plain_format(&mut table);
        table_to_string(&table)
    }

    /// The frames as a table of text, as [`Project::to_table_text`] gives
    /// it, where every name and path can stand in a cell, and `None` where
    /// one of them holds an escape character or a line feed.
    pub fn try_to_table_text(&self) -> (text: Option<String>)
        ensures
            match text {
                Some(text) => frames_fit(self@) && text@ == table_text(frame_rows(self@), true),
                None => !frames_fit(self@),
            },
    {
        if self.fits_a_table() {
            Some(self.to_table_text())
        } else {
            None
        }
    }
}

} // verus!
