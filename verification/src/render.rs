//! The render engine: from the message log and the input buffer to the frame
//! that one redraw shows.
//!
//! A frame has three regions, top to bottom: the history, the input and a
//! one-line legend of the key bindings. The frame is a plain value; painting
//! it on a terminal is left to the caller.

use crate::message::{turns, Message, MessageView, Role};
use ratatui::layout::{Constraint, Direction, Layout, Rect};
use vstd::prelude::*;

verus! {

/// The height asked for the input region: one row of text and two of border.
pub const INPUT_HEIGHT: u16 = 3;

/// The height asked for the legend.
pub const HELP_HEIGHT: u16 = 1;

/// The least height asked for the history region, which takes what is left.
pub const HISTORY_MIN_HEIGHT: u16 = 1;

/// A rectangle of terminal cells.
#[derive(Clone, Copy, Debug, PartialEq, Eq, Structural)]
pub struct Area {
    pub x: u16,
    pub y: u16,
    pub width: u16,
    pub height: u16,
}

/// One terminal cell, by column and row.
#[derive(Clone, Copy, Debug, PartialEq, Eq, Structural)]
pub struct Position {
    pub x: u16,
    pub y: u16,
}

/// One region of a frame: where it lies, its frame and title, and its text.
#[derive(Debug, PartialEq, Eq)]
pub struct Panel {
    pub area: Area,
    /// The title in the border; empty where there is none.
    pub title: String,
    /// Whether a border runs around the region.
    pub bordered: bool,
    /// Whether text wider than the region wraps, untrimmed. Where it does
    /// not, it is clipped.
    pub wrap: bool,
    /// The number of lines skipped at the top.
    pub scroll: u16,
    pub text: String,
}

/// The mathematical value of a [`Panel`].
pub struct PanelView {
    pub area: Area,
    pub title: Seq<char>,
    pub bordered: bool,
    pub wrap: bool,
    pub scroll: u16,
    pub text: Seq<char>,
}

impl View for Panel {
    type V = PanelView;

    open spec fn view(&self) -> PanelView {
        PanelView {
            area: self.area,
            title: self.title@,
            bordered: self.bordered,
            wrap: self.wrap,
            scroll: self.scroll,
            text: self.text@,
        }
    }
}

/// What one redraw shows: the three regions, and the text cursor, which has
/// a place unless the input region has no cell.
#[derive(Debug, PartialEq, Eq)]
pub struct Frame {
    pub history: Panel,
    pub input: Panel,
    pub help: Panel,
    pub cursor: Option<Position>,
}

/// The mathematical value of a [`Frame`].
pub struct FrameView {
    pub history: PanelView,
    pub input: PanelView,
    pub help: PanelView,
    pub cursor: Option<Position>,
}

impl View for Frame {
    type V = FrameView;

    open spec fn view(&self) -> FrameView {
        FrameView {
            history: self.history@,
            input: self.input@,
            help: self.help@,
            cursor: self.cursor,
        }
    }
}

/// The name under which a sender appears in the history.
pub open spec fn role_prefix(role: Role) -> Seq<char> {
    match role {
        Role::User => "You"@,
        Role::Assistant => "Bot"@,
    }
}

/// The history's text for one turn: the sender's name, a colon and a space,
/// the turn's text, and a line break.
pub open spec fn history_line(turn: MessageView) -> Seq<char> {
    role_prefix(turn.role) + ": "@ + turn.text() + "\n"@
}

/// The history's text: the text for each turn, oldest first.
pub open spec fn history_text(log: Seq<MessageView>) -> Seq<char>
    decreases log.len(),
{
    if log.len() == 0 {
        Seq::empty()
    } else {
        history_text(log.drop_last()) + history_line(log.last())
    }
}

/// The number of line breaks in `text`, which is the number of lines of a
/// text that ends every line with one.
pub open spec fn line_count(text: Seq<char>) -> nat
    decreases text.len(),
{
    if text.len() == 0 {
        0
    } else {
        line_count(text.drop_last()) + if text.last() == '\n' {
            1nat
        } else {
            0nat
        }
    }
}

/// The rows of text that a bordered region of this height shows.
pub open spec fn text_rows(height: u16) -> nat {
    if height >= 2 {
        (height - 2) as nat
    } else {
        0
    }
}

/// The number of lines to skip at the top so that the last of `lines` lines
/// fall into `rows` rows: none where all lines fit, else as many as do not
/// fit, as far as a terminal offset can count.
pub open spec fn scroll_offset(lines: nat, rows: nat) -> nat {
    if lines <= rows {
        0
    } else if lines - rows <= u16::MAX {
        (lines - rows) as nat
    } else {
        u16::MAX as nat
    }
}

/// Whether `cell` is one of the cells of `area`.
pub open spec fn contains(area: Area, cell: Position) -> bool {
    &&& area.x <= cell.x < area.x + area.width
    &&& area.y <= cell.y < area.y + area.height
}

/// The coordinate `shift` cells behind `edge`, or the last one that a
/// terminal can address where that lies before it.
pub open spec fn shifted(edge: u16, shift: nat) -> u16 {
    if edge + shift <= u16::MAX {
        (edge + shift) as u16
    } else {
        u16::MAX
    }
}

/// How many columns behind the left edge of an input region of this width
/// the cursor stands when `typed` characters are in the buffer: behind the
/// border and the characters, and no further than the region's last column.
pub open spec fn cursor_shift(typed: nat, width: u16) -> nat
    recommends
        width > 0,
{
    if 1 + typed <= width - 1 {
        1 + typed
    } else {
        (width - 1) as nat
    }
}

/// How many rows below the top edge of an input region of this height the
/// cursor stands: in the row of text below the border, or in the only row.
pub open spec fn cursor_drop(height: u16) -> nat
    recommends
        height > 0,
{
    if height >= 2 {
        1
    } else {
        0
    }
}

/// Where the text cursor stands for this input region and buffer: in the
/// region's row of text, one cell behind the last character, and at the
/// region's right edge where the buffer is wider than the row. It is always
/// a cell of the region; a region without a cell has no cursor.
pub open spec fn cursor_at(input_area: Area, input: Seq<char>) -> Option<Position> {
    if input_area.width > 0 && input_area.height > 0 {
        Some(
            Position {
                x: shifted(input_area.x, cursor_shift(input.len(), input_area.width)),
                y: shifted(input_area.y, cursor_drop(input_area.height)),
            },
        )
    } else {
        None
    }
}

/// The name under which a sender appears in the history.
pub fn role_label(role: Role) -> (label: &'static str)
    ensures
        label@ == role_prefix(role),
{
    match role {
        Role::User => "You",
        Role::Assistant => "Bot",
    }
}

/// Writes the history's text for the given turns.
pub fn render_history(history: &[Message]) -> (text: String)
    ensures
        text@ == history_text(turns(history@)),
{
    let ghost log = turns(history@);
    let mut text = String::new();
    let mut i: usize = 0;
    while i < history.len()
        invariant
            i <= history.len(),
            log == turns(history@),
            text@ == history_text(log.take(i as int)),
        decreases history.len() - i,
    {
        let message = &history[i];
        let ghost before = text@;
        text.append(role_label(message.role()));
        text.append(": ");
        text.append(message.text());
        text.append("\n");
        proof {
            let shown = log.take(i + 1);
            assert(shown.drop_last() =~= log.take(i as int));
            assert(shown.last() == message@);
            assert(text@ =~= before + history_line(message@));
        }
        i = i + 1;
    }
    assert(log.take(history.len() as int) =~= log);
    text
}

/// Counts the line breaks in `text`, as far as a `usize` can count.
fn count_line_breaks(text: &str) -> (n: usize)
    ensures
        line_count(text@) <= usize::MAX ==> n == line_count(text@),
        line_count(text@) > usize::MAX ==> n == usize::MAX,
{
    broadcast use vstd::string::group_string_axioms;

    let mut n: usize = 0;
    for c in it: text.chars()
        invariant
            it.seq() == text@,
            line_count(text@.take(it.index())) <= usize::MAX ==> n == line_count(
                text@.take(it.index()),
            ),
            line_count(text@.take(it.index())) > usize::MAX ==> n == usize::MAX,
    {
        assert(text@.take(it.index() + 1).drop_last() =~= text@.take(it.index()));
        if c == '\n' && n < usize::MAX {
            n = n + 1;
        }
    }
    assert(text@.take(text@.len() as int) =~= text@);
    n
}

/// The scroll offset that keeps the last lines of `text` in view in a
/// bordered region of the given height.
pub fn history_scroll(text: &str, height: u16) -> (offset: u16)
    ensures
        offset == scroll_offset(line_count(text@), text_rows(height)),
{
    let lines = count_line_breaks(text);
    let rows: usize = if height >= 2 {
        (height - 2) as usize
    } else {
        0
    };
    if lines <= rows {
        0
    } else if lines - rows <= u16::MAX as usize {
        (lines - rows) as u16
    } else {
        u16::MAX
    }
}

/// The coordinate `shift` cells behind `edge`, as far as a terminal can
/// address.
fn shift_by(edge: u16, shift: u16) -> (coordinate: u16)
    ensures
        coordinate == shifted(edge, shift as nat),
{
    if shift > u16::MAX - edge {
        u16::MAX
    } else {
        edge + shift
    }
}

/// Places the text cursor for this input region and buffer.
pub fn cursor_position(input_area: Area, input: &str) -> (cursor: Option<Position>)
    ensures
        cursor == cursor_at(input_area, input@),
        cursor is Some <==> input_area.width > 0 && input_area.height > 0,
        cursor matches Some(cell) ==> contains(input_area, cell),
{
    if input_area.width == 0 || input_area.height == 0 {
        return None;
    }
    let typed = input.unicode_len();
    let reach: u16 = input_area.width - 1;
    let right: u16 = if typed < reach as usize {
        typed as u16 + 1
    } else {
        reach
    };
    let down: u16 = if input_area.height >= 2 {
        1
    } else {
        0
    };
    Some(Position { x: shift_by(input_area.x, right), y: shift_by(input_area.y, down) })
}

/// The history region in `area` for this log: bordered and titled, its text
/// clipped, scrolled so that the last lines are in view.
pub open spec fn history_panel(area: Area, log: Seq<MessageView>) -> PanelView {
    PanelView {
        area,
        title: "History"@,
        bordered: true,
        wrap: false,
        scroll: scroll_offset(line_count(history_text(log)), text_rows(area.height)) as u16,
        text: history_text(log),
    }
}

/// The input region in `area` for this buffer: bordered and titled, its text
/// wrapped.
pub open spec fn input_panel(area: Area, input: Seq<char>) -> PanelView {
    PanelView { area, title: "Input"@, bordered: true, wrap: true, scroll: 0, text: input }
}

/// The legend of the key bindings in `area`, without a border.
pub open spec fn help_panel(area: Area) -> PanelView {
    PanelView {
        area,
        title: Seq::empty(),
        bordered: false,
        wrap: false,
        scroll: 0,
        text: "Ctrl+S:send|Ctrl+Q:quit|Ctrl+N:clear history"@,
    }
}

/// The frame for this log and buffer, with the three regions in the given
/// areas.
pub open spec fn frame_of(
    history_area: Area,
    input_area: Area,
    help_area: Area,
    input: Seq<char>,
    log: Seq<MessageView>,
) -> FrameView {
    FrameView {
        history: history_panel(history_area, log),
        input: input_panel(input_area, input),
        help: help_panel(help_area),
        cursor: cursor_at(input_area, input),
    }
}

/// Whether `row` is a row of `area`: it runs from the left edge of `area` to
/// its right edge, and lies between its top and its bottom.
pub open spec fn is_row_of(row: Area, area: Area) -> bool {
    &&& row.x == area.x
    &&& row.width == area.width
    &&& area.y <= row.y
    &&& row.y + row.height <= area.y + area.height
}

/// Whether `frame` is a redraw of this log and buffer on a screen of `area`:
/// it is the frame for them in its own three areas, and each of these is a
/// row of the screen.
pub open spec fn is_frame_for(
    frame: FrameView,
    area: Area,
    input: Seq<char>,
    log: Seq<MessageView>,
) -> bool {
    &&& frame == frame_of(frame.history.area, frame.input.area, frame.help.area, input, log)
    &&& is_row_of(frame.history.area, area)
    &&& is_row_of(frame.input.area, area)
    &&& is_row_of(frame.help.area, area)
}

/// Builds the frame for this buffer and these turns, with the three regions
/// in the given areas.
pub fn compose(
    history_area: Area,
    input_area: Area,
    help_area: Area,
    input: &str,
    history: &[Message],
) -> (frame: Frame)
    ensures
        frame@ == frame_of(history_area, input_area, help_area, input@, turns(history@)),
        frame.cursor matches Some(cell) ==> contains(input_area, cell),
{
    let text = render_history(history);
    let scroll = history_scroll(text.as_str(), history_area.height);
    Frame {
        history: Panel {
            area: history_area,
            title: "History".to_owned(),
            bordered: true,
            wrap: false,
            scroll,
            text,
        },
        input: Panel {
            area: input_area,
            title: "Input".to_owned(),
            bordered: true,
            wrap: true,
            scroll: 0,
            text: input.to_owned(),
        },
        help: Panel {
            area: help_area,
            title: String::new(),
            bordered: false,
            wrap: false,
            scroll: 0,
            text: "Ctrl+S:send|Ctrl+Q:quit|Ctrl+N:clear history".to_owned(),
        },
        cursor: cursor_position(input_area, input),
    }
}

/// Calls ratatui's `Layout::split` on `area`, for a vertical layout without
/// margin or spacing whose rows are asked to be at least `top_min`, exactly
/// `middle` and exactly `bottom` cells high. The contract claims what the
/// layout code shows for every outcome of its solver: one row for each of
/// the three constraints; each with the left edge and the width of `area`,
/// which the code copies; and each between the top and the bottom of `area`,
/// which the solver is required to keep to for both ends of every row. Of
/// the rows' heights, and of their order and overlap, it claims nothing:
/// those the solver is asked for and not required to give.
#[verifier::external_body]
fn split_rows(area: Area, top_min: u16, middle: u16, bottom: u16) -> (rows: Vec<Area>)
    ensures
        rows@.len() == 3,
        forall|i: int| 0 <= i < 3 ==> is_row_of(#[trigger] rows@[i], area),
{
    let rect = Rect { x: area.x, y: area.y, width: area.width, height: area.height };
    let constraints =
        [Constraint::Min(top_min), Constraint::Length(middle), Constraint::Length(bottom)];
    let rows = Layout::default().direction(Direction::Vertical).constraints(constraints).split(rect);
    rows.iter().map(|r| Area { x: r.x, y: r.y, width: r.width, height: r.height }).collect()
}

/// Builds the frame that one full redraw of a screen of `area` shows for this
/// buffer and these turns. The screen is split into three rows by the layout
/// solver, asked for a history of at least one row on top, an input region of
/// three rows below it and a legend of one row at the bottom.
pub fn render(area: Area, input: &str, history: &[Message]) -> (frame: Frame)
    ensures
        is_frame_for(frame@, area, input@, turns(history@)),
        frame.cursor matches Some(cell) ==> contains(frame.input.area, cell) && contains(
            area,
            cell,
        ),
{
    let rows = split_rows(area, HISTORY_MIN_HEIGHT, INPUT_HEIGHT, HELP_HEIGHT);
    compose(rows[0], rows[1], rows[2], input, history)
}

/// The text cursor never leaves the input region. It has a place exactly
/// where the region has a cell, and that place is a cell of the region: in
/// the row of text where the region has one, and no further right than the
/// region's last column, however long the buffer is. Where the buffer fits
/// into the row, the place is the cell just behind its last character.
pub proof fn lemma_cursor_stays_in_input_region(input_area: Area, input: Seq<char>)
    ensures
        cursor_at(input_area, input) is Some <==> input_area.width > 0 && input_area.height > 0,
        cursor_at(input_area, input) matches Some(cell) ==> contains(input_area, cell),
        input_area.height >= 2 && input.len() + 2 <= input_area.width && input_area.x
            + input_area.width <= u16::MAX + 1 && input_area.y + input_area.height <= u16::MAX + 1
            ==> cursor_at(input_area, input) == Some(
            Position { x: (input_area.x + 1 + input.len()) as u16, y: (input_area.y + 1) as u16 },
        ),
{
}

/// On a redrawn screen the text cursor, where it has a place, is a cell of
/// the frame's input region and of the screen.
pub proof fn lemma_cursor_stays_on_screen(
    frame: FrameView,
    area: Area,
    input: Seq<char>,
    log: Seq<MessageView>,
)
    requires
        is_frame_for(frame, area, input, log),
    ensures
        frame.cursor is Some <==> frame.input.area.width > 0 && frame.input.area.height > 0,
        frame.cursor matches Some(cell) ==> contains(frame.input.area, cell) && contains(
            area,
            cell,
        ),
{
    lemma_cursor_stays_in_input_region(frame.input.area, input);
}

/// Rendering is idempotent: two redraws of the same log and buffer on the
/// same screen show the same texts, titles and borders, and the same scroll
/// offset where the history is equally high in both. Where their regions lie
/// in the same areas, they are the same frame down to the cursor.
pub proof fn lemma_render_is_idempotent(
    first: FrameView,
    second: FrameView,
    area: Area,
    input: Seq<char>,
    log: Seq<MessageView>,
)
    requires
        is_frame_for(first, area, input, log),
        is_frame_for(second, area, input, log),
    ensures
        first.history.text == second.history.text,
        first.input == (PanelView { area: first.input.area, ..second.input }),
        first.help == (PanelView { area: first.help.area, ..second.help }),
        first.history.area.height == second.history.area.height ==> first.history == (PanelView {
            area: first.history.area,
            ..second.history
        }),
        first.history.area == second.history.area && first.input.area == second.input.area
            && first.help.area == second.help.area ==> first == second,
{
}

/// Line breaks add up over concatenation.
pub proof fn lemma_line_count_add(head: Seq<char>, tail: Seq<char>)
    ensures
        line_count(head + tail) == line_count(head) + line_count(tail),
    decreases tail.len(),
{
    if tail.len() == 0 {
        assert(head + tail =~= head);
    } else {
        lemma_line_count_add(head, tail.drop_last());
        assert((head + tail).drop_last() =~= head + tail.drop_last());
    }
}

/// The history's text for one turn has one line, and one more for each line
/// break in the turn's text.
pub proof fn lemma_history_line_count(turn: MessageView)
    ensures
        line_count(history_line(turn)) == 1 + line_count(turn.text()),
{
    let prefix = role_prefix(turn.role);
    assert(line_count(prefix) == 0) by {
        reveal_strlit("You");
        reveal_strlit("Bot");
        reveal_with_fuel(line_count, 4);
    }
    assert(line_count(": "@) == 0) by {
        reveal_strlit(": ");
        reveal_with_fuel(line_count, 3);
    }
    assert(line_count("\n"@) == 1) by {
        reveal_strlit("\n");
        reveal_with_fuel(line_count, 2);
    }
    lemma_line_count_add(prefix, ": "@);
    lemma_line_count_add(prefix + ": "@, turn.text());
    lemma_line_count_add(prefix + ": "@ + turn.text(), "\n"@);
}

/// The history has one line per turn: its text has as many lines as the log
/// has turns, where no turn's text holds a line break.
pub proof fn lemma_one_line_per_turn(log: Seq<MessageView>)
    requires
        forall|i: int| 0 <= i < log.len() ==> line_count(#[trigger] log[i].text()) == 0,
    ensures
        line_count(history_text(log)) == log.len(),
    decreases log.len(),
{
    if log.len() > 0 {
        let earlier = log.drop_last();
        assert forall|i: int| 0 <= i < earlier.len() implies line_count(
            #[trigger] earlier[i].text(),
        ) == 0 by {
            assert(earlier[i] == log[i]);
        }
        lemma_one_line_per_turn(earlier);
        lemma_history_line_count(log.last());
        lemma_line_count_add(history_text(earlier), history_line(log.last()));
    }
}

/// With the scroll offset of `scroll_offset`, nothing is cut off at the end:
/// the rows reach to the last line, unless more lines are hidden than a
/// terminal offset can count. No row stays empty while a line is hidden.
pub proof fn lemma_scroll_keeps_latest_lines(lines: nat, rows: nat)
    ensures
        lines - rows <= u16::MAX ==> scroll_offset(lines, rows) + rows >= lines,
        scroll_offset(lines, rows) > 0 ==> scroll_offset(lines, rows) + rows <= lines,
{
}

} // verus!
