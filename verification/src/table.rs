//! The texts of the tables that the dashboard shows: the cells of each row
//! and the height that a row needs. Widths, colours and wrapping are the
//! renderer's business.

use crate::filter::{CustomView, CustomViewView};
use crate::text::{decimal, number_text};
use crate::types::{Cycle, CycleView, Issue, IssueRelatableObject, IssueView, RelatableView};
use vstd::prelude::*;
use vstd::string::StringExecFns;
use vstd::utf8::{char_is_scalar, char_u32_cast, encode_scalar, encode_utf8, has_width_1_encoding};

verus! {

/// The text of an optional field: the field's, or `fallback` where there is
/// none.
pub open spec fn text_or(field: Option<Seq<char>>, fallback: Seq<char>) -> Seq<char> {
    match field {
        Some(text) => text,
        None => fallback,
    }
}

/// The text of an optional field, or `fallback` where there is none.
pub fn field_text(field: &Option<String>, fallback: &str) -> (res: String)
    ensures
        res@ == text_or(field.deep_view(), fallback@),
{
    match field {
        Some(text) => text.clone(),
        None => fallback.to_owned(),
    }
}

/// How many of the characters of a text are line feeds.
pub open spec fn line_breaks(text: Seq<char>) -> nat
    decreases text.len(),
{
    if text.len() == 0 {
        0
    } else {
        line_breaks(text.drop_first()) + if text[0] == '\n' {
            1nat
        } else {
            0nat
        }
    }
}

/// How many of the first `upto` bytes are line feeds.
pub open spec fn line_feeds(bytes: Seq<u8>, upto: int) -> nat
    decreases upto,
{
    if upto <= 0 {
        0
    } else {
        line_feeds(bytes, upto - 1) + if bytes[upto - 1] == 10u8 {
            1nat
        } else {
            0nat
        }
    }
}

/// The line feeds among the first bytes of a sequence stay the same when
/// bytes are put behind it.
proof fn lemma_line_feeds_front(front: Seq<u8>, back: Seq<u8>, upto: int)
    requires
        upto <= front.len(),
    ensures
        line_feeds(front + back, upto) == line_feeds(front, upto),
    decreases upto,
{
    if upto > 0 {
        lemma_line_feeds_front(front, back, upto - 1);
    }
}

/// The line feeds of two byte sequences put together are those of the one
/// and those of the other.
proof fn lemma_line_feeds_joined(front: Seq<u8>, back: Seq<u8>, upto: int)
    requires
        0 <= upto <= back.len(),
    ensures
        line_feeds(front + back, front.len() + upto) == line_feeds(front, front.len() as int)
            + line_feeds(back, upto),
    decreases upto,
{
    if upto == 0 {
        lemma_line_feeds_front(front, back, front.len() as int);
    } else {
        lemma_line_feeds_joined(front, back, upto - 1);
        assert((front + back)[front.len() + upto - 1] == back[upto - 1]);
    }
}

/// In UTF-8 only the line feed itself is written with the byte 10: the one
/// byte of a character below 128 is the character, and every byte of a
/// longer form is 128 or more.
proof fn lemma_byte_ten(scalar: u32, low: u8)
    ensures
        scalar <= 0x7F ==> ((scalar & 0x7F) as u8 == 10u8 <==> scalar == 10),
        (0x80u8 | low) != 10u8,
        (0xC0u8 | low) != 10u8,
        (0xE0u8 | low) != 10u8,
        (0xF0u8 | low) != 10u8,
{
    assert(scalar <= 0x7F ==> ((scalar & 0x7F) as u8 == 10u8 <==> scalar == 10)) by (bit_vector);
    assert((0x80u8 | low) != 10u8) by (bit_vector);
    assert((0xC0u8 | low) != 10u8) by (bit_vector);
    assert((0xE0u8 | low) != 10u8) by (bit_vector);
    assert((0xF0u8 | low) != 10u8) by (bit_vector);
}

/// The UTF-8 form of a character holds one line feed if the character is
/// one, and none if not.
proof fn lemma_line_feeds_of_char(c: char)
    ensures
        line_feeds(encode_scalar(c as u32), encode_scalar(c as u32).len() as int) == if c == '\n' {
            1nat
        } else {
            0nat
        },
{
    let scalar = c as u32;
    let bytes = encode_scalar(scalar);
    char_is_scalar(c);
    lemma_byte_ten(scalar, 0);
    assert forall|i: int| 1 <= i < bytes.len() implies bytes[i] != 10u8 by {
        lemma_byte_ten(scalar, (scalar & 0x3F) as u8);
        lemma_byte_ten(scalar, ((scalar >> 6) & 0x3F) as u8);
        lemma_byte_ten(scalar, ((scalar >> 12) & 0x3F) as u8);
    }
    if !has_width_1_encoding(scalar) {
        lemma_byte_ten(scalar, ((scalar >> 6) & 0x1F) as u8);
        lemma_byte_ten(scalar, ((scalar >> 12) & 0x0F) as u8);
        lemma_byte_ten(scalar, ((scalar >> 18) & 0x7) as u8);
        assert(bytes[0] != 10u8);
        assert(scalar != 10);
    }
    assert(c == '\n' <==> scalar == 10) by {
        if scalar == 10 {
            char_u32_cast(c, scalar);
        }
    }
    reveal_with_fuel(line_feeds, 5);
}

/// The line feeds among the bytes of the UTF-8 form of a text are as many
/// as the line feeds among its characters.
pub proof fn lemma_line_breaks_in_bytes(text: Seq<char>)
    ensures
        line_feeds(encode_utf8(text), encode_utf8(text).len() as int) == line_breaks(text),
    decreases text.len(),
{
    if text.len() > 0 {
        let first = encode_scalar(text[0] as u32);
        let rest = encode_utf8(text.drop_first());
        lemma_line_breaks_in_bytes(text.drop_first());
        lemma_line_feeds_of_char(text[0]);
        lemma_line_feeds_joined(first, rest, rest.len() as int);
    }
}

/// Counts the line breaks of a text.
pub fn count_line_breaks(text: &str) -> (res: usize)
    ensures
        res == line_breaks(text@),
{
    let bytes = text.as_bytes();
    let mut count: usize = 0;
    let mut i: usize = 0;
    while i < bytes.len()
        invariant
            i <= bytes.len(),
            count == line_feeds(bytes@, i as int),
            count <= i,
        decreases bytes.len() - i,
    {
        if bytes[i] == 10u8 {
            count += 1;
        }
        i += 1;
    }
    proof {
        lemma_line_breaks_in_bytes(text@);
    }
    count
}

/// The most line breaks that any of the first `upto` cells holds.
pub open spec fn most_line_breaks(cells: Seq<Seq<char>>, upto: int) -> nat
    decreases upto,
{
    if upto <= 0 {
        0
    } else {
        let before = most_line_breaks(cells, upto - 1);
        let here = line_breaks(cells[upto - 1]);
        if here > before {
            here
        } else {
            before
        }
    }
}

/// The number of lines that a row of these cells takes: one more than the
/// most line breaks in a cell, as far as the machine can count.
pub open spec fn lines_of(cells: Seq<Seq<char>>) -> nat {
    let breaks = most_line_breaks(cells, cells.len() as int);
    if breaks < usize::MAX {
        breaks + 1
    } else {
        breaks
    }
}

/// The number of lines that a row of these cells takes.
pub fn row_height(cells: &Vec<String>) -> (res: usize)
    ensures
        res == lines_of(cells.deep_view()),
{
    let mut most: usize = 0;
    let mut i: usize = 0;
    while i < cells.len()
        invariant
            i <= cells.len(),
            most == most_line_breaks(cells.deep_view(), i as int),
        decreases cells.len() - i,
    {
        let here = count_line_breaks(cells[i].as_str());
        if here > most {
            most = here;
        }
        i += 1;
    }
    if most < usize::MAX {
        most + 1
    } else {
        most
    }
}

/// The cells of a view slot in the table of view slots: name, description,
/// organization, team. An empty slot says so in its first cell; a view
/// without a team is one for all teams.
pub open spec fn view_slot_cells(slot: Option<CustomViewView>) -> Seq<Seq<char>> {
    match slot {
        Some(view) => seq![
            text_or(view.name, ""@),
            text_or(view.description, ""@),
            text_or(view.organization_name, ""@),
            text_or(view.team_key, "All Teams"@),
        ],
        None => seq!["Empty Slot"@, ""@, ""@, ""@],
    }
}

/// The cells of a view slot in the table of view slots.
pub fn view_slot_row(slot: &Option<CustomView>) -> (res: Vec<String>)
    ensures
        res.deep_view() == view_slot_cells(slot.deep_view()),
{
    let mut cells: Vec<String> = Vec::new();
    match slot {
        Some(view) => {
            cells.push(field_text(&view.name, ""));
            cells.push(field_text(&view.description, ""));
            cells.push(field_text(&view.organization_name, ""));
            cells.push(field_text(&view.team_key, "All Teams"));
        },
        None => {
            cells.push("Empty Slot".to_owned());
            cells.push("".to_owned());
            cells.push("".to_owned());
            cells.push("".to_owned());
        },
    }
    assert(cells.deep_view() =~= view_slot_cells(slot.deep_view()));
    cells
}

/// The cells of an issue in a panel, with `number` as the text of its
/// number: number, title, state, description, date of creation. A field
/// that the issue lacks gives an empty cell.
pub open spec fn issue_cells_with(number: Seq<char>, issue: IssueView) -> Seq<Seq<char>> {
    seq![
        number,
        text_or(issue.title, ""@),
        match issue.state {
            Some(state) => state.name,
            None => ""@,
        },
        text_or(issue.description, ""@),
        text_or(issue.created_at, ""@),
    ]
}

/// The text of an optional number: its decimal form, or nothing.
pub open spec fn number_or_blank(number: Option<i64>) -> Seq<char> {
    match number {
        Some(n) => decimal(n as int),
        None => ""@,
    }
}

/// The cells of an issue in a panel.
pub open spec fn issue_cells(issue: IssueView) -> Seq<Seq<char>> {
    issue_cells_with(number_or_blank(issue.number), issue)
}

/// The cells of an issue in a panel, given the text of its number.
pub fn issue_row_with(number: String, issue: &Issue) -> (res: Vec<String>)
    ensures
        res.deep_view() == issue_cells_with(number@, issue@),
{
    let mut cells: Vec<String> = Vec::new();
    cells.push(number);
    cells.push(field_text(&issue.title, ""));
    cells.push(
        match &issue.state {
            Some(state) => state.name.clone(),
            None => "".to_owned(),
        },
    );
    cells.push(field_text(&issue.description, ""));
    cells.push(field_text(&issue.created_at, ""));
    assert(cells.deep_view() =~= issue_cells_with(number@, issue@));
    cells
}

/// The cells of an issue in a panel.
pub fn issue_row(issue: &Issue) -> (res: Vec<String>)
    ensures
        res.deep_view() == issue_cells(issue@),
{
    let number = match issue.number {
        Some(n) => number_text(n),
        None => "".to_owned(),
    };
    issue_row_with(number, issue)
}

/// The cells of a cycle in the table of cycles, with `number` as the text
/// of its number.
pub open spec fn cycle_cells_with(number: Seq<char>, cycle: CycleView) -> Seq<Seq<char>> {
    seq![text_or(cycle.name, ""@), number, cycle.starts_at, cycle.ends_at]
}

/// The cells of a value in the table of the values of a field.
pub open spec fn value_cells(row: RelatableView) -> Seq<Seq<char>> {
    match row {
        RelatableView::WorkflowState(state) => seq![
            state.name,
            state.state_type,
            text_or(state.description, ""@),
        ],
        RelatableView::Assignee(user) => seq![
            text_or(user.name, ""@),
            text_or(user.display_name, ""@),
        ],
        RelatableView::Project(project) => seq![
            text_or(project.name, ""@),
            text_or(project.state, ""@),
        ],
        RelatableView::Cycle(cycle) => cycle_cells_with(decimal(cycle.number as int), cycle),
    }
}

/// The cells of a cycle in the table of cycles, given the text of its
/// number.
pub fn cycle_row_with(number: String, cycle: &Cycle) -> (res: Vec<String>)
    ensures
        res.deep_view() == cycle_cells_with(number@, cycle@),
{
    let mut cells: Vec<String> = Vec::new();
    cells.push(field_text(&cycle.name, ""));
    cells.push(number);
    cells.push(cycle.starts_at.clone());
    cells.push(cycle.ends_at.clone());
    assert(cells.deep_view() =~= cycle_cells_with(number@, cycle@));
    cells
}

/// The cells of a value in the table of the values of a field.
pub fn value_row(row: &IssueRelatableObject) -> (res: Vec<String>)
    ensures
        res.deep_view() == value_cells(row@),
{
    let mut cells: Vec<String> = Vec::new();
    match row {
        IssueRelatableObject::WorkflowState(state) => {
            cells.push(state.name.clone());
            cells.push(state.state_type.clone());
            cells.push(field_text(&state.description, ""));
        },
        IssueRelatableObject::Assignee(user) => {
            cells.push(field_text(&user.name, ""));
            cells.push(field_text(&user.display_name, ""));
        },
        IssueRelatableObject::Project(project) => {
            cells.push(field_text(&project.name, ""));
            cells.push(field_text(&project.state, ""));
        },
        IssueRelatableObject::Cycle(cycle) => {
            return cycle_row_with(number_text(cycle.number as i64), cycle);
        },
    }
    assert(cells.deep_view() =~= value_cells(row@));
    cells
}

/// The heading under which an issue is shown while one of its fields is
/// changed, with `number` as the text of its number: number and title.
pub open spec fn heading_with(number: Seq<char>, title: Option<Seq<char>>) -> Seq<char> {
    number + " - "@ + text_or(title, "ERR TITLE NOT FOUND"@)
}

/// The heading under which an issue is shown while one of its fields is
/// changed. An issue without a number shows 0.
pub open spec fn issue_heading_text(issue: IssueView) -> Seq<char> {
    heading_with(
        decimal(
            match issue.number {
                Some(n) => n as int,
                None => 0,
            },
        ),
        issue.title,
    )
}

/// The heading of an issue, given the text of its number.
pub fn heading_from(number: String, title: &Option<String>) -> (res: String)
    ensures
        res@ == heading_with(number@, title.deep_view()),
{
    let mut heading = number;
    heading.append(" - ");
    let title = field_text(title, "ERR TITLE NOT FOUND");
    heading.append(title.as_str());
    heading
}

/// The heading under which an issue is shown while one of its fields is
/// changed.
pub fn issue_heading(issue: &Issue) -> (res: String)
    ensures
        res@ == issue_heading_text(issue@),
{
    let number = number_text(
        match issue.number {
            Some(n) => n,
            None => 0,
        },
    );
    heading_from(number, &issue.title)
}

} // verus!
