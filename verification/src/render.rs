//! Rendering a month grid as lines of fixed-width text.

use vstd::prelude::*;

use crate::day_count::{lemma_same_month, weekday_index};
use crate::date::valid_year_month;
use crate::grid::{CellModel, DayCell, GridModel, MonthGrid};
use crate::month::{lemma_month_name_length, month_name, month_name_text};
use crate::style::{is_plain, lemma_style_is_invisible, lemma_visible_plain, style, styled, visible};
use crate::text::{
    centered,
    decimal,
    decimal_digits,
    digit_char,
    push_decimal,
    push_spaces,
    right_aligned,
    spaces,
};
use crate::weekday::{short_weekday, short_weekday_name, Weekday};

verus! {

/// The width of the weekday header, and with it of every full week line as
/// it shows on the terminal, but for its last space.
pub const HEADER_WIDTH: usize = 27;

/// The weekday header: the short names from Monday to Sunday with one space
/// between them.
pub open spec fn weekday_header_text() -> Seq<char> {
    "Mon Tue Wed Thu Fri Sat Sun"@
}

/// The title of a month: its name, a space, and the year.
pub open spec fn title_text(year: int, month: int) -> Seq<char> {
    month_name_text(month) + seq![' '] + decimal(year)
}

/// The number of a day at the right of a field of three characters.
pub open spec fn day_field(day: int) -> Seq<char> {
    right_aligned(decimal(day), 3)
}

/// What is written for a cell: the day field in the style of the cell's
/// category, and a space.
pub open spec fn cell_text(cell: CellModel) -> Seq<char> {
    styled(cell.category, day_field(cell.date.day)) + seq![' ']
}

/// The number of slots of a grid: its leading blanks and its cells.
pub open spec fn slot_count(grid: GridModel) -> int {
    grid.offset + grid.cells.len()
}

/// What is written for a slot: four spaces for a leading blank, and for a
/// later slot the text of its cell.
pub open spec fn slot_text(grid: GridModel, slot: int) -> Seq<char> {
    if slot < grid.offset {
        spaces(4)
    } else {
        cell_text(grid.cells[slot - grid.offset])
    }
}

/// The texts of the slots from `from` up to, and without, `to`, one after
/// the other.
pub open spec fn slots_text(grid: GridModel, from: int, to: int) -> Seq<char>
    decreases to - from,
{
    if from >= to {
        Seq::empty()
    } else {
        slots_text(grid, from, to - 1) + slot_text(grid, to - 1)
    }
}

/// The number of week lines of a grid: seven slots to a line, the last line
/// as long as the month lasts.
pub open spec fn week_count(grid: GridModel) -> int {
    (slot_count(grid) + 6) / 7
}

/// The slot after the last one of week line `week`.
pub open spec fn week_end(grid: GridModel, week: int) -> int {
    if 7 * week + 7 <= slot_count(grid) {
        7 * week + 7
    } else {
        slot_count(grid)
    }
}

/// Week line `week` of a grid, counted from 0.
pub open spec fn week_line(grid: GridModel, week: int) -> Seq<char> {
    slots_text(grid, 7 * week, week_end(grid, week))
}

/// The lines of a month: the title in the middle of the header's width, the
/// weekday header, the week lines, and one empty line.
pub open spec fn month_lines(grid: GridModel) -> Seq<Seq<char>> {
    seq![centered(title_text(grid.year, grid.month), HEADER_WIDTH as int), weekday_header_text()]
        + Seq::new(week_count(grid) as nat, |week: int| week_line(grid, week)) + seq![
        Seq::<char>::empty(),
    ]
}

/// The lines of several months: those of each month, with one empty line
/// between one month and the next.
pub open spec fn quarter_lines(grids: Seq<GridModel>) -> Seq<Seq<char>>
    decreases grids.len(),
{
    if grids.len() == 0 {
        Seq::empty()
    } else if grids.len() == 1 {
        month_lines(grids[0])
    } else {
        quarter_lines(grids.drop_last()) + seq![Seq::<char>::empty()] + month_lines(grids.last())
    }
}

/// The text of each line.
pub open spec fn lines_text(lines: Seq<String>) -> Seq<Seq<char>> {
    Seq::new(lines.len(), |i: int| lines[i]@)
}

/// The model of each grid.
pub open spec fn grid_models(grids: Seq<MonthGrid>) -> Seq<GridModel> {
    Seq::new(grids.len(), |i: int| grids[i]@)
}

/// The weekday header: the short names from Monday to Sunday with one space
/// between them.
pub fn weekday_header() -> (header: String)
    ensures
        header@ == weekday_header_text(),
        header@.len() == HEADER_WIDTH,
{
    let mut header = String::new();
    let mut offset: i8 = 0;
    while offset < 7
        invariant
            0 <= offset <= 7,
            header@ == header_upto(offset as int),
        decreases 7 - offset,
    {
        if offset > 0 {
            header.append(" ");
        }
        let weekday = match Weekday::from_monday_offset(offset) {
            Some(weekday) => weekday,
            None => Weekday::Monday,
        };
        header.append(short_weekday(weekday));
        offset = offset + 1;
    }
    proof {
        lemma_header_text();
    }
    header
}

/// The header as far as it is written after `count` weekdays.
spec fn header_upto(count: int) -> Seq<char>
    decreases count,
{
    if count <= 0 {
        Seq::empty()
    } else if count == 1 {
        short_weekday_name(Weekday::Monday)
    } else {
        header_upto(count - 1) + " "@ + short_weekday_name(Weekday::at_offset(count - 1))
    }
}

proof fn lemma_header_text()
    ensures
        header_upto(7) == weekday_header_text(),
        weekday_header_text().len() == 27,
{
    reveal_with_fuel(header_upto, 8);
    reveal_strlit(" ");
    reveal_strlit("Mon");
    reveal_strlit("Tue");
    reveal_strlit("Wed");
    reveal_strlit("Thu");
    reveal_strlit("Fri");
    reveal_strlit("Sat");
    reveal_strlit("Sun");
    reveal_strlit("Mon Tue Wed Thu Fri Sat Sun");
    assert(header_upto(7) =~= weekday_header_text());
}

/// `text` in the middle of a field of `width` characters; the extra space of
/// an uneven padding goes to the right.
pub fn center(text: &str, width: usize) -> (line: String)
    ensures
        line@ == centered(text@, width as int),
{
    let length = text.unicode_len();
    let mut line = String::new();
    if length >= width {
        line.append(text);
        assert(line@ =~= centered(text@, width as int));
    } else {
        let padding = width - length;
        let left = padding / 2;
        push_spaces(&mut line, left);
        line.append(text);
        push_spaces(&mut line, padding - left);
        assert(line@ =~= centered(text@, width as int));
    }
    line
}

/// `text` at the right end of a field of `width` characters.
pub fn right_align(text: &str, width: usize) -> (field: String)
    ensures
        field@ == right_aligned(text@, width as int),
{
    let length = text.unicode_len();
    let mut field = String::new();
    if length < width {
        push_spaces(&mut field, width - length);
    }
    field.append(text);
    assert(field@ =~= right_aligned(text@, width as int));
    field
}

/// The title line of a month: its name and the year, in the middle of the
/// header's width.
pub fn title_line(year: i16, month: i8) -> (line: String)
    requires
        1 <= month <= 12,
    ensures
        line@ == centered(title_text(year as int, month as int), HEADER_WIDTH as int),
{
    let mut title = String::from_str(month_name(month));
    proof {
        reveal_strlit(" ");
    }
    title.append(" ");
    push_decimal(&mut title, year as i32);
    assert(title@ =~= title_text(year as int, month as int));
    center(title.as_str(), HEADER_WIDTH)
}

/// What is written for one cell: the day at the right of three characters,
/// in the style of the cell's category, and a space.
pub fn render_cell(cell: &DayCell) -> (text: String)
    ensures
        text@ == cell_text(cell@),
{
    let mut number = String::new();
    push_decimal(&mut number, cell.date.day() as i32);
    assert(number@ =~= decimal(cell@.date.day));
    let field = right_align(number.as_str(), 3);
    let mut text = style(field.as_str(), cell.category);
    proof {
        reveal_strlit(" ");
    }
    text.append(" ");
    text
}

/// Appends the lines of a month to `out`.
pub fn render_month_into(grid: &MonthGrid, out: &mut Vec<String>)
    ensures
        lines_text(final(out)@) == lines_text(old(out)@) + month_lines(grid@),
{
    proof {
        use_type_invariant(grid);
    }
    let ghost before = lines_text(out@);
    let ghost head = seq![
        centered(title_text(grid@.year, grid@.month), HEADER_WIDTH as int),
        weekday_header_text(),
    ];
    out.push(title_line(grid.year(), grid.month()));
    out.push(weekday_header());
    assert(lines_text(out@) =~= before + head);
    let offset = grid.offset() as usize;
    let total = offset + grid.len();
    let mut slot: usize = 0;
    let mut week: usize = 0;
    while slot < total
        invariant
            grid@.is_month(),
            offset == grid@.offset,
            total == slot_count(grid@),
            slot == 7 * week || slot == total,
            slot <= total,
            7 * week >= total ==> slot == total,
            week <= week_count(grid@),
            slot == total ==> week == week_count(grid@),
            lines_text(out@) == before + head + Seq::new(
                week as nat,
                |w: int| week_line(grid@, w),
            ),
        decreases total - slot,
    {
        let end = if total - slot >= 7 {
            slot + 7
        } else {
            total
        };
        assert(end == week_end(grid@, week as int));
        let ghost start = slot;
        let ghost lines_before = lines_text(out@);
        let mut line = String::new();
        while slot < end
            invariant
                grid@.is_month(),
                offset == grid@.offset,
                total == slot_count(grid@),
                start <= slot <= end <= total,
                line@ == slots_text(grid@, start as int, slot as int),
            decreases end - slot,
        {
            if slot < offset {
                push_spaces(&mut line, 4);
            } else {
                let cell = grid.cell(slot - offset);
                let text = render_cell(&cell);
                line.append(text.as_str());
            }
            slot = slot + 1;
        }
        out.push(line);
        week = week + 1;
        assert(lines_text(out@) =~= lines_before.push(week_line(grid@, week - 1)));
        assert(lines_text(out@) =~= before + head + Seq::new(
            week as nat,
            |w: int| week_line(grid@, w),
        ));
    }
    let ghost weeks = Seq::new(week_count(grid@) as nat, |w: int| week_line(grid@, w));
    assert(lines_text(out@) == before + head + weeks);
    out.push(String::new());
    assert(lines_text(out@) =~= (before + head + weeks).push(Seq::<char>::empty()));
    assert(month_lines(grid@) == head + weeks + seq![Seq::<char>::empty()]);
    assert(lines_text(out@) =~= before + month_lines(grid@));
}

/// The lines of a month: the title, the weekday header, one line for each
/// week from Monday to Sunday, and an empty line. The first week line
/// begins with four spaces for each weekday before day 1.
pub fn render_month(grid: &MonthGrid) -> (lines: Vec<String>)
    ensures
        lines_text(lines@) == month_lines(grid@),
{
    let mut lines: Vec<String> = Vec::new();
    render_month_into(grid, &mut lines);
    assert(lines_text(lines@) =~= month_lines(grid@));
    lines
}

/// The lines of several months, such as the three of a quarter: those of
/// each month, with one empty line between one month and the next and none
/// after the last.
pub fn render_quarter(grids: &Vec<MonthGrid>) -> (lines: Vec<String>)
    ensures
        lines_text(lines@) == quarter_lines(grid_models(grids@)),
{
    let mut lines: Vec<String> = Vec::new();
    let mut done: usize = 0;
    assert(lines_text(lines@) =~= quarter_lines(grid_models(grids@).take(0)));
    while done < grids.len()
        invariant
            done <= grids@.len(),
            lines_text(lines@) == quarter_lines(grid_models(grids@).take(done as int)),
        decreases grids@.len() - done,
    {
        let ghost models = grid_models(grids@);
        if done > 0 {
            lines.push(String::new());
        }
        let ghost separated = lines_text(lines@);
        assert(separated =~= if done > 0 {
            quarter_lines(models.take(done as int)) + seq![Seq::<char>::empty()]
        } else {
            Seq::<Seq<char>>::empty()
        });
        render_month_into(&grids[done], &mut lines);
        done = done + 1;
        assert(models.take(done as int).drop_last() =~= models.take(done - 1));
        assert(models.take(done as int).last() == grids@[done - 1]@);
        assert(models.take(1)[0] == models[0]);
        assert(lines_text(lines@) =~= quarter_lines(models.take(done as int)));
    }
    assert(grid_models(grids@).take(grids@.len() as int) =~= grid_models(grids@));
    lines
}

/// In the grid of a month, the cell in slot `s` shows a day whose distance
/// from Monday is the remainder of `s` by 7. So each day stands under the
/// name of its weekday, and every week line but the last ends with a
/// Sunday.
pub proof fn lemma_columns_are_weekdays(grid: GridModel, index: int)
    requires
        grid.is_month(),
        0 <= index < grid.cells.len(),
    ensures
        weekday_index(grid.cells[index].date) == (grid.offset + index) % 7,
        0 <= grid.offset <= 6,
{
    lemma_same_month(grid.year, grid.month, 1, index + 1);
}

/// What a slot shows on the terminal: four spaces for a leading blank, and
/// for a later slot the day at the right of three characters, and a space.
pub open spec fn slot_shown(grid: GridModel, slot: int) -> Seq<char> {
    if slot < grid.offset {
        spaces(4)
    } else {
        day_field(grid.cells[slot - grid.offset].date.day) + seq![' ']
    }
}

/// What the slots from `from` up to, and without, `to` show on the
/// terminal.
pub open spec fn slots_shown(grid: GridModel, from: int, to: int) -> Seq<char>
    decreases to - from,
{
    if from >= to {
        Seq::empty()
    } else {
        slots_shown(grid, from, to - 1) + slot_shown(grid, to - 1)
    }
}

/// The field of a day of the month is three characters wide and holds no
/// escape character.
pub proof fn lemma_day_field(day: int)
    requires
        1 <= day <= 31,
    ensures
        day_field(day).len() == 3,
        is_plain(day_field(day)),
{
    reveal_with_fuel(decimal_digits, 2);
    let digits = decimal(day);
    if day < 10 {
        assert(digits =~= seq![digit_char(day)]);
    } else {
        assert(digits =~= seq![digit_char(day / 10), digit_char(day % 10)]);
    }
    assert forall|i: int| 0 <= i < day_field(day).len() implies #[trigger] day_field(day)[i]
        != '\u{1b}' by {
        if i >= 3 - digits.len() {
            assert(day_field(day)[i] == digits[i - (3 - digits.len())]);
        }
    }
}

proof fn lemma_slots_show(grid: GridModel, from: int, to: int, rest: Seq<char>)
    requires
        grid.is_month(),
        0 <= from <= to <= slot_count(grid),
    ensures
        visible(slots_text(grid, from, to) + rest) == slots_shown(grid, from, to) + visible(rest),
        slots_shown(grid, from, to).len() == 4 * (to - from),
    decreases to - from,
{
    if from >= to {
        assert(slots_text(grid, from, to) + rest =~= rest);
        assert(slots_shown(grid, from, to) + visible(rest) =~= visible(rest));
    } else {
        let slot = to - 1;
        let last = slot_text(grid, slot) + rest;
        lemma_slots_show(grid, from, slot, last);
        assert(slots_text(grid, from, to) + rest =~= slots_text(grid, from, slot) + last);
        if slot < grid.offset {
            assert(is_plain(spaces(4)));
            lemma_visible_plain(spaces(4), rest);
        } else {
            let cell = grid.cells[slot - grid.offset];
            let field = day_field(cell.date.day);
            lemma_day_field(cell.date.day);
            assert(last =~= styled(cell.category, field) + (seq![' '] + rest));
            lemma_style_is_invisible(cell.category, field, seq![' '] + rest);
            assert(is_plain(seq![' ']));
            lemma_visible_plain(seq![' '], rest);
            assert(field + (seq![' '] + visible(rest)) =~= slot_shown(grid, slot) + visible(rest));
        }
        assert(slots_shown(grid, from, slot) + (slot_shown(grid, slot) + visible(rest))
            =~= slots_shown(grid, from, to) + visible(rest));
    }
}

/// The colours do not move the columns. Every week line shows, on the
/// terminal, four characters for each of its slots: the day at the right of
/// three characters, or three spaces for a blank, and a space. So every
/// week line before the last shows seven days under the seven names of the
/// header, and the last at least one.
pub proof fn lemma_week_line_width(grid: GridModel, week: int)
    requires
        grid.is_month(),
        0 <= week < week_count(grid),
    ensures
        visible(week_line(grid, week)) == slots_shown(grid, 7 * week, week_end(grid, week)),
        visible(week_line(grid, week)).len() == 4 * (week_end(grid, week) - 7 * week),
        week < week_count(grid) - 1 ==> visible(week_line(grid, week)).len() == HEADER_WIDTH + 1,
        4 <= visible(week_line(grid, week)).len() <= HEADER_WIDTH + 1,
        4 <= week_count(grid) <= 6,
{
    let line = week_line(grid, week);
    lemma_slots_show(grid, 7 * week, week_end(grid, week), Seq::empty());
    assert(line + Seq::<char>::empty() =~= line);
    assert(slots_shown(grid, 7 * week, week_end(grid, week)) + visible(Seq::<char>::empty())
        =~= slots_shown(grid, 7 * week, week_end(grid, week)));
}

/// The title of a supported month fits the header: its line is exactly as
/// wide as the weekday header.
pub proof fn lemma_title_width(year: int, month: int)
    requires
        valid_year_month(year, month),
    ensures
        centered(title_text(year, month), HEADER_WIDTH as int).len() == HEADER_WIDTH,
        weekday_header_text().len() == HEADER_WIDTH,
{
    lemma_month_name_length(month);
    lemma_header_text();
    reveal_with_fuel(decimal_digits, 4);
    assert(decimal(year).len() <= 5);
}

} // verus!
