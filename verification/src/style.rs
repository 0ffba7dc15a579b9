//! Terminal colours for the categories of a day. The colour codes come from
//! the `owo_colors` crate; this module states what it writes.

use vstd::prelude::*;

use crate::grid::Category;

verus! {

/// The escape sequence that switches the foreground to blue.
pub open spec fn blue_on() -> Seq<char> {
    seq!['\u{1b}', '[', '3', '4', 'm']
}

/// The escape sequence that switches the foreground to yellow.
pub open spec fn yellow_on() -> Seq<char> {
    seq!['\u{1b}', '[', '3', '3', 'm']
}

/// The escape sequence that switches the foreground to the grey with red,
/// green and blue all 128.
pub open spec fn gray_on() -> Seq<char> {
    seq![
        '\u{1b}',
        '[',
        '3',
        '8',
        ';',
        '2',
        ';',
        '1',
        '2',
        '8',
        ';',
        '1',
        '2',
        '8',
        ';',
        '1',
        '2',
        '8',
        'm',
    ]
}

/// The escape sequence that switches the foreground back to its default.
pub open spec fn color_off() -> Seq<char> {
    seq!['\u{1b}', '[', '3', '9', 'm']
}

/// `text` as it is written for a day of the given category: unchanged for a
/// normal day, else between the escape sequence of the category's colour
/// and the one that ends it. The escape sequences take no room on the
/// terminal.
pub open spec fn styled(category: Category, text: Seq<char>) -> Seq<char> {
    match category {
        Category::Normal => text,
        Category::Today => blue_on() + text + color_off(),
        Category::CurrentWeek => yellow_on() + text + color_off(),
        Category::Weekend => gray_on() + text + color_off(),
    }
}

/// `owo_colors::OwoColorize::blue`, written out: the text after the escape
/// sequence for a blue foreground and before the one for the default
/// foreground.
#[verifier::external_body]
fn paint_blue(text: &str) -> (painted: String)
    ensures
        painted@ == blue_on() + text@ + color_off(),
{
    format!("{}", owo_colors::OwoColorize::blue(&text))
}

/// `owo_colors::OwoColorize::yellow`, written out: the text after the escape
/// sequence for a yellow foreground and before the one for the default
/// foreground.
#[verifier::external_body]
fn paint_yellow(text: &str) -> (painted: String)
    ensures
        painted@ == yellow_on() + text@ + color_off(),
{
    format!("{}", owo_colors::OwoColorize::yellow(&text))
}

/// `owo_colors::OwoColorize::fg` with the colour `css::Gray`, written out:
/// the text after the escape sequence for a foreground of red, green and
/// blue 128 and before the one for the default foreground.
#[verifier::external_body]
fn paint_gray(text: &str) -> (painted: String)
    ensures
        painted@ == gray_on() + text@ + color_off(),
{
    format!("{}", owo_colors::OwoColorize::fg::<owo_colors::colors::css::Gray>(&text))
}

/// `text` in the colour of `category`.
pub fn style(text: &str, category: Category) -> (shown: String)
    ensures
        shown@ == styled(category, text@),
{
    match category {
        Category::Normal => String::from_str(text),
        Category::Today => paint_blue(text),
        Category::CurrentWeek => paint_yellow(text),
        Category::Weekend => paint_gray(text),
    }
}

/// What of `text` shows on a terminal: the text without its colour codes.
/// A colour code runs from an escape character up to the next `m`.
pub open spec fn visible(text: Seq<char>) -> Seq<char>
    decreases text.len(),
{
    if text.len() == 0 {
        Seq::empty()
    } else if text[0] == '\u{1b}' {
        after_code(text.skip(1))
    } else {
        seq![text[0]] + visible(text.skip(1))
    }
}

/// What shows of a text that begins inside a colour code.
pub open spec fn after_code(text: Seq<char>) -> Seq<char>
    decreases text.len(),
{
    if text.len() == 0 {
        Seq::empty()
    } else if text[0] == 'm' {
        visible(text.skip(1))
    } else {
        after_code(text.skip(1))
    }
}

/// Whether `text` holds no escape character.
pub open spec fn is_plain(text: Seq<char>) -> bool {
    forall|i: int| 0 <= i < text.len() ==> #[trigger] text[i] != '\u{1b}'
}

/// A text without escape characters shows as it is, whatever follows it.
pub proof fn lemma_visible_plain(text: Seq<char>, rest: Seq<char>)
    requires
        is_plain(text),
    ensures
        visible(text + rest) == text + visible(rest),
    decreases text.len(),
{
    if text.len() == 0 {
        assert(text + rest =~= rest);
        assert(text + visible(rest) =~= visible(rest));
    } else {
        let tail = text.skip(1);
        assert(text[0] != '\u{1b}');
        assert forall|i: int| 0 <= i < tail.len() implies #[trigger] tail[i] != '\u{1b}' by {
            assert(tail[i] == text[i + 1]);
        }
        lemma_visible_plain(tail, rest);
        assert((text + rest).skip(1) =~= tail + rest);
        assert((text + rest)[0] == text[0]);
        assert(seq![text[0]] + (tail + visible(rest)) =~= text + visible(rest));
    }
}

/// A colour code shows nothing: what follows its closing `m` shows as if
/// the code were not there.
proof fn lemma_after_code(body: Seq<char>, rest: Seq<char>)
    requires
        forall|i: int| 0 <= i < body.len() ==> #[trigger] body[i] != 'm',
    ensures
        after_code(body + seq!['m'] + rest) == visible(rest),
    decreases body.len(),
{
    let text = body + seq!['m'] + rest;
    if body.len() == 0 {
        assert(text[0] == 'm');
        assert(text.skip(1) =~= rest);
    } else {
        let tail = body.skip(1);
        assert(text[0] == body[0]);
        assert forall|i: int| 0 <= i < tail.len() implies #[trigger] tail[i] != 'm' by {
            assert(tail[i] == body[i + 1]);
        }
        lemma_after_code(tail, rest);
        assert(text.skip(1) =~= tail + seq!['m'] + rest);
    }
}

proof fn lemma_code_shows_nothing(body: Seq<char>, rest: Seq<char>)
    requires
        forall|i: int| 0 <= i < body.len() ==> #[trigger] body[i] != 'm',
    ensures
        visible(seq!['\u{1b}'] + body + seq!['m'] + rest) == visible(rest),
{
    let text = seq!['\u{1b}'] + body + seq!['m'] + rest;
    assert(text[0] == '\u{1b}');
    assert(text.skip(1) =~= body + seq!['m'] + rest);
    lemma_after_code(body, rest);
}

/// The colour of a category takes no room: a styled text without escape
/// characters of its own shows as the text itself, whatever follows it.
pub proof fn lemma_style_is_invisible(category: Category, text: Seq<char>, rest: Seq<char>)
    requires
        is_plain(text),
    ensures
        visible(styled(category, text) + rest) == text + visible(rest),
{
    let off = seq!['[', '3', '9'];
    let on = match category {
        Category::Normal => Seq::<char>::empty(),
        Category::Today => seq!['[', '3', '4'],
        Category::CurrentWeek => seq!['[', '3', '3'],
        Category::Weekend => seq![
            '[',
            '3',
            '8',
            ';',
            '2',
            ';',
            '1',
            '2',
            '8',
            ';',
            '1',
            '2',
            '8',
            ';',
            '1',
            '2',
            '8',
        ],
    };
    if category == Category::Normal {
        lemma_visible_plain(text, rest);
    } else {
        let closing = seq!['\u{1b}'] + off + seq!['m'] + rest;
        assert(color_off() + rest =~= closing);
        assert(styled(category, text) + rest =~= seq!['\u{1b}'] + on + seq!['m'] + (text
            + closing));
        lemma_code_shows_nothing(on, text + closing);
        lemma_visible_plain(text, closing);
        lemma_code_shows_nothing(off, rest);
    }
}

} // verus!
