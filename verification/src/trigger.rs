//! The text of a dropdown trigger (the one-line field of a select or an
//! autocomplete): the value or placeholder fitted to the field's width, the
//! text cursor when the field is focused, and the open/closed indicator.
//!
//! Widths are counted in characters.
use vstd::prelude::*;

verus! {

/// The columns left for text in a trigger `width` columns wide: the
/// indicator and the space before it take two.
pub open spec fn text_width_spec(width: u16) -> int {
    if width < 2 { 0 } else { width - 2 }
}

/// See [`text_width_spec`].
pub fn text_width(width: u16) -> (r: usize)
    ensures
        r == text_width_spec(width),
{
    width.saturating_sub(2) as usize
}

/// `n` spaces.
pub open spec fn spaces(n: nat) -> Seq<char> {
    Seq::new(n, |_i: int| ' ')
}

/// `text` fitted to `width` columns: cut to `width - 1` characters and
/// ended by `…` when it is longer, else padded with spaces to `width`.
pub open spec fn fitted(text: Seq<char>, width: int) -> Seq<char> {
    if text.len() > width {
        text.take(if width < 1 { 0 } else { width - 1 }).push('…')
    } else {
        text + spaces((width - text.len()) as nat)
    }
}

/// `s` followed by `n` spaces.
fn pad_spaces(s: &mut String, n: usize)
    ensures
        final(s)@ == old(s)@ + spaces(n as nat),
{
    let mut k: usize = 0;
    while k < n
        invariant
            k <= n,
            s@ == old(s)@ + spaces(k as nat),
        decreases n - k,
    {
        s.append(" ");
        proof {
            reveal_strlit(" ");
            assert(old(s)@ + spaces(k as nat) + " "@ =~= old(s)@ + spaces((k + 1) as nat));
        }
        k = k + 1;
    }
}

/// A fitted text fills exactly the width (one column at least once it is
/// cut): a text that fits keeps all its characters, followed by spaces; a
/// longer one keeps its start and ends with `…`.
pub proof fn law_fitted_fills_width(text: Seq<char>, width: int)
    requires
        width >= 0,
    ensures
        ({
            let r = fitted(text, width);
            &&& text.len() <= width ==> r.len() == width && r.take(text.len() as int) == text
                && (forall|i: int| text.len() <= i < width ==> r[i] == ' ')
            &&& text.len() > width ==> r.len() == (if width < 1 { 1 } else { width }) && r.last() == '…'
                && r.drop_last() == text.take(r.len() - 1)
        }),
{
    let r = fitted(text, width);
    if text.len() <= width {
        assert(r.take(text.len() as int) =~= text);
    } else {
        assert(r.drop_last() =~= text.take(r.len() - 1));
    }
}

/// See [`fitted`].
pub fn fit_text(text: &str, width: usize) -> (r: String)
    ensures
        r@ == fitted(text@, width as int),
{
    let n = text.unicode_len();
    if n > width {
        let keep: usize = if width < 1 { 0 } else { width - 1 };
        let mut r = String::from_str(text.substring_char(0, keep));
        r.append("…");
        proof {
            reveal_strlit("…");
            assert(r@ =~= text@.take(keep as int).push('…'));
        }
        r
    } else {
        let mut r = String::from_str(text);
        pad_spaces(&mut r, width - n);
        r
    }
}

/// The indicator at the end of a trigger: `▲` while the dropdown is open,
/// `▼` while it is closed.
pub fn indicator(open: bool) -> (r: &'static str)
    ensures
        r@ == (if open { "▲"@ } else { "▼"@ }),
{
    if open { "▲" } else { "▼" }
}

/// The text of a focused, non-empty field around its cursor.
#[derive(Debug, Clone)]
pub struct CursorWindow {
    /// The characters before the cursor that fit (the last ones).
    pub before: String,
    /// The character under the cursor, or a space at the end of the text.
    pub at: char,
    /// The characters after the cursor that fit (the first ones).
    pub after: String,
    /// The spaces that fill the rest of the text width.
    pub padding: usize,
}

/// The characters of `value` before character `cursor` that fit in `width`
/// columns with the cursor: the last `width - 1` of them.
pub open spec fn window_before(value: Seq<char>, cursor: int, width: int) -> Seq<char> {
    let before = value.take(cursor);
    let room: int = if width < 1 { 0 } else { width - 1 };
    if before.len() > room { before.skip(before.len() - room) } else { before }
}

/// The character under the cursor: the one at `cursor`, or a space at the
/// end of `value`.
pub open spec fn window_at(value: Seq<char>, cursor: int) -> char {
    if cursor < value.len() { value[cursor] } else { ' ' }
}

/// The characters after the cursor character that fit in what `before`
/// and the cursor leave of `width`.
pub open spec fn window_after(value: Seq<char>, cursor: int, width: int) -> Seq<char> {
    let rest = if cursor < value.len() { value.skip(cursor + 1) } else { Seq::empty() };
    let used = window_before(value, cursor, width).len() + 1;
    let room: int = if width < used { 0 } else { width - used };
    if rest.len() > room { rest.take(room) } else { rest }
}

/// The spaces after the text, up to `width`.
pub open spec fn window_padding(value: Seq<char>, cursor: int, width: int) -> int {
    let used = window_before(value, cursor, width).len() + 1 + window_after(value, cursor, width).len();
    if width < used { 0 } else { width - used }
}

/// The window around the cursor shows the text next to the cursor and
/// fits the width: `before` ends right at the cursor, `after` starts right
/// after the cursor character, and together with the cursor and the
/// padding they take exactly the width (when the width leaves room for the
/// cursor).
pub proof fn law_window_is_next_to_cursor(value: Seq<char>, cursor: int, width: int)
    requires
        0 <= cursor <= value.len(),
        width >= 1,
    ensures
        ({
            let b = window_before(value, cursor, width);
            let a = window_after(value, cursor, width);
            &&& b.len() <= cursor && b == value.subrange(cursor - b.len(), cursor)
            &&& (cursor < value.len() ==> window_at(value, cursor) == value[cursor])
            &&& (cursor < value.len() ==> a == value.subrange(cursor + 1, cursor + 1 + a.len()))
            &&& (cursor == value.len() ==> a.len() == 0)
            &&& b.len() + 1 + a.len() + window_padding(value, cursor, width) == width
            &&& (b.len() < cursor ==> b.len() == width - 1)
        }),
{
    let b = window_before(value, cursor, width);
    let before = value.take(cursor);
    assert(b =~= value.subrange(cursor - b.len(), cursor));
    if cursor < value.len() {
        let a = window_after(value, cursor, width);
        assert(a =~= value.subrange(cursor + 1, cursor + 1 + a.len()));
    }
}

/// The window of `value` shown around character `cursor` in `width`
/// columns: the text before the cursor keeps its end, the text after it
/// keeps its start.
pub fn cursor_window(value: &str, cursor: usize, width: usize) -> (r: CursorWindow)
    requires
        cursor <= value@.len(),
    ensures
        r.before@ == window_before(value@, cursor as int, width as int),
        r.at == window_at(value@, cursor as int),
        r.after@ == window_after(value@, cursor as int, width as int),
        r.padding == window_padding(value@, cursor as int, width as int),
{
    let n = value.unicode_len();
    let room: usize = if width < 1 { 0 } else { width - 1 };
    let start: usize = if cursor > room { cursor - room } else { 0 };
    let before = String::from_str(value.substring_char(start, cursor));
    proof {
        let b = value@.take(cursor as int);
        if cursor > room {
            assert(before@ =~= b.skip(b.len() - room));
        } else {
            assert(before@ =~= b);
        }
    }
    let at: char = if cursor < n { value.get_char(cursor) } else { ' ' };
    let rest_start: usize = if cursor < n { cursor + 1 } else { n };
    let rest_len: usize = n - rest_start;
    let used: usize = (cursor - start) + 1;
    let after_room: usize = if width < used { 0 } else { width - used };
    let take: usize = if rest_len > after_room { after_room } else { rest_len };
    let after = String::from_str(value.substring_char(rest_start, rest_start + take));
    proof {
        let rest = if (cursor as int) < value@.len() { value@.skip(cursor + 1) } else { Seq::<char>::empty() };
        assert(rest =~= value@.subrange(rest_start as int, n as int));
        assert(after@ =~= (if rest.len() > after_room { rest.take(after_room as int) } else { rest }));
    }
    let used_all: usize = used + take;
    let padding: usize = if width < used_all { 0 } else { width - used_all };
    CursorWindow { before, at, after, padding }
}

/// What a trigger shows in its text columns.
#[derive(Debug, Clone)]
pub enum TriggerText {
    /// A focused field with a value: the window around the text cursor.
    Cursor(CursorWindow),
    /// Otherwise: the value, or the placeholder when the value is empty,
    /// fitted to the text width.
    Plain(String),
}

/// The text of an autocomplete trigger `width` columns wide, for `value`
/// with its text cursor at character `cursor`: the window around the
/// cursor when the field is focused and holds a value, else the value (or
/// the placeholder, when the value is empty) fitted to the text width.
pub fn autocomplete_trigger_text(value: &str, placeholder: &str, cursor: usize, focused: bool, width: u16) -> (r: TriggerText)
    requires
        cursor <= value@.len(),
    ensures
        ({
            let w = text_width_spec(width);
            if focused && value@.len() > 0 {
                r matches TriggerText::Cursor(win) && {
                    &&& win.before@ == window_before(value@, cursor as int, w)
                    &&& win.at == window_at(value@, cursor as int)
                    &&& win.after@ == window_after(value@, cursor as int, w)
                    &&& win.padding == window_padding(value@, cursor as int, w)
                }
            } else {
                r matches TriggerText::Plain(s) && s@ == fitted(if value@.len() == 0 { placeholder@ } else { value@ }, w)
            }
        }),
{
    let w = text_width(width);
    let n = value.unicode_len();
    if focused && n > 0 {
        TriggerText::Cursor(cursor_window(value, cursor, w))
    } else if n == 0 {
        TriggerText::Plain(fit_text(placeholder, w))
    } else {
        TriggerText::Plain(fit_text(value, w))
    }
}

/// The text of a select trigger `width` columns wide: `display` (the
/// selected label or the placeholder) fitted to the text width.
pub fn select_trigger_text(display: &str, width: u16) -> (r: String)
    ensures
        r@ == fitted(display@, text_width_spec(width)),
{
    fit_text(display, text_width(width))
}

} // verus!
