//! Select widget state: a dropdown selection component.
use std::hash::Hash;
use vstd::prelude::*;
use crate::numfmt::{decimal, decimal_string};
use crate::scroll::{ScrollState, ScrollableWidgetState};
use crate::selection::{keys_behave, keys_equal, toggled, Selection, SelectionMode};

pub mod item;
pub mod widget;

pub use item::SelectItem;
pub use widget::Select;

verus! {

/// At most this many options are shown at once in a dropdown.
pub const MAX_VISIBLE_OPTIONS: u16 = 10;

/// Content height of `n` one-row options, saturating at `u16::MAX`.
pub open spec fn option_rows(n: nat) -> u16 {
    if n > u16::MAX { u16::MAX } else { n as u16 }
}

/// See [`option_rows`].
pub fn option_rows_height(n: usize) -> (r: u16)
    ensures
        r == option_rows(n as nat),
{
    if n > 65535 { 65535 } else { n as u16 }
}

/// Height of a dropdown of `n` options: the count taken as a `u16`
/// (wrapping), capped at [`MAX_VISIBLE_OPTIONS`].
pub fn dropdown_height(n: usize) -> (r: u16)
    ensures
        r == (if (n % 65536) < 10 { (n % 65536) as u16 } else { 10 }),
{
    let m: u16 = #[verifier::truncate] (n as u16);
    assert(m == n % 65536) by (bit_vector)
        requires m == #[verifier::truncate] (n as u16);
    if m < MAX_VISIBLE_OPTIONS { m } else { MAX_VISIBLE_OPTIONS }
}

/// The widest of the labels and the placeholder, in characters.
pub open spec fn widest(labels: Seq<Seq<char>>, placeholder: Seq<char>) -> nat
    decreases labels.len(),
{
    if labels.len() == 0 {
        placeholder.len()
    } else {
        let rest = widest(labels.drop_last(), placeholder);
        if labels.last().len() > rest { labels.last().len() } else { rest }
    }
}

/// The labels of a sequence of options.
pub open spec fn labels_of<T>(options: Seq<(T, String)>) -> Seq<Seq<char>> {
    Seq::new(options.len(), |i: int| options[i].1@)
}

/// Width of a dropdown toggle: the explicit width, or the widest label or
/// placeholder plus 2 (for the arrow and a gap), taken as a `u16` (wrapping).
pub fn toggle_width<T>(explicit: Option<u16>, options: &Vec<(T, String)>, placeholder: &str) -> (r: u16)
    requires
        widest(labels_of(options@), placeholder@) + 2 <= usize::MAX,
    ensures
        r == (match explicit {
            Some(w) => w,
            None => ((widest(labels_of(options@), placeholder@) + 2) % 65536) as u16,
        }),
{
    match explicit {
        Some(w) => w,
        None => {
            let mut widest_len: usize = placeholder.unicode_len();
            let mut i: usize = 0;
            while i < options.len()
                invariant
                    i <= options@.len(),
                    widest_len == widest(labels_of(options@).subrange(0, i as int), placeholder@),
                    widest(labels_of(options@), placeholder@) + 2 <= usize::MAX,
                decreases options@.len() - i,
            {
                proof {
                    let ls = labels_of(options@);
                    assert(ls.subrange(0, i + 1).drop_last() =~= ls.subrange(0, i as int));
                    lemma_widest_prefix_bound(ls, (i + 1) as nat, placeholder@);
                }
                let w = options[i].1.as_str().unicode_len();
                if w > widest_len {
                    widest_len = w;
                }
                i = i + 1;
            }
            proof {
                assert(labels_of(options@).subrange(0, i as int) =~= labels_of(options@));
            }
            let total = widest_len + 2;
            let r: u16 = #[verifier::truncate] (total as u16);
            assert(r == total % 65536) by (bit_vector)
                requires r == #[verifier::truncate] (total as u16);
            r
        },
    }
}

/// The widest of a prefix is at most the widest of the whole.
proof fn lemma_widest_prefix_bound(labels: Seq<Seq<char>>, k: nat, placeholder: Seq<char>)
    requires
        k <= labels.len(),
    ensures
        widest(labels.subrange(0, k as int), placeholder) <= widest(labels, placeholder),
    decreases labels.len(),
{
    if k < labels.len() {
        assert(labels.drop_last().subrange(0, k as int) =~= labels.subrange(0, k as int));
        lemma_widest_prefix_bound(labels.drop_last(), k, placeholder);
    } else {
        assert(labels.subrange(0, k as int) =~= labels);
    }
}

/// The labels of the options whose values are selected, in option order.
pub open spec fn selected_labels_of<T>(options: Seq<(T, String)>, selected: Set<T>) -> Seq<Seq<char>> {
    labels_of(options.filter(|o: (T, String)| selected.contains(o.0)))
}

/// The character sequences of a sequence of `&str`.
pub open spec fn str_views(v: Seq<&str>) -> Seq<Seq<char>> {
    Seq::new(v.len(), |i: int| v[i]@)
}

/// The labels of selected options, as `&str`.
pub fn selected_option_labels<'a, T: Clone + Eq + Hash>(options: &'a Vec<(T, String)>, selection: &Selection<T>) -> (r: Vec<&'a str>)
    ensures
        keys_behave::<T>() ==> str_views(r@) == selected_labels_of(options@, selection.keys()),
{
    let ghost sel = selection.keys();
    let ghost pred = |o: (T, String)| sel.contains(o.0);
    let mut out: Vec<&'a str> = Vec::new();
    let mut i: usize = 0;
    while i < options.len()
        invariant
            i <= options@.len(),
            sel == selection.keys(),
            pred == (|o: (T, String)| sel.contains(o.0)),
            keys_behave::<T>() ==> str_views(out@)
                == labels_of(options@.subrange(0, i as int).filter(pred)),
        decreases options@.len() - i,
    {
        let ghost before = out@;
        proof {
            assert(options@.subrange(0, i + 1) =~= options@.subrange(0, i as int).push(options@[i as int]));
            options@.subrange(0, i as int).lemma_filter_push(options@[i as int], pred);
        }
        if selection.is_selected(&options[i].0) {
            out.push(options[i].1.as_str());
            proof {
                if keys_behave::<T>() {
                    let f = options@.subrange(0, i as int).filter(pred);
                    assert(labels_of(f.push(options@[i as int])) =~= labels_of(f).push(options@[i as int].1@));
                    assert(str_views(out@) =~= str_views(before).push(options@[i as int].1@));
                }
            }
        }
        i = i + 1;
    }
    proof {
        assert(options@.subrange(0, i as int) =~= options@);
    }
    out
}

/// `parts` joined with `sep` between consecutive parts.
pub open spec fn joined(parts: Seq<Seq<char>>, sep: Seq<char>) -> Seq<char>
    decreases parts.len(),
{
    if parts.len() == 0 {
        Seq::empty()
    } else if parts.len() == 1 {
        parts[0]
    } else {
        joined(parts.drop_last(), sep) + sep + parts.last()
    }
}

/// Join `parts` with `sep`.
pub fn join_strs(parts: &Vec<&str>, sep: &str) -> (r: String)
    ensures
        r@ == joined(str_views(parts@), sep@),
{
    let ghost ps = str_views(parts@);
    let mut out = String::new();
    let mut i: usize = 0;
    while i < parts.len()
        invariant
            i <= parts@.len(),
            ps == str_views(parts@),
            out@ == joined(ps.subrange(0, i as int), sep@),
        decreases parts@.len() - i,
    {
        proof {
            assert(ps.subrange(0, i + 1).drop_last() =~= ps.subrange(0, i as int));
        }
        if i > 0 {
            out.append(sep);
        }
        out.append(parts[i]);
        proof {
            if i == 0 {
                assert(out@ =~= ps.subrange(0, 1)[0]);
            }
        }
        i = i + 1;
    }
    proof {
        assert(ps.subrange(0, i as int) =~= ps);
    }
    out
}

/// What a select toggle shows: the placeholder when nothing is selected; in
/// multi-select mode the selected labels joined by ", " when there are at
/// most two of them, else "N selected"; in the other modes the label of the
/// first option whose value is the selected value, or the placeholder.
pub open spec fn display_text_of<T>(mode: SelectionMode, selected: Seq<T>, options: Seq<(T, String)>, placeholder: Seq<char>) -> Seq<char> {
    if selected.len() == 0 {
        placeholder
    } else if mode is Multi {
        let labels = selected_labels_of(options, selected.to_set());
        if labels.len() <= 2 {
            joined(labels, ", "@)
        } else {
            decimal(labels.len()) + " selected"@
        }
    } else {
        match first_option_with(options, selected[0]) {
            Some(i) => options[i].1@,
            None => placeholder,
        }
    }
}

/// With nothing selected a field shows its placeholder, whatever the mode
/// and options; with something selected in multi-selection it shows the
/// selected labels joined by commas while there are at most two, and a
/// count (ending in " selected") beyond that.
pub proof fn law_display_text_placeholder<T>(mode: SelectionMode, selected: Seq<T>, options: Seq<(T, String)>, placeholder: Seq<char>)
    ensures
        selected.len() == 0 ==> display_text_of(mode, selected, options, placeholder) == placeholder,
        selected.len() > 0 && mode is Multi && selected_labels_of(options, selected.to_set()).len() > 2 ==> {
            let t = display_text_of(mode, selected, options, placeholder);
            &&& t.skip(t.len() - 9) == " selected"@
            &&& t.take(t.len() - 9) == decimal(selected_labels_of(options, selected.to_set()).len())
        },
{
    if selected.len() > 0 && mode is Multi && selected_labels_of(options, selected.to_set()).len() > 2 {
        let t = display_text_of(mode, selected, options, placeholder);
        let d = decimal(selected_labels_of(options, selected.to_set()).len());
        reveal_strlit(" selected");
        assert(t.skip(t.len() - 9) =~= " selected"@);
        assert(t.take(t.len() - 9) =~= d);
    }
}

/// The index of the first option whose value is `v`.
pub open spec fn first_option_with<T>(options: Seq<(T, String)>, v: T) -> Option<int> {
    if exists|i: int| 0 <= i < options.len() && options[i].0 == v {
        Some(choose|i: int| 0 <= i < options.len() && options[i].0 == v
            && forall|j: int| 0 <= j < i ==> options[j].0 != v)
    } else {
        None
    }
}

/// The first option whose value is `v`.
pub fn find_option<T: Clone + PartialEq>(options: &Vec<(T, String)>, v: &T) -> (r: Option<usize>)
    ensures
        r matches Some(i) ==> i < options@.len(),
        keys_behave::<T>() ==> (match r {
            Some(i) => first_option_with(options@, *v) == Some(i as int),
            None => first_option_with(options@, *v) is None,
        }),
{
    let mut i: usize = 0;
    while i < options.len()
        invariant
            i <= options@.len(),
            keys_behave::<T>() ==> forall|j: int| 0 <= j < i ==> options@[j].0 != *v,
        decreases options@.len() - i,
    {
        if keys_equal(&options[i].0, v) {
            proof {
                if keys_behave::<T>() {
                    let w = choose|k: int| 0 <= k < options@.len() && options@[k].0 == *v
                        && forall|j: int| 0 <= j < k ==> options@[j].0 != *v;
                    assert(options@[i as int].0 == *v);
                    if w < i { assert(false); }
                    if w > i { assert(false); }
                }
            }
            return Some(i);
        }
        i = i + 1;
    }
    None
}

/// State for a select widget: dropdown open/closed, selected value(s) and
/// the options as (value, label) pairs.
#[derive(Clone, Debug)]
pub struct SelectState<T: Clone + Eq + Hash> {
    /// Whether the dropdown is open.
    pub open: bool,
    /// Selection state (supports single and multi-select).
    pub selection: Selection<T>,
    /// Available options as (value, label) pairs.
    pub options: Vec<(T, String)>,
    /// Scroll state for the dropdown.
    pub scroll: ScrollState,
    /// Scrollbar rect for drag calculations.
    pub scrollbar_rect: Option<(u16, u16, u16, u16)>,
    /// Drag grab offset for scrollbar.
    pub drag_grab_offset: Option<u16>,
}

impl<T: Clone + Eq + Hash> SelectState<T> {
    /// Create a new SelectState with the given options, closed, in
    /// single-select mode with nothing selected.
    pub fn new(options: Vec<(T, String)>) -> (r: Self)
        ensures
            !r.open,
            r.selection.mode == SelectionMode::Single,
            r.selection.keys() == Set::<T>::empty(),
            r.options@ == options@,
            r.scroll.content_height == option_rows(options@.len()),
            r.scroll.offset == 0 && r.scroll.viewport == 0 && r.scroll.request is None,
    {
        let mut state = SelectState {
            open: false,
            selection: Selection::single(),
            options: Vec::new(),
            scroll: ScrollState::new(),
            scrollbar_rect: None,
            drag_grab_offset: None,
        };
        state.set_options(options);
        state
    }

    /// Set options; the content height becomes one row per option.
    pub fn set_options(&mut self, options: Vec<(T, String)>)
        ensures
            final(self).options@ == options@,
            final(self).scroll.content_height == option_rows(options@.len()),
            final(self).scroll.viewport == old(self).scroll.viewport,
            final(self).scroll.offset == (if old(self).scroll.offset < final(self).scroll.max_offset_spec() {
                old(self).scroll.offset
            } else {
                final(self).scroll.max_offset_spec()
            }),
            final(self).scroll.request == old(self).scroll.request,
            final(self).open == old(self).open,
            final(self).selection == old(self).selection,
    {
        self.options = options;
        let total = option_rows_height(self.options.len());
        self.scroll.set_content_height(total);
    }

    /// Set the selection mode (clearing the selection).
    pub fn with_selection(self, mode: SelectionMode) -> (r: Self)
        ensures
            r.selection.mode == mode,
            r.selection.keys() == Set::<T>::empty(),
            r.options == self.options && r.open == self.open && r.scroll == self.scroll,
    {
        let mut s = self;
        s.selection = Selection::for_mode(mode);
        s
    }

    /// Set the initial selected value.
    pub fn with_value(self, value: T) -> (r: Self)
        ensures
            keys_behave::<T>() ==> r.selection.keys() == self.selection.keys().insert(value),
            r.selection.mode == self.selection.mode,
            r.options == self.options && r.open == self.open && r.scroll == self.scroll,
    {
        let mut s = self;
        s.selection.insert(value);
        s
    }

    /// Get the single selected value (for single-select mode).
    ///
    /// Returns `None` if nothing is selected or if in multi-select mode with
    /// multiple selections.
    pub fn value(&self) -> (r: Option<&T>)
        ensures
            r is None <==> (self.selection.keys().is_empty()
                || (self.selection.mode is Multi && self.selection.selected@.len() >= 2)),
            r matches Some(v) ==> *v == self.selection.selected@[0],
    {
        if self.selection.mode == SelectionMode::Multi && self.selection.selected.len() >= 2 {
            proof {
                assert(self.selection.keys().contains(self.selection.selected@[0]));
            }
            return None;
        }
        self.selection.get_single()
    }

    /// Check if a value is selected.
    pub fn is_selected(&self, value: &T) -> (r: bool)
        ensures
            keys_behave::<T>() ==> r == self.selection.keys().contains(*value),
    {
        self.selection.is_selected(value)
    }

    /// Get all selected values.
    pub fn selected_values(&self) -> (r: Vec<&T>)
        ensures
            r@.unref() == self.selection.selected@,
    {
        self.selection.get_all()
    }

    /// Get labels for all selected values, in option order.
    pub fn selected_labels(&self) -> (r: Vec<&str>)
        ensures
            keys_behave::<T>() ==> str_views(r@) == selected_labels_of(self.options@, self.selection.keys()),
    {
        selected_option_labels(&self.options, &self.selection)
    }

    /// The toggle was activated: open a closed dropdown, close an open one.
    pub fn toggle_open(&mut self)
        ensures
            final(self).open == !old(self).open,
            final(self).selection == old(self).selection,
            final(self).options == old(self).options,
            final(self).scroll == old(self).scroll,
    {
        self.open = !self.open;
    }

    /// Close the dropdown (backdrop click, or focus left the widget).
    pub fn close(&mut self)
        ensures
            !final(self).open,
            final(self).selection == old(self).selection,
            final(self).options == old(self).options,
            final(self).scroll == old(self).scroll,
    {
        self.open = false;
    }

    /// An option was activated: toggle its value; in single-select mode the
    /// dropdown closes.
    pub fn choose_option(&mut self, index: usize)
        requires
            index < old(self).options@.len(),
        ensures
            keys_behave::<T>() ==> final(self).selection.keys()
                == toggled(old(self).selection.mode, old(self).selection.keys(), old(self).options@[index as int].0),
            final(self).selection.mode == old(self).selection.mode,
            final(self).open == (old(self).open && old(self).selection.mode is Multi),
            final(self).options == old(self).options,
            final(self).scroll == old(self).scroll,
    {
        let is_multi = self.selection.mode == SelectionMode::Multi;
        let v = self.options[index].0.clone();
        proof { assert(cloned(self.options@[index as int].0, v)); }
        self.selection.toggle(v);
        if !is_multi {
            self.open = false;
        }
    }

    /// What the toggle shows (see [`display_text_of`]).
    pub fn display_text(&self, placeholder: &str) -> (r: String)
        ensures
            keys_behave::<T>() ==> r@ == display_text_of(self.selection.mode, self.selection.selected@, self.options@, placeholder@),
    {
        if self.selection.selected.len() == 0 {
            return placeholder.to_owned();
        }
        if self.selection.mode == SelectionMode::Multi {
            let labels = self.selected_labels();
            let ghost spec_labels = selected_labels_of(self.options@, self.selection.selected@.to_set());
            if labels.len() <= 2 {
                let r = join_strs(&labels, ", ");
                proof {
                    if keys_behave::<T>() {
                        assert(str_views(labels@) == spec_labels);
                        assert(spec_labels.len() <= 2);
                        assert(r@ == joined(spec_labels, ", "@));
                        assert(r@ == display_text_of(self.selection.mode, self.selection.selected@, self.options@, placeholder@));
                    }
                }
                r
            } else {
                let mut s = decimal_string(labels.len());
                s.append(" selected");
                proof {
                    if keys_behave::<T>() {
                        assert(str_views(labels@) == spec_labels);
                        assert(spec_labels.len() == labels@.len());
                        assert(s@ == decimal(spec_labels.len()) + " selected"@);
                        assert(s@ == display_text_of(self.selection.mode, self.selection.selected@, self.options@, placeholder@));
                    }
                }
                s
            }
        } else {
            let v = &self.selection.selected[0];
            assert(!(self.selection.mode is Multi));
            match find_option(&self.options, v) {
                Some(i) => {
                    let r = self.options[i].1.clone();
                    r
                },
                None => placeholder.to_owned(),
            }
        }
    }
}

impl<T: Clone + Eq + Hash + Send + Sync + 'static> ScrollableWidgetState for SelectState<T> {
    fn scroll(&self) -> (r: &ScrollState)
        ensures
            *r == self.scroll,
    {
        &self.scroll
    }

    fn scroll_mut(&mut self) -> (r: &mut ScrollState)
        ensures
            *r == old(self).scroll,
            *final(self) == (SelectState { scroll: *final(r), ..*old(self) }),
    {
        &mut self.scroll
    }

    fn scrollbar_rect(&self) -> (r: Option<(u16, u16, u16, u16)>)
        ensures
            r == self.scrollbar_rect,
    {
        self.scrollbar_rect
    }

    fn set_scrollbar_rect(&mut self, rect: Option<(u16, u16, u16, u16)>)
        ensures
            final(self).scrollbar_rect == rect,
            final(self).scroll == old(self).scroll,
            final(self).drag_grab_offset == old(self).drag_grab_offset,
    {
        self.scrollbar_rect = rect;
    }

    fn drag_grab_offset(&self) -> (r: Option<u16>)
        ensures
            r == self.drag_grab_offset,
    {
        self.drag_grab_offset
    }

    fn set_drag_grab_offset(&mut self, offset: Option<u16>)
        ensures
            final(self).drag_grab_offset == offset,
            final(self).scroll == old(self).scroll,
            final(self).scrollbar_rect == old(self).scrollbar_rect,
    {
        self.drag_grab_offset = offset;
    }
}

/// Typestate marker: a select builder that still needs its state.
pub struct NeedsState;

} // verus!
