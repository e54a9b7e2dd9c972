//! The scrollable selection list: a `StatefulList` of strings together
//! with a render buffer (`on_display`) holding only the currently visible
//! rows, a persistent per-item marquee phase, and the viewport computation
//! that fills the buffer each render pass.

use vstd::prelude::*;
use crate::stateful_list::{next_index, prev_index, StatefulList};
use crate::text::{rotate_once, rotate_string_once, rotated};

verus! {

broadcast use crate::text::lemma_rotated_len;

/// Which part of the dashboard currently owns directional input.
#[derive(PartialEq, Eq, Structural, Clone, Copy, Debug)]
pub enum CurrentElement {
    Views,
    Playlists,
    Playbar,
    TrackName,
    ArtistName,
    Timeline,
    MainArea,
}

impl CurrentElement {
    pub fn eq(&self, other: &Self) -> (r: bool)
        ensures
            r == (*self == *other),
    {
        *self == *other
    }
}

/// Marquee bookkeeping for one backing item: its index in the backing
/// list and how many left-rotations are currently applied to it.
pub struct ScrollStatus {
    pub index: usize,
    pub scroll_status: u16,
}

impl ScrollStatus {
    pub fn new(new_index: usize, new_scroll_status: u16) -> (r: ScrollStatus)
        ensures
            r.index == new_index,
            r.scroll_status == new_scroll_status,
    {
        ScrollStatus { index: new_index, scroll_status: new_scroll_status }
    }
}

/// Viewport rows and columns left inside a block once its border is
/// taken off; a block shorter or narrower than its border has none.
pub open spec fn inner_dim(d: nat) -> nat {
    if d >= 2 {
        (d - 2) as nat
    } else {
        0
    }
}

/// The viewport offset after scrolling minimally to keep the selection
/// visible, starting from `off0` with `h` visible rows.
pub open spec fn window_offset(sel: nat, off0: nat, h: nat) -> nat {
    if sel >= h + off0 {
        (sel + 1 - h) as nat
    } else if sel < off0 {
        sel
    } else {
        off0
    }
}

/// One past the last visible index: the viewport is `[off, end)`.
pub open spec fn window_end(off: nat, h: nat, len: nat) -> nat {
    if off + h <= len {
        (off + h) as nat
    } else {
        len
    }
}

/// An item is animated when it is too wide for its column and longer
/// than two characters.
pub open spec fn needs_scroll(item: Seq<char>, width: nat) -> bool {
    item.len() > width && item.len() > 2
}

/// The marquee phase after one advance: it wraps to zero once it would
/// pass the item's character count (a full cycle shows the original
/// string again), and also at the top of its counter's range.
pub open spec fn phase_step(item_len: nat, ph: nat) -> nat {
    if ph + 1 > item_len || ph + 1 == 0xFFFF {
        0
    } else {
        (ph + 1) as nat
    }
}

/// Does a render pass with tick counter `tick` rotate the marquee?
pub open spec fn marquee_fires(tick: nat, delay: nat) -> bool {
    !(tick + 1 < delay)
}

/// The text a visible row shows after a render pass.
pub open spec fn marquee_text_after(item: Seq<char>, ph: nat, width: nat, fires: bool) -> Seq<
    char,
> {
    if !fires {
        rotated(item, ph)
    } else if needs_scroll(item, width) {
        rotated(item, (ph + 1) as nat)
    } else {
        item
    }
}

/// The stored marquee phase of a visible row after a render pass.
pub open spec fn marquee_phase_after(item: Seq<char>, ph: nat, width: nat, fires: bool) -> nat {
    if !fires {
        ph
    } else if needs_scroll(item, width) {
        phase_step(item.len(), ph)
    } else {
        0
    }
}

/// Visible content after the highlight marker is put in front of row `idx`.
pub open spec fn add_highlight(disp: Seq<Seq<char>>, idx: int, marker: Seq<char>) -> Seq<
    Seq<char>,
> {
    if 0 <= idx < disp.len() {
        disp.update(idx, marker + disp[idx])
    } else {
        disp
    }
}

/// One row after highlight removal: rows that begin with the marker
/// character lose their first two characters.
pub open spec fn strip_highlight_one(s: Seq<char>, marker: char) -> Seq<char> {
    if s.len() >= 2 && s[0] == marker {
        s.subrange(2, s.len() as int)
    } else {
        s
    }
}

/// Visible content after the highlight marker is stripped from every row.
pub open spec fn strip_highlight(disp: Seq<Seq<char>>, marker: char) -> Seq<Seq<char>> {
    disp.map_values(|s: Seq<char>| strip_highlight_one(s, marker))
}

/// The viewport offset a render pass with `h` visible rows computes,
/// starting from the state `pre`: a resize resets it, and it then moves
/// minimally to keep the selection visible.
pub open spec fn viewport_offset_after(pre: StatefulSelectedList, h: nat) -> nat {
    window_offset(
        pre.sel(),
        if h != pre.old_height as nat {
            0
        } else {
            pre.offset()
        },
        h,
    )
}

/// One past the last index such a render pass shows.
pub open spec fn viewport_end_after(pre: StatefulSelectedList, h: nat) -> nat {
    window_end(viewport_offset_after(pre, h), h, pre.num_items())
}

/// Adding the highlight marker in front of the selected row and then
/// stripping it yields exactly the visible content from before, provided
/// the marker is two characters and no other visible row already begins
/// with the marker character.
pub proof fn lemma_highlight_round_trip(disp: Seq<Seq<char>>, idx: int, marker: Seq<char>, c: char)
    requires
        0 <= idx < disp.len(),
        marker.len() == 2,
        marker[0] == c,
        forall|j: int| 0 <= j < disp.len() && j != idx ==> (#[trigger] disp[j]).len() < 2
            || disp[j][0] != c,
    ensures
        strip_highlight(add_highlight(disp, idx, marker), c) =~~= disp,
{
    let added = add_highlight(disp, idx, marker);
    assert forall|j: int| 0 <= j < disp.len() implies #[trigger] strip_highlight(added, c)[j]
        =~= disp[j] by {
        if j == idx {
            assert(added[j] == marker + disp[j]);
            assert(strip_highlight_one(added[j], c) =~= disp[j]);
        } else {
            assert(added[j] == disp[j]);
            assert(strip_highlight_one(added[j], c) =~= disp[j]);
        }
    }
}

/// The state a list is in right after its content was replaced: the
/// selection back on the first item, the viewport offset, every marquee
/// phase and the tick counter cleared, and the render buffer empty.
pub open spec fn freshly_reset(l: StatefulSelectedList) -> bool {
    &&& l.all_elements.state.selected == Some(0usize)
    &&& l.all_elements.state.offset == 0
    &&& l.on_display.len() == 0
    &&& l.horizontal_tick_counter == 0
    &&& (forall|i: int| 0 <= i < l.all_elements.items.len() ==> #[trigger] l.phase_at(i) == 0)
}

/// Two lists agree on everything but the selection cursor.
pub open spec fn same_but_selection(post: StatefulSelectedList, pre: StatefulSelectedList) -> bool {
    &&& post.all_elements.items == pre.all_elements.items
    &&& post.all_elements_scroll_status == pre.all_elements_scroll_status
    &&& post.on_display == pre.on_display
    &&& post.old_height == pre.old_height
    &&& post.horizontal_tick_counter == pre.horizontal_tick_counter
    &&& post.selected_element_index_in_on_display == pre.selected_element_index_in_on_display
    &&& post.all_elements.state.offset == pre.all_elements.state.offset
}

/// `post` is `pre` after one step down: the selection moved with
/// wraparound, or nothing happened on an empty list.
pub open spec fn sel_advanced(post: StatefulSelectedList, pre: StatefulSelectedList) -> bool {
    &&& same_but_selection(post, pre)
    &&& (pre.num_items() == 0 ==> post == pre)
    &&& (pre.num_items() > 0 ==> post.all_elements.state.selected == Some(
        next_index(pre.all_elements.state.selected, pre.num_items()) as usize,
    ))
}

/// `post` is `pre` after one step up.
pub open spec fn sel_retreated(post: StatefulSelectedList, pre: StatefulSelectedList) -> bool {
    &&& same_but_selection(post, pre)
    &&& (pre.num_items() == 0 ==> post == pre)
    &&& (pre.num_items() > 0 ==> post.all_elements.state.selected == Some(
        prev_index(pre.all_elements.state.selected, pre.num_items()) as usize,
    ))
}

/// `post` is `pre` with the selection put back on the first item.
pub open spec fn sel_reset(post: StatefulSelectedList, pre: StatefulSelectedList) -> bool {
    &&& same_but_selection(post, pre)
    &&& post.all_elements.state.selected == Some(0usize)
}

/// Marquee entries stay sound when neither the items nor the entries
/// change.
proof fn lemma_phase_entries_preserved(pre: StatefulSelectedList, post: StatefulSelectedList)
    requires
        post.all_elements.items == pre.all_elements.items,
        post.all_elements_scroll_status == pre.all_elements_scroll_status,
        forall|i: int| 0 <= i < pre.all_elements.items.len() ==> #[trigger] pre.phase_entry_wf(i),
    ensures
        forall|i: int| 0 <= i < post.all_elements.items.len() ==> #[trigger] post.phase_entry_wf(
            i,
        ),
{
    assert forall|i: int| 0 <= i < post.all_elements.items.len() implies #[trigger] post.phase_entry_wf(
        i,
    ) by {
        assert(pre.phase_entry_wf(i));
    }
}

/// A list whose visible part is recomputed each render pass.
pub struct StatefulSelectedList {
    /// The rows currently on screen, in display form (windowed, rotated,
    /// possibly highlighted); rebuilt from the backing items each pass.
    pub on_display: Vec<String>,
    /// One marquee entry per backing item, visible or not.
    pub all_elements_scroll_status: Vec<ScrollStatus>,
    /// The backing items and the selection cursor.
    pub all_elements: StatefulList<String>,
    /// The viewport height of the previous pass, to detect resizes.
    pub old_height: usize,
    /// Render passes since the marquee last advanced.
    pub horizontal_tick_counter: u16,
    /// Where the selected item sits inside `on_display`.
    pub selected_element_index_in_on_display: usize,
}

impl StatefulSelectedList {
    /// The backing item at index `i`, as characters.
    pub open spec fn item_at(&self, i: int) -> Seq<char> {
        self.all_elements.items@[i]@
    }

    /// The stored marquee phase of item `i`.
    pub open spec fn phase_at(&self, i: int) -> nat {
        self.all_elements_scroll_status@[i].scroll_status as nat
    }

    /// The selection as an index; `0` stands in for "nothing selectable"
    /// on an empty list.
    pub open spec fn sel(&self) -> nat {
        match self.all_elements.state.selected {
            Some(i) => i as nat,
            None => 0,
        }
    }

    pub open spec fn num_items(&self) -> nat {
        self.all_elements.items.len() as nat
    }

    pub open spec fn offset(&self) -> nat {
        self.all_elements.state.offset as nat
    }

    /// The marquee entry of item `i` is sound: it records the item's own
    /// index, a phase within the item's rotation cycle and the counter's
    /// range, and a positive phase only for items long enough to animate.
    pub open spec fn phase_entry_wf(&self, i: int) -> bool {
        &&& self.all_elements_scroll_status@[i].index == i
        &&& self.phase_at(i) <= self.item_at(i).len()
        &&& (self.phase_at(i) > 0 ==> self.item_at(i).len() > 2)
        &&& self.all_elements_scroll_status@[i].scroll_status < 0xFFFF
    }

    /// Structural invariant: one marquee entry per item, a valid
    /// selection whenever the list is non-empty, and a viewport offset
    /// within the range the previous height allowed.
    pub open spec fn wf(&self) -> bool {
        &&& self.all_elements.wf()
        &&& self.all_elements.state.selected is Some
        &&& self.all_elements_scroll_status.len() == self.all_elements.items.len()
        &&& (forall|i: int|
            0 <= i < self.all_elements.items.len() ==> #[trigger] self.phase_entry_wf(i))
        &&& self.all_elements.state.offset <= vstd::math::max(
            self.all_elements.items.len() - self.old_height,
            0,
        )
        &&& self.horizontal_tick_counter < 0xFFFF
    }

    pub fn new(content: Vec<String>) -> (r: StatefulSelectedList)
        ensures
            r.wf(),
            r.all_elements.items == content,
            r.sel() == 0,
            r.offset() == 0,
            r.on_display@ == Seq::<String>::empty(),
            forall|i: int| 0 <= i < r.num_items() ==> #[trigger] r.phase_at(i) == 0,
            r.old_height == 0,
            r.horizontal_tick_counter == 0,
    {
        let mut list = StatefulSelectedList {
            on_display: Vec::new(),
            all_elements_scroll_status: Vec::new(),
            all_elements: StatefulList::new(),
            old_height: 0,
            horizontal_tick_counter: 0,
            selected_element_index_in_on_display: 0,
        };
        list.change_elements(StatefulList::with_items(content));
        list
    }

    pub fn next(&mut self)
        requires
            old(self).wf(),
        ensures
            final(self).wf(),
            final(self).all_elements.items == old(self).all_elements.items,
            final(self).all_elements_scroll_status == old(self).all_elements_scroll_status,
            final(self).on_display == old(self).on_display,
            final(self).old_height == old(self).old_height,
            final(self).horizontal_tick_counter == old(self).horizontal_tick_counter,
            final(self).selected_element_index_in_on_display == old(
                self,
            ).selected_element_index_in_on_display,
            final(self).offset() == old(self).offset(),
            old(self).num_items() == 0 ==> *final(self) == *old(self),
            old(self).num_items() > 0 ==> final(self).sel() == next_index(
                old(self).all_elements.state.selected,
                old(self).num_items(),
            ),
            sel_advanced(*final(self), *old(self)),
    {
        self.all_elements.next();
        proof {
            lemma_phase_entries_preserved(*old(self), *self);
        }
    }

    pub fn previous(&mut self)
        requires
            old(self).wf(),
        ensures
            final(self).wf(),
            final(self).all_elements.items == old(self).all_elements.items,
            final(self).all_elements_scroll_status == old(self).all_elements_scroll_status,
            final(self).on_display == old(self).on_display,
            final(self).old_height == old(self).old_height,
            final(self).horizontal_tick_counter == old(self).horizontal_tick_counter,
            final(self).selected_element_index_in_on_display == old(
                self,
            ).selected_element_index_in_on_display,
            final(self).offset() == old(self).offset(),
            old(self).num_items() == 0 ==> *final(self) == *old(self),
            old(self).num_items() > 0 ==> final(self).sel() == prev_index(
                old(self).all_elements.state.selected,
                old(self).num_items(),
            ),
            sel_retreated(*final(self), *old(self)),
    {
        self.all_elements.previous();
        proof {
            lemma_phase_entries_preserved(*old(self), *self);
        }
    }

    pub fn get_elements(&self) -> (r: &StatefulList<String>)
        ensures
            *r == self.all_elements,
    {
        &self.all_elements
    }

    pub fn is_first_element_selected(&self) -> (r: bool)
        requires
            self.wf(),
        ensures
            r == (self.sel() == 0),
    {
        match self.all_elements.state.selected() {
            Some(i) => i == 0,
            None => false,
        }
    }

    pub fn is_last_element_selected(&self) -> (r: bool)
        requires
            self.wf(),
        ensures
            r == (self.num_items() > 0 && self.sel() == self.num_items() - 1),
    {
        if self.all_elements.items.len() == 0 {
            return false;
        }
        match self.all_elements.state.selected() {
            Some(i) => i == self.all_elements.items.len() - 1,
            None => false,
        }
    }

    /// Puts the selection back on the first item. The viewport offset,
    /// the items and the marquee phases are untouched.
    pub fn reset_selection(&mut self)
        ensures
            final(self).all_elements.state.selected == Some(0usize),
            final(self).all_elements.state.offset == old(self).all_elements.state.offset,
            final(self).all_elements.items == old(self).all_elements.items,
            final(self).all_elements_scroll_status == old(self).all_elements_scroll_status,
            final(self).on_display == old(self).on_display,
            final(self).old_height == old(self).old_height,
            final(self).horizontal_tick_counter == old(self).horizontal_tick_counter,
            final(self).selected_element_index_in_on_display == old(
                self,
            ).selected_element_index_in_on_display,
            old(self).wf() ==> final(self).wf(),
            sel_reset(*final(self), *old(self)),
    {
        self.all_elements.state.select(Some(0));
        proof {
            if old(self).wf() {
                lemma_phase_entries_preserved(*old(self), *self);
            }
        }
    }

    /// Replaces the backing items wholesale: the selection returns to the
    /// first item, the viewport offset, every marquee phase and the tick
    /// counter are cleared, and the render buffer is emptied.
    pub fn change_elements(&mut self, new_elements: StatefulList<String>)
        ensures
            final(self).wf(),
            final(self).all_elements.items == new_elements.items,
            freshly_reset(*final(self)),
            final(self).on_display@ == Seq::<String>::empty(),
            final(self).old_height == old(self).old_height,
            final(self).selected_element_index_in_on_display == old(
                self,
            ).selected_element_index_in_on_display,
    {
        self.all_elements = new_elements;
        self.all_elements.state.offset = 0;
        self.on_display = Vec::new();
        self.horizontal_tick_counter = 0;

        let len = self.all_elements.items.len();
        self.all_elements_scroll_status = Vec::with_capacity(len);
        let mut i: usize = 0;
        while i < len
            invariant
                i <= len,
                len == self.all_elements.items.len(),
                self.all_elements_scroll_status.len() == i,
                forall|j: int|
                    0 <= j < i ==> (#[trigger] self.all_elements_scroll_status@[j]).index == j
                        && self.all_elements_scroll_status@[j].scroll_status == 0,
                self.all_elements.items == new_elements.items,
                self.all_elements.state.offset == 0,
                self.all_elements.state.selected == new_elements.state.selected,
                self.on_display@ == Seq::<String>::empty(),
                self.horizontal_tick_counter == 0,
                self.old_height == old(self).old_height,
                self.selected_element_index_in_on_display == old(
                    self,
                ).selected_element_index_in_on_display,
            decreases len - i,
        {
            self.all_elements_scroll_status.push(ScrollStatus::new(i, 0));
            i += 1;
        }

        self.reset_selection();
        proof {
            assert forall|i2: int| 0 <= i2 < self.all_elements.items.len() implies #[trigger]
                self.phase_entry_wf(i2) by {}
        }
    }

    pub fn get_on_display(&self) -> (r: &Vec<String>)
        ensures
            *r == self.on_display,
    {
        &self.on_display
    }

    /// Whether the selected item currently has a row in the render
    /// buffer; only then may the on-screen selected element be read or
    /// highlighted.
    pub fn has_visible_selection(&self) -> (r: bool)
        ensures
            r == (self.selected_element_index_in_on_display < self.on_display.len()),
    {
        self.selected_element_index_in_on_display < self.on_display.len()
    }

    /// The on-screen row of the selected element, in display form.
    pub fn get_selected_element(&self) -> (r: &String)
        requires
            self.selected_element_index_in_on_display < self.on_display.len(),
        ensures
            *r == self.on_display@[self.selected_element_index_in_on_display as int],
    {
        &self.on_display[self.selected_element_index_in_on_display]
    }

    pub fn get_selected_index(&self) -> (r: usize)
        ensures
            r == self.sel(),
    {
        match self.all_elements.state.selected() {
            None => 0,
            Some(x) => x,
        }
    }

    /// Strips the text highlighting marker from every visible row that
    /// begins with it.
    pub fn remove_highlighting_element(&mut self, highlighting_element: char)
        ensures
            final(self).on_display.deep_view() == strip_highlight(
                old(self).on_display.deep_view(),
                highlighting_element,
            ),
            final(self).on_display.len() == old(self).on_display.len(),
            final(self).all_elements == old(self).all_elements,
            final(self).all_elements_scroll_status == old(self).all_elements_scroll_status,
            final(self).old_height == old(self).old_height,
            final(self).horizontal_tick_counter == old(self).horizontal_tick_counter,
            final(self).selected_element_index_in_on_display == old(
                self,
            ).selected_element_index_in_on_display,
            old(self).wf() ==> final(self).wf(),
    {
        let count = self.on_display.len();
        let mut i: usize = 0;
        while i < count
            invariant
                i <= count,
                count == self.on_display.len(),
                forall|j: int|
                    0 <= j < i ==> #[trigger] self.on_display@[j]@ == strip_highlight_one(
                        old(self).on_display@[j]@,
                        highlighting_element,
                    ),
                forall|j: int|
                    i <= j < count ==> #[trigger] self.on_display@[j] == old(self).on_display@[j],
                self.all_elements == old(self).all_elements,
                self.all_elements_scroll_status == old(self).all_elements_scroll_status,
                self.old_height == old(self).old_height,
                self.horizontal_tick_counter == old(self).horizontal_tick_counter,
                self.selected_element_index_in_on_display == old(
                    self,
                ).selected_element_index_in_on_display,
            decreases count - i,
        {
            let n = self.on_display[i].as_str().unicode_len();
            if n >= 2 && self.on_display[i].as_str().get_char(0) == highlighting_element {
                let stripped = self.on_display[i].as_str().substring_char(2, n).to_owned();
                self.on_display[i] = stripped;
            }
            i += 1;
        }
        proof {
            assert(final(self).on_display.deep_view() =~~= strip_highlight(
                old(self).on_display.deep_view(),
                highlighting_element,
            ));
            if old(self).wf() {
                lemma_phase_entries_preserved(*old(self), *self);
            }
        }
    }

    /// Puts the highlighting marker in front of the row of the currently
    /// selected item, if that row is on screen.
    pub fn add_highlighting_element(&mut self, highlighting_element: &str)
        ensures
            final(self).on_display.deep_view() == add_highlight(
                old(self).on_display.deep_view(),
                old(self).selected_element_index_in_on_display as int,
                highlighting_element@,
            ),
            final(self).all_elements == old(self).all_elements,
            final(self).all_elements_scroll_status == old(self).all_elements_scroll_status,
            final(self).old_height == old(self).old_height,
            final(self).horizontal_tick_counter == old(self).horizontal_tick_counter,
            final(self).selected_element_index_in_on_display == old(
                self,
            ).selected_element_index_in_on_display,
            old(self).wf() ==> final(self).wf(),
    {
        let idx = self.selected_element_index_in_on_display;
        if idx < self.on_display.len() {
            let mut concatenated_element = highlighting_element.to_owned();
            concatenated_element.append(self.on_display[idx].as_str());
            self.on_display[idx] = concatenated_element;
        }
        proof {
            assert(final(self).on_display.deep_view() =~~= add_highlight(
                old(self).on_display.deep_view(),
                old(self).selected_element_index_in_on_display as int,
                highlighting_element@,
            ));
            if old(self).wf() {
                lemma_phase_entries_preserved(*old(self), *self);
            }
        }
    }

    /// The per-pass viewport computation: vertical windowing keeps the
    /// selection visible, each visible row is then rebuilt from its
    /// backing item and persistent marquee phase, and every
    /// `horizontal_scroll_delay` passes the marquee advances one step.
    /// `list_width` and `list_height` are the block's outer geometry,
    /// border included.
    pub fn calc_on_display(
        &mut self,
        list_width: usize,
        list_height: usize,
        horizontal_scroll_delay: u16,
    )
        requires
            old(self).wf(),
        ensures
            final(self).wf(),
            final(self).all_elements.items == old(self).all_elements.items,
            final(self).all_elements.state.selected == old(self).all_elements.state.selected,
            final(self).old_height == inner_dim(list_height as nat),
            final(self).horizontal_tick_counter as nat == (if marquee_fires(
                old(self).horizontal_tick_counter as nat,
                horizontal_scroll_delay as nat,
            ) {
                0
            } else {
                old(self).horizontal_tick_counter + 1
            }),
            final(self).all_elements_scroll_status.len() == old(
                self,
            ).all_elements_scroll_status.len(),
            old(self).num_items() == 0 ==> final(self).offset() == 0 && final(self).on_display.len() == 0,
            old(self).num_items() > 0 ==> final(self).offset() == viewport_offset_after(
                *old(self),
                inner_dim(list_height as nat),
            ),
            old(self).num_items() > 0 ==> final(self).on_display.len() == viewport_end_after(
                *old(self),
                inner_dim(list_height as nat),
            ) - viewport_offset_after(*old(self), inner_dim(list_height as nat)),
            old(self).num_items() > 0 ==> (forall|i: int|
                0 <= i < final(self).on_display.len() ==> (#[trigger] final(self).on_display@[i])@
                    == marquee_text_after(
                    old(self).item_at(
                        viewport_offset_after(*old(self), inner_dim(list_height as nat)) + i,
                    ),
                    old(self).phase_at(
                        viewport_offset_after(*old(self), inner_dim(list_height as nat)) + i,
                    ),
                    inner_dim(list_width as nat),
                    marquee_fires(
                        old(self).horizontal_tick_counter as nat,
                        horizontal_scroll_delay as nat,
                    ),
                )),
            old(self).num_items() > 0 ==> (forall|j: int|
                0 <= j < old(self).num_items() ==> #[trigger] final(self).phase_at(j) == (
                if viewport_offset_after(*old(self), inner_dim(list_height as nat)) <= j
                    < viewport_end_after(*old(self), inner_dim(list_height as nat)) {
                    marquee_phase_after(
                        old(self).item_at(j),
                        old(self).phase_at(j),
                        inner_dim(list_width as nat),
                        marquee_fires(
                            old(self).horizontal_tick_counter as nat,
                            horizontal_scroll_delay as nat,
                        ),
                    )
                } else {
                    old(self).phase_at(j)
                })),
            old(self).num_items() > 0 && inner_dim(list_height as nat) >= 1 ==> final(self).selected_element_index_in_on_display == old(self).sel() - viewport_offset_after(
                *old(self),
                inner_dim(list_height as nat),
            ) && final(self).selected_element_index_in_on_display < final(self).on_display.len(),
            old(self).num_items() > 0 && inner_dim(list_height as nat) >= 1 ==> old(self).sel()
                - inner_dim(list_height as nat) + 1 <= final(self).offset() <= old(self).sel()
                && final(self).offset() <= vstd::math::max(
                old(self).num_items() - inner_dim(list_height as nat),
                0,
            ),
    {
        let list_height_inner: usize = if list_height >= 2 {
            list_height - 2
        } else {
            0
        };
        let list_width_inner: usize = if list_width >= 2 {
            list_width - 2
        } else {
            0
        };

        self.calc_vertical_scrolling(list_height_inner);
        self.recover_scroll_status();
        self.calc_horizontal_scrolling(list_width_inner, horizontal_scroll_delay);
    }

    /// Phase one of a render pass: resets the offset on a resize, moves
    /// it minimally so the selection stays visible, and copies the
    /// visible slice of the backing items into the render buffer.
    fn calc_vertical_scrolling(&mut self, list_height: usize)
        requires
            old(self).wf(),
        ensures
            final(self).wf(),
            final(self).all_elements.items == old(self).all_elements.items,
            final(self).all_elements.state.selected == old(self).all_elements.state.selected,
            final(self).all_elements_scroll_status == old(self).all_elements_scroll_status,
            final(self).horizontal_tick_counter == old(self).horizontal_tick_counter,
            final(self).old_height == list_height,
            old(self).num_items() == 0 ==> final(self).offset() == 0 && final(self).on_display.len() == 0 && final(self).selected_element_index_in_on_display == old(
                self,
            ).selected_element_index_in_on_display,
            old(self).num_items() > 0 ==> final(self).offset() == viewport_offset_after(
                *old(self),
                list_height as nat,
            ),
            old(self).num_items() > 0 ==> final(self).on_display@ == old(
                self,
            ).all_elements.items@.subrange(
                viewport_offset_after(*old(self), list_height as nat) as int,
                viewport_end_after(*old(self), list_height as nat) as int,
            ),
            old(self).num_items() > 0 && list_height >= 1 ==> final(self).selected_element_index_in_on_display == old(self).sel() - viewport_offset_after(
                *old(self),
                list_height as nat,
            ) && viewport_offset_after(*old(self), list_height as nat) <= old(self).sel()
                < viewport_end_after(*old(self), list_height as nat),
            old(self).num_items() > 0 && list_height == 0 ==> final(self).selected_element_index_in_on_display == old(
                self,
            ).selected_element_index_in_on_display,
    {
        let mut height_changed: bool = false;
        if self.old_height != list_height {
            height_changed = true;
        }
        self.old_height = list_height;

        if height_changed {
            self.all_elements.state.offset = 0;
        }

        let len = self.all_elements.items.len();
        if len == 0 {
            self.all_elements.state.offset = 0;
            self.on_display = Vec::new();
            proof {
                lemma_phase_entries_preserved(*old(self), *self);
            }
            return;
        }

        let sel = match self.all_elements.state.selected() {
            Some(i) => i,
            None => 0,
        };

        if sel >= list_height + self.all_elements.state.offset {
            self.all_elements.state.offset = sel + 1 - list_height;
        } else if sel < self.all_elements.state.offset {
            self.all_elements.state.offset = sel;
        }

        let off = self.all_elements.state.offset;
        assert(off == viewport_offset_after(*old(self), list_height as nat));
        assert(off <= len);
        let end = if list_height >= len - off {
            len
        } else {
            off + list_height
        };
        assert(end == viewport_end_after(*old(self), list_height as nat));

        self.on_display = Vec::new();
        let mut i = off;
        while i < end
            invariant
                off <= i <= end <= len,
                len == self.all_elements.items.len(),
                self.on_display@ =~= self.all_elements.items@.subrange(off as int, i as int),
                self.all_elements.items == old(self).all_elements.items,
                self.all_elements.state.selected == old(self).all_elements.state.selected,
                self.all_elements.state.offset == off,
                self.all_elements_scroll_status == old(self).all_elements_scroll_status,
                self.horizontal_tick_counter == old(self).horizontal_tick_counter,
                self.old_height == list_height,
                self.selected_element_index_in_on_display == old(
                    self,
                ).selected_element_index_in_on_display,
            decreases end - i,
        {
            let row = self.all_elements.items[i].clone();
            self.on_display.push(row);
            proof {
                assert(self.on_display@ =~= self.all_elements.items@.subrange(
                    off as int,
                    i + 1 as int,
                ));
            }
            i += 1;
        }

        if list_height >= 1 {
            self.selected_element_index_in_on_display = sel - off;
        }

        proof {
            lemma_phase_entries_preserved(*old(self), *self);
        }
    }

    /// Phase two of a render pass: the render buffer was just rebuilt
    /// from the raw items, so each visible row's rotation is recomputed
    /// from its persistent phase.
    fn recover_scroll_status(&mut self)
        requires
            old(self).wf(),
            old(self).offset() + old(self).on_display.len() <= old(self).num_items(),
            forall|i: int|
                0 <= i < old(self).on_display.len() ==> #[trigger] old(self).on_display@[i] == old(
                    self,
                ).all_elements.items@[old(self).offset() + i],
        ensures
            final(self).wf(),
            final(self).all_elements == old(self).all_elements,
            final(self).all_elements_scroll_status == old(self).all_elements_scroll_status,
            final(self).old_height == old(self).old_height,
            final(self).horizontal_tick_counter == old(self).horizontal_tick_counter,
            final(self).selected_element_index_in_on_display == old(
                self,
            ).selected_element_index_in_on_display,
            final(self).on_display.len() == old(self).on_display.len(),
            forall|i: int|
                0 <= i < old(self).on_display.len() ==> (#[trigger] final(self).on_display@[i])@
                    == rotated(
                    old(self).item_at(old(self).offset() + i),
                    old(self).phase_at(old(self).offset() + i),
                ),
    {
        let off = self.all_elements.state.offset;
        let count = self.on_display.len();
        let mut i: usize = 0;
        while i < count
            invariant
                i <= count,
                count == self.on_display.len(),
                count == old(self).on_display.len(),
                off + count <= self.all_elements.items.len(),
                off == self.all_elements.state.offset,
                self.all_elements == old(self).all_elements,
                self.all_elements_scroll_status == old(self).all_elements_scroll_status,
                self.old_height == old(self).old_height,
                self.horizontal_tick_counter == old(self).horizontal_tick_counter,
                self.selected_element_index_in_on_display == old(
                    self,
                ).selected_element_index_in_on_display,
                old(self).wf(),
                forall|j: int|
                    0 <= j < i ==> (#[trigger] self.on_display@[j])@ == rotated(
                        old(self).item_at(off + j),
                        old(self).phase_at(off + j),
                    ),
                forall|j: int|
                    i <= j < count ==> #[trigger] self.on_display@[j] == old(self).on_display@[j],
            decreases count - i,
        {
            let reps = self.all_elements_scroll_status[off + i].scroll_status;
            let mut scroll_string = self.all_elements.items[off + i].clone();
            let ghost item = self.item_at(off + i);
            proof {
                assert(old(self).phase_entry_wf(off + i));
            }
            let mut tmp_scroll_status: u16 = 0;
            while tmp_scroll_status < reps
                invariant
                    tmp_scroll_status <= reps,
                    scroll_string@ == rotated(item, tmp_scroll_status as nat),
                    reps > 0 ==> item.len() > 2,
                decreases reps - tmp_scroll_status,
            {
                scroll_string = rotate_string_once(scroll_string.as_str());
                tmp_scroll_status += 1;
            }
            self.on_display[i] = scroll_string;
            i += 1;
        }
        proof {
            lemma_phase_entries_preserved(*old(self), *self);
        }
    }

    /// One left rotation of a visible row, and the phase that row's item
    /// records afterwards. With `reset_possible` the phase wraps to zero
    /// once it passes the item's character count (or the top of the
    /// counter's range); without it the raw successor is returned.
    fn scroll_element(
        &self,
        string: &String,
        scroll_status: u16,
        element_index: usize,
        reset_possible: bool,
    ) -> (r: (String, u16))
        requires
            string@.len() >= 2,
            scroll_status < 0xFFFF,
            reset_possible ==> element_index < self.all_elements.items.len(),
        ensures
            r.0@ == rotate_once(string@),
            reset_possible ==> r.1 as nat == phase_step(
                self.item_at(element_index as int).len(),
                scroll_status as nat,
            ),
            !reset_possible ==> r.1 == scroll_status + 1,
    {
        let shifted_string = rotate_string_once(string.as_str());

        let mut new_scroll_status: u16 = scroll_status + 1;

        if reset_possible {
            let item_chars = self.all_elements.items[element_index].as_str().unicode_len();
            if new_scroll_status as usize > item_chars || new_scroll_status == 0xFFFF {
                new_scroll_status = 0;
            }
        }

        (shifted_string, new_scroll_status)
    }

    /// Phase three of a render pass: counts the pass, and on every
    /// `horizontal_scroll_delay`-th one advances the marquee of each
    /// visible row that needs it and parks the rest at phase zero.
    fn calc_horizontal_scrolling(&mut self, list_width: usize, horizontal_scroll_delay: u16)
        requires
            old(self).wf(),
            old(self).offset() + old(self).on_display.len() <= old(self).num_items(),
            forall|i: int|
                0 <= i < old(self).on_display.len() ==> (#[trigger] old(self).on_display@[i])@
                    == rotated(
                    old(self).item_at(old(self).offset() + i),
                    old(self).phase_at(old(self).offset() + i),
                ),
        ensures
            final(self).wf(),
            final(self).all_elements == old(self).all_elements,
            final(self).old_height == old(self).old_height,
            final(self).selected_element_index_in_on_display == old(
                self,
            ).selected_element_index_in_on_display,
            final(self).on_display.len() == old(self).on_display.len(),
            final(self).all_elements_scroll_status.len() == old(
                self,
            ).all_elements_scroll_status.len(),
            final(self).horizontal_tick_counter as nat == (if marquee_fires(
                old(self).horizontal_tick_counter as nat,
                horizontal_scroll_delay as nat,
            ) {
                0
            } else {
                old(self).horizontal_tick_counter + 1
            }),
            forall|i: int|
                0 <= i < old(self).on_display.len() ==> (#[trigger] final(self).on_display@[i])@
                    == marquee_text_after(
                    old(self).item_at(old(self).offset() + i),
                    old(self).phase_at(old(self).offset() + i),
                    list_width as nat,
                    marquee_fires(
                        old(self).horizontal_tick_counter as nat,
                        horizontal_scroll_delay as nat,
                    ),
                ),
            forall|j: int|
                0 <= j < old(self).num_items() ==> #[trigger] final(self).phase_at(j) == (if old(
                    self,
                ).offset() <= j < old(self).offset() + old(self).on_display.len() {
                    marquee_phase_after(
                        old(self).item_at(j),
                        old(self).phase_at(j),
                        list_width as nat,
                        marquee_fires(
                            old(self).horizontal_tick_counter as nat,
                            horizontal_scroll_delay as nat,
                        ),
                    )
                } else {
                    old(self).phase_at(j)
                }),
    {
        self.horizontal_tick_counter += 1;

        if self.horizontal_tick_counter < horizontal_scroll_delay {
            proof {
                lemma_phase_entries_preserved(*old(self), *self);
            }
            return;
        }

        self.horizontal_tick_counter = 0;
        proof {
            lemma_phase_entries_preserved(*old(self), *self);
        }

        let off = self.all_elements.state.offset;
        let count = self.on_display.len();
        let mut i: usize = 0;
        while i < count
            invariant
                i <= count,
                count == self.on_display.len(),
                count == old(self).on_display.len(),
                off + count <= self.all_elements.items.len(),
                off == self.all_elements.state.offset,
                off == old(self).offset(),
                self.all_elements == old(self).all_elements,
                self.old_height == old(self).old_height,
                self.horizontal_tick_counter == 0,
                forall|j: int|
                    0 <= j < count ==> (#[trigger] old(self).on_display@[j])@ == rotated(
                        old(self).item_at(off + j),
                        old(self).phase_at(off + j),
                    ),
                self.selected_element_index_in_on_display == old(
                    self,
                ).selected_element_index_in_on_display,
                self.all_elements_scroll_status.len() == old(
                    self,
                ).all_elements_scroll_status.len(),
                old(self).wf(),
                forall|j: int|
                    0 <= j < i ==> (#[trigger] self.on_display@[j])@ == marquee_text_after(
                        old(self).item_at(off + j),
                        old(self).phase_at(off + j),
                        list_width as nat,
                        true,
                    ),
                forall|j: int|
                    i <= j < count ==> #[trigger] self.on_display@[j] == old(self).on_display@[j],
                forall|j: int|
                    0 <= j < self.all_elements.items.len() ==> #[trigger] self.phase_at(j) == (
                    if off <= j < off + i {
                        marquee_phase_after(
                            old(self).item_at(j),
                            old(self).phase_at(j),
                            list_width as nat,
                            true,
                        )
                    } else {
                        old(self).phase_at(j)
                    }),
                forall|j: int|
                    0 <= j < self.all_elements.items.len()
                        ==> (#[trigger] self.all_elements_scroll_status@[j]).index == old(
                        self,
                    ).all_elements_scroll_status@[j].index,
                forall|j: int|
                    0 <= j < self.all_elements.items.len() ==> #[trigger] self.phase_entry_wf(j),
            decreases count - i,
        {
            let ghost pre_iter = *self;
            let ghost item = old(self).item_at(off + i);
            let ghost ph = old(self).phase_at(off + i);
            proof {
                assert(old(self).phase_entry_wf(off + i));
                assert(self.phase_entry_wf(off + i));
                assert(self.on_display@[i as int] == old(self).on_display@[i as int]);
                assert(off == old(self).offset());
                assert(old(self).on_display@[i as int]@ == rotated(
                    old(self).item_at(old(self).offset() + i),
                    old(self).phase_at(old(self).offset() + i),
                ));
                assert(self.on_display@[i as int]@ == rotated(item, ph));
                assert(rotated(item, ph).len() == item.len());
            }
            let disp_chars = self.on_display[i].as_str().unicode_len();
            proof {
                assert(disp_chars == item.len());
            }
            if disp_chars > list_width && disp_chars > 2 {
                let cur_status = self.all_elements_scroll_status[off + i].scroll_status;
                let cur_index = self.all_elements_scroll_status[off + i].index;
                let scroll_element_return_val = self.scroll_element(
                    &self.on_display[i],
                    cur_status,
                    cur_index,
                    true,
                );
                self.all_elements_scroll_status[off + i] = ScrollStatus {
                    index: cur_index,
                    scroll_status: scroll_element_return_val.1,
                };
                self.on_display[i] = scroll_element_return_val.0;
                proof {
                    assert(needs_scroll(item, list_width as nat));
                    assert(rotated(item, (ph + 1) as nat) == rotate_once(rotated(item, ph)));
                    assert(self.on_display@[i as int]@ == marquee_text_after(
                        item,
                        ph,
                        list_width as nat,
                        true,
                    ));
                    assert(self.phase_at(off + i) == marquee_phase_after(
                        item,
                        ph,
                        list_width as nat,
                        true,
                    ));
                    assert(self.phase_entry_wf(off + i));
                }
            } else {
                proof {
                    assert(!needs_scroll(item, list_width as nat));
                    assert(marquee_text_after(item, ph, list_width as nat, true) == item);
                }
                if self.all_elements_scroll_status[off + i].scroll_status > 0 {
                    let fresh = self.all_elements.items[off + i].clone();
                    self.on_display[i] = fresh;
                    let cur_index = self.all_elements_scroll_status[off + i].index;
                    self.all_elements_scroll_status[off + i] = ScrollStatus {
                        index: cur_index,
                        scroll_status: 0,
                    };
                    proof {
                        assert(self.phase_entry_wf(off + i));
                    }
                } else {
                    proof {
                        assert(rotated(item, 0) == item);
                        assert(self.on_display@[i as int]@ == item);
                        assert(ph == 0);
                        assert(marquee_phase_after(item, ph, list_width as nat, true) == 0);
                    }
                }
            }
            proof {
                assert forall|j: int|
                    0 <= j < self.all_elements.items.len() implies #[trigger] self.phase_entry_wf(
                    j,
                ) by {
                    if j != off + i {
                        assert(pre_iter.phase_entry_wf(j));
                    }
                }
                assert(self.phase_at(off + i) == marquee_phase_after(
                    item,
                    ph,
                    list_width as nat,
                    true,
                ));
                assert forall|j: int|
                    0 <= j < self.all_elements.items.len() implies #[trigger] self.phase_at(j) == (
                if off <= j < off + i + 1 {
                    marquee_phase_after(
                        old(self).item_at(j),
                        old(self).phase_at(j),
                        list_width as nat,
                        true,
                    )
                } else {
                    old(self).phase_at(j)
                }) by {
                    if j != off + i {
                        assert(self.phase_at(j) == pre_iter.phase_at(j));
                    }
                }
            }
            i += 1;
        }
    }
}

} // verus!
