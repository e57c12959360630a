//! Per-slot selection state: which source image a slot uses and the render
//! cached for it.

use crate::raster::Image;
use vstd::prelude::*;

verus! {

/// Number of slots: one for each character instance of the host.
pub const SLOT_COUNT: usize = 8;

/// Where a slot stands in its life cycle.
#[derive(Clone, Copy, Debug, PartialEq, Eq, Structural)]
pub enum SlotState {
    /// Nothing is selected.
    Empty,
    /// A source image is selected and nothing is rendered yet.
    Selected,
    /// A source image is selected and its render is cached.
    Rendered,
}

/// The state of one slot.
pub struct Slot {
    selected_path: Option<String>,
    cached_render: Option<Image>,
    rendered_from: Ghost<Option<String>>,
}

impl Slot {
    /// The selected source path.
    pub closed spec fn selected(&self) -> Option<String> {
        self.selected_path
    }

    /// The cached render.
    pub closed spec fn cached(&self) -> Option<Image> {
        self.cached_render
    }

    /// The path whose image the cached render was made from.
    pub closed spec fn rendered_from(&self) -> Option<String> {
        self.rendered_from@
    }

    /// A cached render is a well-formed image and was made from the path
    /// that is selected now: no render outlives its selection.
    pub open spec fn wf(&self) -> bool {
        self.cached() matches Some(img) ==> img@.wf() && self.selected() is Some && self.rendered_from()
            == self.selected()
    }

    /// The state of the slot.
    pub open spec fn state(&self) -> SlotState {
        if self.selected() is None {
            SlotState::Empty
        } else if self.cached() is None {
            SlotState::Selected
        } else {
            SlotState::Rendered
        }
    }

    /// A slot with nothing selected.
    pub fn new() -> (slot: Slot)
        ensures
            slot.selected() is None,
            slot.cached() is None,
            slot.wf(),
            slot.state() == SlotState::Empty,
    {
        Slot { selected_path: None, cached_render: None, rendered_from: Ghost(None) }
    }

    /// Sets the selection and drops the cached render, which belonged to the
    /// selection before.
    pub fn select(&mut self, path: Option<String>)
        ensures
            final(self).selected() == path,
            final(self).cached() is None,
            final(self).wf(),
            final(self).state() == (if path is Some {
                SlotState::Selected
            } else {
                SlotState::Empty
            }),
    {
        self.selected_path = path;
        self.cached_render = None;
        self.rendered_from = Ghost(None);
    }

    /// The selected source path, as it is now.
    pub fn get_selected(&self) -> (path: Option<String>)
        ensures
            path == self.selected(),
    {
        self.selected_path.clone()
    }

    /// Which state the slot is in.
    pub fn current_state(&self) -> (st: SlotState)
        ensures
            st == self.state(),
    {
        if self.selected_path.is_none() {
            SlotState::Empty
        } else if self.cached_render.is_none() {
            SlotState::Selected
        } else {
            SlotState::Rendered
        }
    }

    /// The render of the selected source image. A cached render is handed out
    /// as it is; without one, `render_fn` is called on the selected path and
    /// what it renders is cached. `None` when nothing is selected, or when
    /// `render_fn` gives nothing, in which case the slot stays as it was.
    pub fn get_or_render<F: FnOnce(&String) -> Option<Image>>(&mut self, render_fn: F) -> (render: Option<
        Image,
    >)
        requires
            old(self).wf(),
            old(self).selected() matches Some(path) ==> call_requires(render_fn, (&path,)),
            forall|path: &String, out: Option<Image>|
                call_ensures(render_fn, (path,), out) ==> (out matches Some(img) ==> img@.wf()),
        ensures
            final(self).wf(),
            final(self).selected() == old(self).selected(),
            old(self).state() == SlotState::Empty ==> render is None && final(self).cached() is None,
            old(self).state() == SlotState::Rendered ==> final(self).cached() == old(self).cached()
                && render is Some && render->0@ == old(self).cached()->0@,
            old(self).state() == SlotState::Selected ==> exists|out: Option<Image>|
                ({
                    &&& call_ensures(render_fn, (&old(self).selected()->0,), out)
                    &&& final(self).cached() == out
                    &&& render is Some <==> out is Some
                    &&& render matches Some(img) ==> img@ == out->0@
                }),
    {
        match &self.selected_path {
            None => None,
            Some(path) => {
                match &self.cached_render {
                    Some(img) => Some(img.clone()),
                    None => {
                        let out = render_fn(path);
                        let copy = match &out {
                            Some(img) => Some(img.clone()),
                            None => None,
                        };
                        self.rendered_from = Ghost(self.selected_path);
                        self.cached_render = out;
                        copy
                    },
                }
            },
        }
    }
}

/// The marker of the slot whose selection was set last. It is cleared when
/// the host reports the end of a round, so that a slot is asked about once.
pub struct SelectionMarker {
    last: Option<usize>,
}

impl SelectionMarker {
    /// The marked slot.
    pub closed spec fn last(&self) -> Option<usize> {
        self.last
    }

    /// A marker that marks no slot.
    pub fn new() -> (marker: SelectionMarker)
        ensures
            marker.last() is None,
    {
        SelectionMarker { last: None }
    }

    /// Marks `slot` as the slot selected last.
    pub fn mark(&mut self, slot: usize)
        ensures
            final(self).last() == Some(slot),
    {
        self.last = Some(slot);
    }

    /// Clears the marker.
    pub fn reset_all(&mut self)
        ensures
            final(self).last() is None,
    {
        self.last = None;
    }

    /// The marked slot, unless the marker was cleared since.
    pub fn last_selected(&self) -> (slot: Option<usize>)
        ensures
            slot == self.last(),
    {
        self.last
    }
}

/// The slots of all character instances, and the slot that was selected last.
pub struct SlotStore {
    slots: Vec<Slot>,
    marker: SelectionMarker,
}

impl SlotStore {
    /// The slot at index `i`.
    pub closed spec fn slot(&self, i: int) -> Slot {
        self.slots@[i]
    }

    /// The slot whose selection was set last, unless the marker was cleared since.
    pub closed spec fn last(&self) -> Option<usize> {
        self.marker.last()
    }

    /// There are eight slots, each well formed.
    pub closed spec fn wf(&self) -> bool {
        &&& self.slots@.len() == SLOT_COUNT
        &&& forall|i: int| 0 <= i < SLOT_COUNT ==> (#[trigger] self.slots@[i]).wf()
    }

    /// In a well-formed store every slot is well formed.
    pub proof fn lemma_slots_wf(&self, i: int)
        requires
            self.wf(),
            0 <= i < SLOT_COUNT,
        ensures
            self.slot(i).wf(),
    {
    }

    /// A store whose slots are all empty.
    pub fn new() -> (store: SlotStore)
        ensures
            store.wf(),
            store.last() is None,
            forall|i: int| 0 <= i < SLOT_COUNT ==> (#[trigger] store.slot(i)).state() == SlotState::Empty,
    {
        let mut slots: Vec<Slot> = Vec::new();
        let mut i: usize = 0;
        while i < SLOT_COUNT
            invariant
                i <= SLOT_COUNT,
                slots@.len() == i,
                forall|k: int| 0 <= k < i ==> (#[trigger] slots@[k]).wf() && slots@[k].state() == SlotState::Empty,
            decreases SLOT_COUNT - i,
        {
            slots.push(Slot::new());
            i += 1;
        }
        SlotStore { slots, marker: SelectionMarker::new() }
    }

    /// Sets the selection of one slot, drops its cached render and marks it as
    /// the slot selected last. No other slot changes.
    pub fn select(&mut self, slot: usize, path: Option<String>)
        requires
            old(self).wf(),
            slot < SLOT_COUNT,
        ensures
            final(self).wf(),
            final(self).slot(slot as int).selected() == path,
            final(self).slot(slot as int).cached() is None,
            final(self).last() == Some(slot),
            forall|i: int|
                0 <= i < SLOT_COUNT && i != slot ==> #[trigger] final(self).slot(i) == old(self).slot(i),
    {
        self.slots[slot].select(path);
        self.marker.mark(slot);
    }

    /// The selected source path of one slot, as it is now.
    pub fn get_selected(&self, slot: usize) -> (path: Option<String>)
        requires
            self.wf(),
            slot < SLOT_COUNT,
        ensures
            path == self.slot(slot as int).selected(),
    {
        self.slots[slot].get_selected()
    }

    /// The render of one slot, made and cached by `render_fn` where there is
    /// none yet; see [`Slot::get_or_render`]. No other slot changes.
    pub fn get_or_render<F: FnOnce(&String) -> Option<Image>>(&mut self, slot: usize, render_fn: F) -> (render:
        Option<Image>)
        requires
            old(self).wf(),
            slot < SLOT_COUNT,
            old(self).slot(slot as int).selected() matches Some(path) ==> call_requires(render_fn, (&path,)),
            forall|path: &String, out: Option<Image>|
                call_ensures(render_fn, (path,), out) ==> (out matches Some(img) ==> img@.wf()),
        ensures
            final(self).wf(),
            final(self).last() == old(self).last(),
            forall|i: int|
                0 <= i < SLOT_COUNT && i != slot ==> #[trigger] final(self).slot(i) == old(self).slot(i),
            final(self).slot(slot as int).selected() == old(self).slot(slot as int).selected(),
            old(self).slot(slot as int).state() == SlotState::Empty ==> render is None && final(self).slot(
                slot as int,
            ).cached() is None,
            old(self).slot(slot as int).state() == SlotState::Rendered ==> final(self).slot(
                slot as int,
            ).cached() == old(self).slot(slot as int).cached() && render is Some && render->0@ == old(
                self,
            ).slot(slot as int).cached()->0@,
            old(self).slot(slot as int).state() == SlotState::Selected ==> exists|out: Option<Image>|
                ({
                    &&& call_ensures(render_fn, (&old(self).slot(slot as int).selected()->0,), out)
                    &&& final(self).slot(slot as int).cached() == out
                    &&& render is Some <==> out is Some
                    &&& render matches Some(img) ==> img@ == out->0@
                }),
    {
        self.slots[slot].get_or_render(render_fn)
    }

    /// The slot whose selection was set last, unless the marker was cleared since.
    pub fn last_selected(&self) -> (slot: Option<usize>)
        ensures
            slot == self.last(),
    {
        self.marker.last_selected()
    }

    /// Clears the marker of the slot selected last; the slots stay as they are.
    pub fn reset_all(&mut self)
        requires
            old(self).wf(),
        ensures
            final(self).wf(),
            final(self).last() is None,
            forall|i: int| 0 <= i < SLOT_COUNT ==> #[trigger] final(self).slot(i) == old(self).slot(i),
    {
        self.marker.reset_all();
    }
}

} // verus!
