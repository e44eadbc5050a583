//! The window registry: maps native window handles to the per-window input
//! state that event translation reads and writes.
//!
//! Handles are unique in the registry; insertion of a known handle replaces
//! its entry. Removal reports whether the handle was present, so that a
//! `Destroyed` event can be emitted exactly once per window however often
//! the platform repeats the removal.

use vstd::prelude::*;

use crate::event::Position;

verus! {

/// A window's inner size in native pixels.
#[derive(Debug, Clone, Copy, PartialEq, Eq, Structural)]
pub struct WindowSize {
    pub width: i32,
    pub height: i32,
}

/// A window position in native pixels.
#[derive(Debug, Clone, Copy, PartialEq, Eq, Structural)]
pub struct WindowPos {
    pub x: i32,
    pub y: i32,
}

/// The decoration padding between a window's inner and outer rectangles.
#[derive(Debug, Clone, Copy, PartialEq, Eq, Structural)]
pub struct FrameExtents {
    pub left: i32,
    pub top: i32,
}

impl FrameExtents {
    /// Derives the outer (decorated) position from an inner position.
    pub fn inner_pos_to_outer(&self, x: i32, y: i32) -> (r: Position)
        ensures
            r == (Position { x: (x - self.left) as i64, y: (y - self.top) as i64 }),
    {
        Position { x: (x as i64) - (self.left as i64), y: (y as i64) - (self.top as i64) }
    }
}

/// The configuration seen in the latest configure notifications.
#[derive(Debug, Clone, Copy, PartialEq, Eq, Structural)]
pub struct WindowConfig {
    pub size: Option<WindowSize>,
    pub position: Option<WindowPos>,
    pub inner_position: Option<WindowPos>,
}

impl WindowConfig {
    /// Nothing seen yet.
    pub fn empty() -> (r: WindowConfig)
        ensures
            r == (WindowConfig { size: None::<WindowSize>, position: None::<WindowPos>, inner_position: None::<WindowPos> }),
    {
        WindowConfig { size: None, position: None, inner_position: None }
    }
}

/// State maintained per window for translating its events.
#[derive(Debug, Clone, Copy, PartialEq, Eq, Structural)]
pub struct WindowData {
    pub config: WindowConfig,
    pub multitouch: bool,
    pub cursor_pos: Option<Position>,
    /// Cached decoration padding; invalidated on reparent and on
    /// inner-position changes, re-queried on the next outer derivation.
    pub frame_extents: Option<FrameExtents>,
}

impl WindowData {
    /// The state of a freshly registered window.
    pub fn new(multitouch: bool) -> (r: WindowData)
        ensures
            r.config.size is None,
            r.config.position is None,
            r.config.inner_position is None,
            r.multitouch == multitouch,
            r.cursor_pos is None,
            r.frame_extents is None,
    {
        WindowData {
            config: WindowConfig::empty(),
            multitouch,
            cursor_pos: None,
            frame_extents: None,
        }
    }
}

/// One map entry: a native handle and its state.
#[derive(Debug, Clone)]
pub struct KeyedEntry<V> {
    pub id: u64,
    pub data: V,
}

/// The index of the entry with the given handle.
pub open spec fn entry_index<V>(entries: Seq<KeyedEntry<V>>, id: u64) -> Option<int>
    decreases entries.len(),
{
    if entries.len() == 0 {
        None
    } else if entries[0].id == id {
        Some(0int)
    } else {
        match entry_index(entries.drop_first(), id) {
            Some(i) => Some(i + 1),
            None => None,
        }
    }
}

/// The state registered for a handle, if any.
pub open spec fn lookup<V>(entries: Seq<KeyedEntry<V>>, id: u64) -> Option<V> {
    match entry_index(entries, id) {
        Some(i) => Some(entries[i].data),
        None => None,
    }
}

/// Maps native handles to per-entity state, keyed uniquely.
#[derive(Debug, Clone)]
pub struct KeyedMap<V> {
    entries: Vec<KeyedEntry<V>>,
}

impl<V> KeyedMap<V> {
    /// Handles are unique.
    pub closed spec fn wf(self) -> bool {
        forall|i: int, j: int|
            0 <= i < j < self.entries@.len() ==> #[trigger] self.entries@[i].id != #[trigger] self.entries@[j].id
    }

    /// The registered handles and their state, as a map.
    pub closed spec fn view_map(self) -> Map<u64, V> {
        Map::new(
            |id: u64| lookup(self.entries@, id) is Some,
            |id: u64| lookup(self.entries@, id).unwrap(),
        )
    }

    /// An empty map.
    pub fn new() -> (r: KeyedMap<V>)
        ensures
            r.wf(),
            r.view_map() =~= Map::<u64, V>::empty(),
    {
        let r = KeyedMap { entries: Vec::new() };
        proof {
            assert(forall|id: u64| entry_index(r.entries@, id) is None);
        }
        r
    }

    /// The index of the handle's entry, if it is registered.
    fn find(&self, id: u64) -> (r: Option<usize>)
        ensures
            match r {
                Some(i) => entry_index(self.entries@, id) == Some(i as int) && i < self.entries@.len()
                    && self.entries@[i as int].id == id,
                None => entry_index(self.entries@, id) is None,
            },
    {
        let n = self.entries.len();
        let mut k: usize = 0;
        proof {
            assert(self.entries@.skip(0) =~= self.entries@);
        }
        while k < n
            invariant
                n == self.entries@.len(),
                0 <= k <= n,
                forall|j: int| 0 <= j < k ==> #[trigger] self.entries@[j].id != id,
                entry_index(self.entries@.skip(k as int), id) == match entry_index(self.entries@, id) {
                    Some(i) => Some(i - k),
                    None => None::<int>,
                },
            decreases n - k,
        {
            if self.entries[k].id == id {
                return Some(k);
            }
            proof {
                assert(self.entries@.skip(k as int).drop_first() =~= self.entries@.skip(k + 1));
            }
            k = k + 1;
        }
        proof {
            assert(self.entries@.skip(n as int) =~= Seq::<KeyedEntry<V>>::empty());
        }
        None
    }

    /// Whether the handle is registered.
    pub fn contains(&self, id: u64) -> (r: bool)
        ensures
            r == self.view_map().contains_key(id),
    {
        self.find(id).is_some()
    }

    /// Unregisters an entry and hands its state back, so a caller may
    /// rework it and reinsert it.
    pub fn take(&mut self, id: u64) -> (r: Option<V>)
        requires
            old(self).wf(),
        ensures
            final(self).wf(),
            final(self).view_map() =~= old(self).view_map().remove(id),
            match r {
                Some(d) => old(self).view_map().contains_key(id) && old(self).view_map()[id] == d,
                None => !old(self).view_map().contains_key(id),
            },
    {
        let ghost before = self.entries@;
        match self.find(id) {
            Some(i) => {
                let entry = self.entries.remove(i);
                proof {
                    assert forall|k: u64| lookup(self.entries@, k) == if k == id {
                        None::<V>
                    } else {
                        lookup(before, k)
                    } by {
                        lemma_lookup_remove_at(before, i as int, k);
                    }
                    assert forall|p: int, q: int|
                        0 <= p < q < self.entries@.len() implies #[trigger] self.entries@[p].id
                        != #[trigger] self.entries@[q].id by {
                        let pp: int = if p < i as int { p } else { p + 1 };
                        let qq: int = if q < i as int { q } else { q + 1 };
                        assert(self.entries@[p] == before[pp]);
                        assert(self.entries@[q] == before[qq]);
                    }
                    assert(self.view_map() =~= old(self).view_map().remove(id));
                }
                Some(entry.data)
            },
            None => None,
        }
    }

    /// Registers an entry, or replaces the state of a registered one.
    pub fn insert(&mut self, id: u64, data: V)
        requires
            old(self).wf(),
        ensures
            final(self).wf(),
            final(self).view_map() =~= old(self).view_map().insert(id, data),
    {
        let ghost before = self.entries@;
        let entry = KeyedEntry { id, data };
        match self.find(id) {
            Some(i) => {
                self.entries.set(i, entry);
                proof {
                    assert forall|k: u64| lookup(self.entries@, k) == if k == id {
                        Some(data)
                    } else {
                        lookup(before, k)
                    } by {
                        lemma_lookup_update_at(before, i as int, entry, k);
                    }
                    assert(forall|j: int|
                        0 <= j < self.entries@.len() ==> #[trigger] self.entries@[j].id == before[j].id);
                    assert(self.view_map() =~= old(self).view_map().insert(id, data));
                }
            },
            None => {
                self.entries.push(entry);
                proof {
                    assert forall|k: u64| lookup(self.entries@, k) == if k == id {
                        Some(data)
                    } else {
                        lookup(before, k)
                    } by {
                        lemma_lookup_push_at(before, entry, k);
                    }
                    lemma_index_none(before, id);
                    assert forall|p: int, q: int|
                        0 <= p < q < self.entries@.len() implies #[trigger] self.entries@[p].id
                        != #[trigger] self.entries@[q].id by {
                        if q < before.len() as int {
                        } else {
                            assert(self.entries@[q] == entry);
                            assert(self.entries@[p] == before[p]);
                        }
                    }
                    assert(self.view_map() =~= old(self).view_map().insert(id, data));
                }
            },
        }
    }

    /// Unregisters an entry; reports whether it was registered, so that a
    /// window's `Destroyed` is emitted exactly once however often the
    /// platform repeats the removal.
    pub fn remove(&mut self, id: u64) -> (was: bool)
        requires
            old(self).wf(),
        ensures
            final(self).wf(),
            final(self).view_map() =~= old(self).view_map().remove(id),
            was == old(self).view_map().contains_key(id),
    {
        let ghost before = self.entries@;
        match self.find(id) {
            Some(i) => {
                self.entries.remove(i);
                proof {
                    assert forall|k: u64| lookup(self.entries@, k) == if k == id {
                        None::<V>
                    } else {
                        lookup(before, k)
                    } by {
                        lemma_lookup_remove_at(before, i as int, k);
                    }
                    assert forall|p: int, q: int|
                        0 <= p < q < self.entries@.len() implies #[trigger] self.entries@[p].id
                        != #[trigger] self.entries@[q].id by {
                        let pp: int = if p < i as int { p } else { p + 1 };
                        let qq: int = if q < i as int { q } else { q + 1 };
                        assert(self.entries@[p] == before[pp]);
                        assert(self.entries@[q] == before[qq]);
                    }
                    assert(self.view_map() =~= old(self).view_map().remove(id));
                }
                true
            },
            None => false,
        }
    }
}

impl<V> KeyedMap<V> {
    /// A borrow of the state of a registered entry.
    pub fn borrow_entry(&self, id: u64) -> (r: Option<&V>)
        ensures
            match r {
                Some(d) => self.view_map().contains_key(id) && self.view_map()[id] == *d,
                None => !self.view_map().contains_key(id),
            },
    {
        match self.find(id) {
            Some(i) => Some(&self.entries[i].data),
            None => None,
        }
    }
}

impl<V: Copy> KeyedMap<V> {
    /// The state of a registered entry.
    pub fn get(&self, id: u64) -> (r: Option<V>)
        ensures
            match r {
                Some(d) => self.view_map().contains_key(id) && self.view_map()[id] == d,
                None => !self.view_map().contains_key(id),
            },
    {
        match self.find(id) {
            Some(i) => Some(self.entries[i].data),
            None => None,
        }
    }
}

/// The registry the dispatcher owns: the windows and the devices that
/// events are keyed against. One entity, one entry; a `Destroyed` event is
/// tied to a successful window removal, so it comes exactly once per window.
#[derive(Debug)]
pub struct Registry {
    pub windows: KeyedMap<WindowData>,
    pub devices: KeyedMap<crate::device::Device>,
}

impl Registry {
    pub open spec fn wf(self) -> bool {
        self.windows.wf() && self.devices.wf()
    }

    /// An empty registry.
    pub fn new() -> (r: Registry)
        ensures
            r.wf(),
            r.windows.view_map() =~= Map::<u64, WindowData>::empty(),
            r.devices.view_map() =~= Map::<u64, crate::device::Device>::empty(),
    {
        Registry { windows: KeyedMap::new(), devices: KeyedMap::new() }
    }

    /// Registers a window, or replaces the state of a registered one.
    pub fn insert_window(&mut self, id: u64, data: WindowData)
        requires
            old(self).wf(),
        ensures
            final(self).wf(),
            final(self).windows.view_map() =~= old(self).windows.view_map().insert(id, data),
            final(self).devices == old(self).devices,
    {
        self.windows.insert(id, data);
    }

    /// Unregisters a window; true exactly when it was registered.
    pub fn remove_window(&mut self, id: u64) -> (was: bool)
        requires
            old(self).wf(),
        ensures
            final(self).wf(),
            final(self).windows.view_map() =~= old(self).windows.view_map().remove(id),
            was == old(self).windows.view_map().contains_key(id),
            final(self).devices == old(self).devices,
    {
        self.windows.remove(id)
    }

    /// The state of a registered window.
    pub fn lookup_window(&self, id: u64) -> (r: Option<WindowData>)
        ensures
            match r {
                Some(d) => self.windows.view_map().contains_key(id) && self.windows.view_map()[id]
                    == d,
                None => !self.windows.view_map().contains_key(id),
            },
    {
        self.windows.get(id)
    }

    /// Registers a device, or replaces the state of a registered one.
    pub fn insert_device(&mut self, id: u64, device: crate::device::Device)
        requires
            old(self).wf(),
        ensures
            final(self).wf(),
            final(self).devices.view_map() =~= old(self).devices.view_map().insert(id, device),
            final(self).windows == old(self).windows,
    {
        self.devices.insert(id, device);
    }

    /// Unregisters a device; true exactly when it was registered.
    pub fn remove_device(&mut self, id: u64) -> (was: bool)
        requires
            old(self).wf(),
        ensures
            final(self).wf(),
            final(self).devices.view_map() =~= old(self).devices.view_map().remove(id),
            was == old(self).devices.view_map().contains_key(id),
            final(self).windows == old(self).windows,
    {
        self.devices.remove(id)
    }
}

/// Any first index points inside the sequence, at an entry with that handle.
proof fn lemma_index_bounds_at<V>(entries: Seq<KeyedEntry<V>>, id: u64)
    ensures
        entry_index(entries, id) matches Some(i) ==> 0 <= i < entries.len() && entries[i].id == id,
    decreases entries.len(),
{
    if entries.len() > 0 && entries[0].id != id {
        lemma_index_bounds_at(entries.drop_first(), id);
    }
}

/// A handle without an entry occurs nowhere in the sequence.
proof fn lemma_index_none<V>(entries: Seq<KeyedEntry<V>>, id: u64)
    requires
        entry_index(entries, id) is None,
    ensures
        forall|j: int| 0 <= j < entries.len() ==> #[trigger] entries[j].id != id,
    decreases entries.len(),
{
    if entries.len() > 0 {
        lemma_index_none(entries.drop_first(), id);
        assert forall|j: int| 0 <= j < entries.len() implies #[trigger] entries[j].id != id by {
            if j > 0 {
                assert(entries.drop_first()[j - 1] == entries[j]);
            }
        }
    }
}

/// When the head is not the handle's entry, the tail decides the lookup.
proof fn lemma_lookup_step<V>(entries: Seq<KeyedEntry<V>>, id: u64)
    requires
        entries.len() > 0,
        entries[0].id != id,
    ensures
        lookup(entries, id) == lookup(entries.drop_first(), id),
{
    lemma_index_bounds_at(entries.drop_first(), id);
    match entry_index(entries.drop_first(), id) {
        Some(j) => {
            assert(entries[j + 1] == entries.drop_first()[j]);
        },
        None => {},
    }
}

/// Replacing the entry at the (first) index of its own handle rebinds that
/// handle and leaves any other handle's lookup unchanged.
proof fn lemma_lookup_update_at<V>(entries: Seq<KeyedEntry<V>>, i: int, e: KeyedEntry<V>, id: u64)
    requires
        0 <= i < entries.len(),
        entry_index(entries, e.id) == Some(i),
    ensures
        lookup(entries.update(i, e), id) == if id == e.id {
            Some(e.data)
        } else {
            lookup(entries, id)
        },
    decreases entries.len(),
{
    lemma_index_bounds_at(entries, e.id);
    let updated = entries.update(i, e);
    if i == 0 {
        assert(updated.drop_first() =~= entries.drop_first());
        if id == e.id {
            assert(updated[0].id == id);
        } else {
            lemma_lookup_step(updated, id);
            lemma_lookup_step(entries, id);
        }
    } else {
        assert(entries[0].id != e.id);
        assert(updated[0] == entries[0]);
        assert(updated.drop_first() =~= entries.drop_first().update(i - 1, e));
        if entries[0].id == id {
            assert(lookup(updated, id) == Some(updated[0].data));
            assert(lookup(entries, id) == Some(entries[0].data));
        } else {
            lemma_lookup_update_at(entries.drop_first(), i - 1, e, id);
            lemma_lookup_step(updated, id);
            lemma_lookup_step(entries, id);
        }
    }
}

/// Appending an entry with a fresh handle registers it and leaves any other
/// handle's lookup unchanged.
proof fn lemma_lookup_push_at<V>(entries: Seq<KeyedEntry<V>>, e: KeyedEntry<V>, id: u64)
    requires
        entry_index(entries, e.id) is None,
    ensures
        lookup(entries.push(e), id) == if id == e.id {
            Some(e.data)
        } else {
            lookup(entries, id)
        },
    decreases entries.len(),
{
    let pushed = entries.push(e);
    if entries.len() == 0 {
        assert(pushed[0] == e);
        if id != e.id {
            assert(pushed.drop_first() =~= Seq::<KeyedEntry<V>>::empty());
            lemma_lookup_step(pushed, id);
        }
    } else {
        assert(pushed[0] == entries[0]);
        assert(pushed.drop_first() =~= entries.drop_first().push(e));
        if entries[0].id == id {
        } else {
            lemma_lookup_push_at(entries.drop_first(), e, id);
            lemma_lookup_step(pushed, id);
            lemma_lookup_step(entries, id);
        }
    }
}

/// Removing the unique entry of a handle unregisters it and leaves any
/// other handle's lookup unchanged.
proof fn lemma_lookup_remove_at<V>(entries: Seq<KeyedEntry<V>>, i: int, id: u64)
    requires
        0 <= i < entries.len(),
        entry_index(entries, entries[i].id) == Some(i),
        forall|p: int, q: int|
            0 <= p < q < entries.len() ==> #[trigger] entries[p].id != #[trigger] entries[q].id,
    ensures
        lookup(entries.remove(i), id) == if id == entries[i].id {
            None::<V>
        } else {
            lookup(entries, id)
        },
    decreases entries.len(),
{
    let shrunk = entries.remove(i);
    if i == 0 {
        assert(shrunk =~= entries.drop_first());
        if id == entries[0].id {
            lemma_unique_not_in_rest(entries);
        } else {
            lemma_lookup_step(entries, id);
        }
    } else {
        assert(shrunk[0] == entries[0]);
        assert(shrunk.drop_first() =~= entries.drop_first().remove(i - 1));
        assert(entries.drop_first()[i - 1] == entries[i]);
        assert(entries[0].id != entries[i].id);
        if entries[0].id == id {
        } else {
            lemma_lookup_remove_at(entries.drop_first(), i - 1, id);
            if shrunk.len() > 0 {
                lemma_lookup_step(shrunk, id);
            }
            lemma_lookup_step(entries, id);
        }
    }
}

/// Under uniqueness, the head's handle does not recur in the tail.
proof fn lemma_unique_not_in_rest<V>(entries: Seq<KeyedEntry<V>>)
    requires
        entries.len() > 0,
        forall|p: int, q: int|
            0 <= p < q < entries.len() ==> #[trigger] entries[p].id != #[trigger] entries[q].id,
    ensures
        entry_index(entries.drop_first(), entries[0].id) is None,
{
    lemma_index_bounds_at(entries.drop_first(), entries[0].id);
    match entry_index(entries.drop_first(), entries[0].id) {
        Some(j) => {
            assert(entries.drop_first()[j] == entries[j + 1]);
            assert(entries[0].id != entries[j + 1].id);
            assert(false);
        },
        None => {},
    }
}

} // verus!
