//! The X11 dispatcher: translates decoded native events into the canonical
//! event algebra, keeping the window and device registry, the drag-and-drop
//! exchange, and the scroll-axis accumulators as it goes.
//!
//! The embedding program owns the display connection: it decodes each native
//! event into [`XEventData`] (after letting the input method filter it),
//! hands it in, delivers the returned events, and performs the returned
//! [`XAction`]s. Events for windows that are not registered — for instance
//! because the platform destroyed them first — are absorbed silently, so
//! that no event for a window follows its `Destroyed`.

use vstd::prelude::*;

use crate::device::{Device, DeviceInfoData, axes_of_classes, is_physical, reset_axes, scroll_line_delta};
use crate::device::axis_index;
use crate::dnd::{Dnd, DndAction};
use crate::event::{
    DeviceEvent, DeviceId, Event, EventsLoopClosed, LineDelta, ModifiersState, MouseButton,
    Position, Touch, TouchPhase, VirtualKeyCode, WindowEvent, mkdid, mkwid,
};
use crate::event::ElementState;
use crate::registry::{FrameExtents, Registry, WindowData, WindowPos, WindowSize};
use crate::channel::{channel_try_recv, flag_pair, flag_set};

verus! {

/// X modifier-mask bits, as the server reports them in core key events.
pub const SHIFT_MASK: u32 = 1;
pub const CONTROL_MASK: u32 = 4;
pub const MOD1_MASK: u32 = 8;
pub const MOD4_MASK: u32 = 64;

/// The modifier state a core state mask encodes.
pub open spec fn mods_of_mask(mask: u32) -> ModifiersState {
    ModifiersState {
        shift: mask & SHIFT_MASK != 0,
        ctrl: mask & CONTROL_MASK != 0,
        alt: mask & MOD1_MASK != 0,
        logo: mask & MOD4_MASK != 0,
    }
}

/// Reads the modifier state out of a core state mask. The modifiers put on
/// an event are always derived from the mask the server attached to that
/// very event, so they reflect the authoritative state at dispatch time.
pub fn mods_from_mask(mask: u32) -> (r: ModifiersState)
    ensures
        r == mods_of_mask(mask),
{
    ModifiersState {
        shift: mask & SHIFT_MASK != 0,
        ctrl: mask & CONTROL_MASK != 0,
        alt: mask & MOD1_MASK != 0,
        logo: mask & MOD4_MASK != 0,
    }
}

/// The interned atoms the drag-and-drop protocol speaks with.
#[derive(Debug, Clone, Copy, PartialEq, Eq, Structural)]
pub struct DndAtoms {
    pub enter: u64,
    pub position: u64,
    pub drop_message: u64,
    pub leave: u64,
    pub selection: u64,
    pub uri_list: u64,
}

/// One valuator of a pointer event: an axis number and its reported value.
#[derive(Debug, Clone, Copy, PartialEq, Eq, Structural)]
pub struct Valuator {
    pub axis: i32,
    pub value: i32,
}

/// One entry of a device-hierarchy change; the description names the
/// device concerned.
#[derive(Debug, Clone)]
pub struct HierarchyEntry {
    pub added: bool,
    pub removed: bool,
    pub info: DeviceInfoData,
}

/// A native event, decoded to plain values by the embedding program.
///
/// Payloads that a dispatcher reads back from the server on demand — the
/// drag source's long type list, the selection data, the frame extents, the
/// device descriptions — are carried on the event, queried by the embedder.
#[derive(Debug, Clone)]
pub enum XEventData {
    /// The keyboard mapping changed; the embedder must refresh its tables.
    MappingNotify,
    ClientMessage {
        window: u64,
        message_type: u64,
        data0: i64,
        data1: i64,
        data2: i64,
        data3: i64,
        data4: i64,
        property_types: Vec<u64>,
    },
    SelectionNotify { requestor: u64, property: u64, data: Option<Vec<u8>> },
    ConfigureNotify {
        window: u64,
        x: i32,
        y: i32,
        width: u16,
        height: u16,
        is_synthetic: bool,
        queried_extents: FrameExtents,
    },
    ReparentNotify { window: u64 },
    DestroyNotify { window: u64 },
    Expose { window: u64 },
    KeyInput {
        window: u64,
        pressed: bool,
        keycode: u32,
        state_mask: u32,
        virtual_keycode: Option<VirtualKeyCode>,
        committed: Vec<u32>,
    },
    XiButton { window: u64, device: i32, pressed: bool, detail: u32, emulated: bool, mods_mask: u32 },
    XiMotion {
        window: u64,
        device: i32,
        source: i32,
        x: i64,
        y: i64,
        mods_mask: u32,
        valuators: Vec<Valuator>,
    },
    XiEnter {
        window: u64,
        device: i32,
        source: i32,
        x: i64,
        y: i64,
        mods: ModifiersState,
        infos: Vec<DeviceInfoData>,
    },
    XiLeave { window: u64, device: i32 },
    XiFocusIn { window: u64, device: i32, x: i64, y: i64, mods_mask: u32 },
    XiFocusOut { window: u64 },
    XiTouch { window: u64, device: i32, phase: TouchPhase, x: i64, y: i64, id: u64 },
    XiRawButton { device: i32, detail: u32, pressed: bool, emulated: bool },
    XiRawMotion { device: i32, valuators: Vec<Valuator> },
    XiRawKey {
        device: i32,
        pressed: bool,
        keycode: i32,
        virtual_keycode: Option<VirtualKeyCode>,
        mods: ModifiersState,
    },
    XiHierarchy { entries: Vec<HierarchyEntry> },
}

/// An operation the dispatcher asks the embedding program to perform on the
/// display connection.
#[derive(Debug, Clone, Copy, PartialEq, Eq, Structural)]
pub enum XAction {
    /// Re-read the keyboard mapping after a `MappingNotify`.
    RefreshKeyboardMapping,
    /// A drag-and-drop message to send or a selection to convert.
    Dnd(DndAction),
    /// Re-query the window manager after the window was reparented.
    UpdateWmInfo,
    /// Destroy the input context of a window that is gone.
    RemoveImeContext { window: u64 },
    /// Focus or unfocus the input context of a window.
    FocusImeContext { window: u64, focused: bool },
    /// Subscribe to the raw events of a freshly seen physical device.
    SelectXiEvents { device: i32 },
}

/// The key under which a device is registered.
pub open spec fn device_key(device: i32) -> u64 {
    device as u64
}

/// The input state of a freshly registered window.
pub open spec fn fresh_window_data(multitouch: bool) -> WindowData {
    WindowData {
        config: crate::registry::WindowConfig {
            size: None,
            position: None,
            inner_position: None,
        },
        multitouch,
        cursor_pos: None,
        frame_extents: None,
    }
}

/// The scroll axes a freshly seen device starts with: the declared axes of
/// a physical device, accumulators read from its current valuator values.
pub open spec fn expected_axes(info: DeviceInfoData) -> Seq<(i32, crate::device::ScrollAxis)> {
    if is_physical(info.device_use) {
        reset_axes(axes_of_classes(info.classes@), info.classes@)
    } else {
        Seq::empty()
    }
}

/// Whether a registered device reflects a device description.
pub open spec fn device_matches(d: Device, info: DeviceInfoData) -> bool {
    &&& d.attachment == info.attachment
    &&& d.name@ == info.name@
    &&& d.scroll_axes@ == expected_axes(info)
}

/// Among the first `upto` device descriptions, entry `i` is the one that
/// stands for its device: no later entry names the same device.
#[verifier::opaque]
pub open spec fn settles(infos: Seq<DeviceInfoData>, i: int, upto: int) -> bool {
    forall|j: int| i < j < upto ==> #[trigger] infos[j].deviceid != infos[i].deviceid
}

/// The raw-event subscriptions owed for a list of device descriptions: one
/// per physical device, in order.
pub open spec fn xi_select_actions(infos: Seq<DeviceInfoData>) -> Seq<XAction>
    decreases infos.len(),
{
    if infos.len() == 0 {
        Seq::empty()
    } else {
        let rest = xi_select_actions(infos.drop_first());
        if is_physical(infos[0].device_use) {
            seq![XAction::SelectXiEvents { device: infos[0].deviceid }] + rest
        } else {
            rest
        }
    }
}

proof fn lemma_xi_select_take_step(infos: Seq<DeviceInfoData>, k: int)
    requires
        0 < k <= infos.len(),
    ensures
        xi_select_actions(infos.take(k)) == if is_physical(infos[k - 1].device_use) {
            xi_select_actions(infos.take(k - 1)) + seq![
                XAction::SelectXiEvents { device: infos[k - 1].deviceid },
            ]
        } else {
            xi_select_actions(infos.take(k - 1))
        },
    decreases k,
{
    if k == 1 {
        assert(infos.take(1).drop_first() =~= infos.take(0));
        assert(xi_select_actions(infos.take(0)) =~= Seq::<XAction>::empty());
        if is_physical(infos[0].device_use) {
            assert(xi_select_actions(infos.take(1)) =~= seq![
                XAction::SelectXiEvents { device: infos[0].deviceid },
            ]);
        }
    } else {
        lemma_xi_select_take_step(infos.drop_first(), k - 1);
        assert(infos.take(k).drop_first() =~= infos.drop_first().take(k - 1));
        assert(infos.take(k - 1).drop_first() =~= infos.drop_first().take(k - 2));
        assert(infos.take(k)[0] == infos[0]);
        assert(infos.take(k - 1)[0] == infos[0]);
        if is_physical(infos[0].device_use) {
            assert(xi_select_actions(infos.take(k)) =~= seq![
                XAction::SelectXiEvents { device: infos[0].deviceid },
            ] + xi_select_actions(infos.drop_first().take(k - 1)));
            assert(xi_select_actions(infos.take(k - 1)) =~= seq![
                XAction::SelectXiEvents { device: infos[0].deviceid },
            ] + xi_select_actions(infos.drop_first().take(k - 2)));
        }
    }
}

/// The events loop: the per-connection dispatcher state. The embedding
/// program decodes native events into [`XEventData`] and hands each to
/// [`EventsLoop::process_event`].
pub struct EventsLoop {
    /// The `WM_DELETE_WINDOW` atom, announced by a close request.
    pub wm_delete_window: u64,
    /// The interned drag-and-drop atoms.
    pub dnd_atoms: DndAtoms,
    /// The drag-and-drop exchange in progress, if any.
    pub dnd: Dnd,
    /// The windows and devices that events are keyed against.
    pub registry: Registry,
    /// The loop half of the wakeup flag: a queued unit means at least one
    /// proxy poked the dummy window since the last drain. The channel holds
    /// one unit at most, so a burst of pokes coalesces into one wakeup.
    pub wakeup_receiver: crossbeam_channel::Receiver<()>,
    /// Cloned into proxies.
    pub wakeup_sender: crossbeam_channel::Sender<()>,
}

/// A cloneable cross-thread handle that wakes the loop's blocked native
/// read by a message through the dummy window.
#[derive(Clone)]
pub struct EventsLoopProxy {
    pub wakeup: crossbeam_channel::Sender<()>,
}

impl EventsLoopProxy {
    /// Sets the pending-wakeup flag and pokes the native source; pokes on
    /// a set flag coalesce. `Err` reports that the loop (the receiving
    /// half) has been destroyed.
    pub fn wakeup(&self) -> Result<(), EventsLoopClosed> {
        flag_set(&self.wakeup)
    }
}

impl EventsLoop {
    /// A dispatcher for a fresh connection: no windows, no devices, no drag
    /// in progress. The embedder follows up with [`EventsLoop::init_device`]
    /// for the devices already present.
    pub fn new(wm_delete_window: u64, dnd_atoms: DndAtoms) -> (r: EventsLoop)
        ensures
            r.wm_delete_window == wm_delete_window,
            r.dnd_atoms == dnd_atoms,
            r.dnd.version is None,
            r.dnd.type_list is None,
            r.dnd.source_window is None,
            r.dnd.result is None,
            r.registry.wf(),
            r.registry.windows.view_map() =~= Map::<u64, WindowData>::empty(),
            r.registry.devices.view_map() =~= Map::<u64, Device>::empty(),
    {
        let (wakeup_sender, wakeup_receiver) = flag_pair();
        EventsLoop {
            wm_delete_window,
            dnd_atoms,
            dnd: Dnd::new(),
            registry: Registry::new(),
            wakeup_receiver,
            wakeup_sender,
        }
    }

    /// A proxy for waking this loop from another thread.
    pub fn create_proxy(&self) -> EventsLoopProxy {
        EventsLoopProxy { wakeup: self.wakeup_sender.clone() }
    }

    /// Registers a window, as window construction does: fresh input state,
    /// with the multitouch choice the builder made.
    pub fn register_window(&mut self, window: u64, multitouch: bool)
        requires
            old(self).registry.wf(),
        ensures
            final(self).registry.wf(),
            final(self).registry.windows.view_map() =~= old(self).registry.windows.view_map()
                .insert(window, fresh_window_data(multitouch)),
            final(self).registry.devices == old(self).registry.devices,
            final(self).dnd == old(self).dnd,
            final(self).wm_delete_window == old(self).wm_delete_window,
            final(self).dnd_atoms == old(self).dnd_atoms,
    {
        self.registry.insert_window(window, WindowData::new(multitouch));
    }

    /// Registers the device one description names, replacing any previous
    /// entry for it.
    fn take_one_device(&mut self, info: &DeviceInfoData)
        requires
            old(self).registry.wf(),
        ensures
            final(self).registry.wf(),
            final(self).registry.windows == old(self).registry.windows,
            final(self).dnd == old(self).dnd,
            final(self).wm_delete_window == old(self).wm_delete_window,
            final(self).dnd_atoms == old(self).dnd_atoms,
            final(self).wakeup_receiver == old(self).wakeup_receiver,
            final(self).wakeup_sender == old(self).wakeup_sender,
            final(self).registry.devices.view_map().contains_key(device_key(info.deviceid)),
            device_matches(
                final(self).registry.devices.view_map()[device_key(info.deviceid)],
                *info,
            ),
            forall|key: u64|
                key != device_key(info.deviceid) ==> #[trigger] final(self).registry.devices.view_map().contains_key(
                    key,
                ) == old(self).registry.devices.view_map().contains_key(key),
            forall|key: u64|
                key != device_key(info.deviceid) && old(self).registry.devices.view_map().contains_key(key)
                    ==> #[trigger] final(self).registry.devices.view_map()[key] == old(self).registry.devices.view_map()[key],
    {
        let device = Device::new(info);
        self.registry.insert_device(device_key_exec(info.deviceid), device);
    }

    /// Takes in a list of device descriptions, as done at start and on
    /// hotplug: each becomes a registered device, and each physical one is
    /// subscribed to raw events.
    #[verifier::rlimit(100)]
    pub fn init_device(&mut self, infos: &Vec<DeviceInfoData>) -> (actions: Vec<XAction>)
        requires
            old(self).registry.wf(),
        ensures
            final(self).registry.wf(),
            final(self).registry.windows == old(self).registry.windows,
            final(self).dnd == old(self).dnd,
            final(self).wm_delete_window == old(self).wm_delete_window,
            final(self).dnd_atoms == old(self).dnd_atoms,
            actions@ == xi_select_actions(infos@),
            forall|i: int|
                0 <= i < infos@.len() ==> final(self).registry.devices.view_map().contains_key(
                    device_key(#[trigger] infos@[i].deviceid),
                ),
            forall|k: u64|
                #[trigger] final(self).registry.devices.view_map().contains_key(k) ==> old(
                    self,
                ).registry.devices.view_map().contains_key(k) || exists|i: int|
                    0 <= i < infos@.len() && device_key(#[trigger] infos@[i].deviceid) == k,
            forall|k: u64|
                old(self).registry.devices.view_map().contains_key(k)
                    ==> #[trigger] final(self).registry.devices.view_map().contains_key(k),
            forall|k: u64|
                !(exists|i: int| 0 <= i < infos@.len() && device_key(#[trigger] infos@[i].deviceid) == k)
                    && old(self).registry.devices.view_map().contains_key(k)
                    ==> final(self).registry.devices.view_map()[k] == old(self).registry.devices.view_map()[k],
            forall|i: int|
                0 <= i < infos@.len() && settles(infos@, i, infos@.len() as int)
                    ==> device_matches(
                    final(self).registry.devices.view_map()[device_key(#[trigger] infos@[i].deviceid)],
                    infos@[i],
                ),
    {
        let mut actions: Vec<XAction> = Vec::new();
        let n = infos.len();
        let mut k: usize = 0;
        while k < n
            invariant
                old(self).registry.wf(),
                self.registry.wf(),
                n == infos@.len(),
                0 <= k <= n,
                self.registry.windows == old(self).registry.windows,
                self.dnd == old(self).dnd,
                self.wm_delete_window == old(self).wm_delete_window,
                self.dnd_atoms == old(self).dnd_atoms,
                self.wakeup_receiver == old(self).wakeup_receiver,
                self.wakeup_sender == old(self).wakeup_sender,
                actions@ == xi_select_actions(infos@.take(k as int)),
                forall|i: int|
                    0 <= i < k ==> self.registry.devices.view_map().contains_key(
                        device_key(#[trigger] infos@[i].deviceid),
                    ),
                forall|key: u64|
                    #[trigger] self.registry.devices.view_map().contains_key(key) ==> old(
                        self,
                    ).registry.devices.view_map().contains_key(key) || exists|i: int|
                        0 <= i < k && device_key(#[trigger] infos@[i].deviceid) == key,
                forall|key: u64|
                    old(self).registry.devices.view_map().contains_key(key)
                        ==> #[trigger] self.registry.devices.view_map().contains_key(key),
                forall|key: u64|
                    !(exists|i: int| 0 <= i < k && device_key(#[trigger] infos@[i].deviceid) == key)
                        && old(self).registry.devices.view_map().contains_key(key) ==> self.registry.devices.view_map()[key]
                        == old(self).registry.devices.view_map()[key],
                forall|i: int|
                    0 <= i < k && settles(infos@, i, k as int) ==> device_matches(
                        self.registry.devices.view_map()[device_key(#[trigger] infos@[i].deviceid)],
                        infos@[i],
                    ),
            decreases n - k,
        {
            let info = &infos[k];
            if crate::device::physical_device(info) {
                actions.push(XAction::SelectXiEvents { device: info.deviceid });
            }
            let ghost map_before = self.registry.devices.view_map();
            self.take_one_device(info);
            k = k + 1;
            proof {
                lemma_xi_select_take_step(infos@, k as int);
                assert(actions@ =~= xi_select_actions(infos@.take(k as int)));
                let infosv = infos@;
                let kk = k as int;
                let last_key = device_key(infosv[kk - 1].deviceid);
                let now = self.registry.devices.view_map();
                let was = old(self).registry.devices.view_map();
                assert forall|i: int|
                    0 <= i < kk && settles(infosv, i, kk) implies device_matches(
                    now[device_key(infosv[i].deviceid)],
                    infosv[i],
                ) by {
                    reveal(crate::x11::settles);
                    if i < kk - 1 {
                        assert(settles(infosv, i, kk - 1));
                        assert(infosv[kk - 1].deviceid != infosv[i].deviceid);
                        lemma_device_key_injective(infosv[kk - 1].deviceid, infosv[i].deviceid);
                        assert(now[device_key(infosv[i].deviceid)] == map_before[device_key(
                            infosv[i].deviceid,
                        )]);
                    }
                }
                assert forall|i: int| 0 <= i < kk implies now.contains_key(
                    device_key(#[trigger] infosv[i].deviceid),
                ) by {
                    if i < kk - 1 {
                        assert(map_before.contains_key(device_key(infosv[i].deviceid)));
                    }
                }
                assert forall|key: u64| #[trigger] now.contains_key(key) implies was.contains_key(key)
                    || exists|i: int| 0 <= i < kk && device_key(#[trigger] infosv[i].deviceid) == key by {
                    if key == last_key {
                        assert(0 <= kk - 1 < kk && device_key(infosv[kk - 1].deviceid) == key);
                    } else {
                        assert(map_before.contains_key(key));
                        assert(was.contains_key(key) || exists|i: int|
                            0 <= i < kk - 1 && device_key(#[trigger] infosv[i].deviceid) == key);
                    }
                }
                assert forall|key: u64|
                    !(exists|i: int| 0 <= i < kk && device_key(#[trigger] infosv[i].deviceid) == key)
                        && was.contains_key(key) implies now[key] == was[key] by {
                    assert(last_key != key) by {
                        if last_key == key {
                            assert(0 <= kk - 1 < kk && device_key(infosv[kk - 1].deviceid) == key);
                        }
                    }
                    assert(map_before.contains_key(key));
                    assert(now[key] == map_before[key]);
                }
            }
        }
        proof {
            assert(infos@.take(n as int) =~= infos@);
        }
        actions
    }
}

/// Two devices never share a registry key.
pub proof fn lemma_device_key_injective(a: i32, b: i32)
    ensures
        device_key(a) == device_key(b) ==> a == b,
{
    assert((a as u64) == (b as u64) ==> a == b) by (bit_vector);
}

/// The key under which a device is registered.
pub fn device_key_exec(device: i32) -> (r: u64)
    ensures
        r == device_key(device),
{
    device as u64
}


/// An event addressed to one window.
pub open spec fn window_event<T>(window: u64, kind: WindowEvent) -> Event<T> {
    Event::WindowEvent { window_id: crate::event::WindowId(window), event: kind }
}

/// Whether an event announces a dropped file with the given path bytes.
pub open spec fn is_dropped_file<T>(e: Event<T>, window: u64, path: Seq<u8>) -> bool {
    &&& e matches Event::WindowEvent { window_id, event }
    &&& window_id == crate::event::WindowId(window)
    &&& event matches WindowEvent::DroppedFile(p)
    &&& p@ == path
}

/// Whether an event delivers one finalized character to a window.
pub open spec fn is_received_char<T>(e: Event<T>, window: u64, c: u32) -> bool {
    &&& e matches Event::WindowEvent { window_id, event }
    &&& window_id == crate::event::WindowId(window)
    &&& event matches WindowEvent::ReceivedCharacter(x)
    &&& x == c
}

/// Whether an event announces a hovered file with the given path bytes.
pub open spec fn is_hovered_file<T>(e: Event<T>, window: u64, path: Seq<u8>) -> bool {
    &&& e matches Event::WindowEvent { window_id, event }
    &&& window_id == crate::event::WindowId(window)
    &&& event matches WindowEvent::HoveredFile(p)
    &&& p@ == path
}

/// What one configure notification does to a window's state: the updated
/// state, whether a resize and a move are to be announced, and the frame
/// extents the move derivation used.
///
/// A synthetic notification carries a root-relative position and so decides
/// moves; a real one updates the inner position, and a change there drops
/// the cached frame extents and the outer position, forcing both to be
/// derived afresh.
pub open spec fn configure_update(
    d: WindowData,
    x: i32,
    y: i32,
    width: u16,
    height: u16,
    is_synthetic: bool,
    queried_extents: FrameExtents,
) -> (WindowData, bool, bool, FrameExtents) {
    let new_size = WindowSize { width: width as i32, height: height as i32 };
    let new_pos = WindowPos { x, y };
    let resized = d.config.size != Some(new_size);
    let moved = is_synthetic && d.config.position != Some(new_pos);
    let config1 = crate::registry::WindowConfig {
        size: Some(new_size),
        position: if is_synthetic {
            Some(new_pos)
        } else {
            d.config.position
        },
        inner_position: d.config.inner_position,
    };
    let inner_changed = !is_synthetic && d.config.inner_position != Some(new_pos);
    let config2 = if inner_changed {
        crate::registry::WindowConfig {
            size: config1.size,
            position: None,
            inner_position: Some(new_pos),
        }
    } else {
        config1
    };
    let extents0 = if inner_changed {
        None
    } else {
        d.frame_extents
    };
    let used_extents = match extents0 {
        Some(e) => e,
        None => queried_extents,
    };
    let d2 = WindowData {
        config: config2,
        multitouch: d.multitouch,
        cursor_pos: d.cursor_pos,
        frame_extents: if moved {
            Some(used_extents)
        } else {
            extents0
        },
    };
    (d2, resized, moved, used_extents)
}

impl EventsLoop {
    /// Whether a window is registered, so its events are delivered.
    fn window_registered(&self, window: u64) -> (r: bool)
        ensures
            r == self.registry.windows.view_map().contains_key(window),
    {
        self.registry.lookup_window(window).is_some()
    }

    /// A client message: a close request on the delete-window protocol, a
    /// drag-and-drop message on one of the drag atoms, or — on anything
    /// else — the poke of a proxy, answered by `Awakened` when a wakeup is
    /// queued.
    pub fn on_client_message<T>(
        &mut self,
        window: u64,
        message_type: u64,
        data0: i64,
        data1: i64,
        data2: i64,
        data3: i64,
        data4: i64,
        property_types: Vec<u64>,
    ) -> (r: (Vec<Event<T>>, Vec<XAction>))
        requires
            old(self).registry.wf(),
        ensures
            final(self).registry == old(self).registry,
            final(self).wm_delete_window == old(self).wm_delete_window,
            final(self).dnd_atoms == old(self).dnd_atoms,
            ({
                let out = r.0@;
                let actions = r.1@;
                let registered = old(self).registry.windows.view_map().contains_key(window);
                let atoms = old(self).dnd_atoms;
                if data0 as u64 == old(self).wm_delete_window {
                    &&& final(self).dnd == old(self).dnd
                    &&& actions.len() == 0
                    &&& out == if registered {
                        seq![window_event::<T>(window, WindowEvent::CloseRequested)]
                    } else {
                        Seq::<Event<T>>::empty()
                    }
                } else if message_type == atoms.enter {
                    &&& final(self).dnd.version == Some(data1 >> 24)
                    &&& (data1 & 1 == 1 ==> final(self).dnd.type_list == Some(property_types))
                    &&& (data1 & 1 != 1 ==> ({
                        &&& final(self).dnd.type_list matches Some(t)
                        &&& t@ =~= seq![data2 as u64, data3 as u64, data4 as u64]
                    }))
                    &&& final(self).dnd.source_window == old(self).dnd.source_window
                    &&& final(self).dnd.result == old(self).dnd.result
                    &&& out.len() == 0
                    &&& actions.len() == 0
                } else if message_type == atoms.position {
                    let accepted = match old(self).dnd.type_list {
                        Some(types) => types@.contains(atoms.uri_list),
                        None => false,
                    };
                    let version = match old(self).dnd.version {
                        Some(v) => v,
                        None => 5,
                    };
                    let source = data0 as u64;
                    &&& out.len() == 0
                    &&& if accepted {
                        &&& final(self).dnd.source_window == Some(source)
                        &&& final(self).dnd.version == old(self).dnd.version
                        &&& final(self).dnd.type_list == old(self).dnd.type_list
                        &&& final(self).dnd.result == old(self).dnd.result
                        &&& actions == if old(self).dnd.result is None {
                            seq![
                                XAction::Dnd(DndAction::ConvertSelection {
                                    window,
                                    time: if version >= 1 { data3 as u64 } else { 0u64 },
                                }),
                                XAction::Dnd(DndAction::SendStatus { target: window, source, accepted: true }),
                            ]
                        } else {
                            seq![
                                XAction::Dnd(DndAction::SendStatus { target: window, source, accepted: true }),
                            ]
                        }
                    } else {
                        &&& final(self).dnd.version is None
                        &&& final(self).dnd.type_list is None
                        &&& final(self).dnd.source_window is None
                        &&& final(self).dnd.result is None
                        &&& actions == seq![
                            XAction::Dnd(DndAction::SendStatus { target: window, source, accepted: false }),
                            XAction::Dnd(DndAction::SendFinished { target: window, source, accepted: false }),
                        ]
                    }
                } else if message_type == atoms.drop_message {
                    &&& final(self).dnd.version is None
                    &&& final(self).dnd.type_list is None
                    &&& final(self).dnd.source_window is None
                    &&& final(self).dnd.result is None
                    &&& match old(self).dnd.source_window {
                        Some(source) => {
                            &&& actions == seq![
                                XAction::Dnd(DndAction::SendFinished { target: window, source, accepted: true }),
                            ]
                            &&& match old(self).dnd.result {
                                Some(Ok(stored)) => if registered {
                                    &&& out.len() == stored@.len()
                                    &&& forall|i: int|
                                        0 <= i < out.len() ==> is_dropped_file(
                                            #[trigger] out[i],
                                            window,
                                            stored@[i]@,
                                        )
                                } else {
                                    out.len() == 0
                                },
                                _ => out.len() == 0,
                            }
                        },
                        None => out.len() == 0 && actions.len() == 0,
                    }
                } else if message_type == atoms.leave {
                    &&& final(self).dnd.version is None
                    &&& final(self).dnd.type_list is None
                    &&& final(self).dnd.source_window is None
                    &&& final(self).dnd.result is None
                    &&& actions.len() == 0
                    &&& out == if registered {
                        seq![window_event::<T>(window, WindowEvent::HoveredFileCancelled)]
                    } else {
                        Seq::<Event<T>>::empty()
                    }
                } else {
                    &&& final(self).dnd == old(self).dnd
                    &&& actions.len() == 0
                    &&& (out.len() == 0 || out =~= seq![Event::<T>::Awakened])
                }
            }),
            client_message_outcome(*old(self), *final(self), window, message_type, data0, data1, data2, data3, data4, property_types, r.0@, r.1@),
    {
        let mut out: Vec<Event<T>> = Vec::new();
        let mut actions: Vec<XAction> = Vec::new();
        let registered = self.window_registered(window);
        if data0 as u64 == self.wm_delete_window {
            if registered {
                out.push(Event::WindowEvent {
                    window_id: mkwid(window),
                    event: WindowEvent::CloseRequested,
                });
            }
        } else if message_type == self.dnd_atoms.enter {
            let mut inline_types: Vec<u64> = Vec::new();
            inline_types.push(data2 as u64);
            inline_types.push(data3 as u64);
            inline_types.push(data4 as u64);
            self.dnd.on_enter(data1, inline_types, property_types);
        } else if message_type == self.dnd_atoms.position {
            let uri_list_atom = self.dnd_atoms.uri_list;
            let dnd_actions = self.dnd.on_position(window, data0 as u64, data3 as u64, uri_list_atom);
            let n = dnd_actions.len();
            let mut k: usize = 0;
            while k < n
                invariant
                    n == dnd_actions@.len(),
                    0 <= k <= n,
                    actions@.len() == k,
                    forall|i: int| 0 <= i < k ==> #[trigger] actions@[i] == XAction::Dnd(dnd_actions@[i]),
                decreases n - k,
            {
                actions.push(XAction::Dnd(dnd_actions[k]));
                k = k + 1;
            }
            proof {
                if dnd_actions@.len() == 1 {
                    assert(actions@ =~= seq![XAction::Dnd(dnd_actions@[0])]);
                }
                if dnd_actions@.len() == 2 {
                    assert(actions@ =~= seq![
                        XAction::Dnd(dnd_actions@[0]),
                        XAction::Dnd(dnd_actions@[1]),
                    ]);
                }
            }
        } else if message_type == self.dnd_atoms.drop_message {
            let (paths, dnd_actions) = self.dnd.on_drop(window);
            if registered {
                let mut paths = paths;
                let n = paths.len();
                let ghost stored_paths = paths@;
                let mut k: usize = 0;
                while k < n
                    invariant
                        n == stored_paths.len(),
                        0 <= k <= n,
                        paths@ =~= stored_paths.skip(k as int),
                        out@.len() == k,
                        forall|i: int|
                            0 <= i < k ==> is_dropped_file(#[trigger] out@[i], window, stored_paths[i]@),
                    decreases n - k,
                {
                    let path = paths.remove(0);
                    proof {
                        assert(stored_paths.skip(k as int)[0] == stored_paths[k as int]);
                        assert(stored_paths.skip(k as int).drop_first() =~= stored_paths.skip(
                            k as int + 1,
                        ));
                    }
                    out.push(Event::WindowEvent {
                        window_id: mkwid(window),
                        event: WindowEvent::DroppedFile(path),
                    });
                    k = k + 1;
                }
            }
            let n2 = dnd_actions.len();
            let mut k2: usize = 0;
            while k2 < n2
                invariant
                    n2 == dnd_actions@.len(),
                    0 <= k2 <= n2,
                    actions@.len() == k2,
                    forall|i: int| 0 <= i < k2 ==> #[trigger] actions@[i] == XAction::Dnd(dnd_actions@[i]),
                decreases n2 - k2,
            {
                actions.push(XAction::Dnd(dnd_actions[k2]));
                k2 = k2 + 1;
            }
            proof {
                if dnd_actions@.len() == 1 {
                    assert(actions@ =~= seq![XAction::Dnd(dnd_actions@[0])]);
                }
            }
        } else if message_type == self.dnd_atoms.leave {
            self.dnd.reset();
            if registered {
                out.push(Event::WindowEvent {
                    window_id: mkwid(window),
                    event: WindowEvent::HoveredFileCancelled,
                });
            }
        } else {
            if channel_try_recv(&self.wakeup_receiver).is_some() {
                out.push(Event::Awakened);
            }
            proof {
                if out@.len() != 0 {
                    assert(out@ =~= seq![Event::<T>::Awakened]);
                }
            }
        }
        (out, actions)
    }
}


/// The delivery of finalized text: one `ReceivedCharacter` per committed
/// character, in order.
fn received_char_events<T>(window: u64, committed: &Vec<u32>) -> (out: Vec<Event<T>>)
    ensures
        out@.len() == committed@.len(),
        forall|i: int|
            0 <= i < committed@.len() ==> is_received_char(#[trigger] out@[i], window, committed@[i]),
{
    let mut out: Vec<Event<T>> = Vec::new();
    let n = committed.len();
    let mut k: usize = 0;
    while k < n
        invariant
            n == committed@.len(),
            0 <= k <= n,
            out@.len() == k,
            forall|i: int|
                0 <= i < k ==> is_received_char(#[trigger] out@[i], window, committed@[i]),
        decreases n - k,
    {
        out.push(Event::WindowEvent {
            window_id: mkwid(window),
            event: WindowEvent::ReceivedCharacter(committed[k]),
        });
        k = k + 1;
    }
    out
}

impl EventsLoop {
    /// A selection notification: on the drag-and-drop selection, the
    /// payload (read by the embedder, `None` when the read failed) is
    /// parsed and the hovered files announced.
    pub fn on_selection_notify<T>(&mut self, requestor: u64, property: u64, data: Option<&Vec<u8>>) -> (out: Vec<Event<T>>)
        requires
            old(self).registry.wf(),
        ensures
            final(self).registry == old(self).registry,
            final(self).wm_delete_window == old(self).wm_delete_window,
            final(self).dnd_atoms == old(self).dnd_atoms,
            final(self).dnd.version == old(self).dnd.version,
            final(self).dnd.type_list == old(self).dnd.type_list,
            final(self).dnd.source_window == old(self).dnd.source_window,
            ({
                let registered = old(self).registry.windows.view_map().contains_key(requestor);
                if property == old(self).dnd_atoms.selection {
                    match data {
                        None => final(self).dnd.result == old(self).dnd.result && out@.len() == 0,
                        Some(bytes) => match crate::dnd::parse_uri_list_spec(bytes@) {
                            Some(expected) => {
                                &&& final(self).dnd.result matches Some(Ok(stored))
                                &&& stored@.len() == expected.len()
                                &&& forall|i: int|
                                    0 <= i < expected.len() ==> #[trigger] stored@[i]@ == expected[i]
                                &&& if registered {
                                    &&& out@.len() == expected.len()
                                    &&& forall|i: int|
                                        0 <= i < out@.len() ==> is_hovered_file(
                                            #[trigger] out@[i],
                                            requestor,
                                            expected[i],
                                        )
                                } else {
                                    out@.len() == 0
                                }
                            },
                            None => final(self).dnd.result matches Some(Err(_)) && out@.len() == 0,
                        },
                    }
                } else {
                    final(self).dnd.result == old(self).dnd.result && out@.len() == 0
                }
            }),
            selection_notify_outcome(*old(self), *final(self), requestor, property, (match data { Some(bytes) => Some(bytes@), None => None::<Seq<u8>> }), out@, Seq::<XAction>::empty()),
    {
        let mut out: Vec<Event<T>> = Vec::new();
        if property == self.dnd_atoms.selection {
            let registered = self.window_registered(requestor);
            let ghost data_view = match data {
                Some(bytes) => Some(bytes@),
                None => None::<Seq<u8>>,
            };
            let mut paths = self.dnd.on_selection_notify(data);
            if registered {
                let n = paths.len();
                let ghost stored_paths = paths@;
                let mut k: usize = 0;
                while k < n
                    invariant
                        n == stored_paths.len(),
                        0 <= k <= n,
                        paths@ =~= stored_paths.skip(k as int),
                        out@.len() == k,
                        forall|i: int|
                            0 <= i < k ==> is_hovered_file(#[trigger] out@[i], requestor, stored_paths[i]@),
                    decreases n - k,
                {
                    let path = paths.remove(0);
                    proof {
                        assert(stored_paths.skip(k as int)[0] == stored_paths[k as int]);
                        assert(stored_paths.skip(k as int).drop_first() =~= stored_paths.skip(
                            k as int + 1,
                        ));
                    }
                    out.push(Event::WindowEvent {
                        window_id: mkwid(requestor),
                        event: WindowEvent::HoveredFile(path),
                    });
                    k = k + 1;
                }
            }
        }
        out
    }

    /// A configure notification: updates the window's recorded geometry and
    /// announces `Resized` and then `Moved` where they changed, deriving
    /// the outer position over the frame extents (the cached ones, or the
    /// ones the embedder queried for this event).
    pub fn on_configure_notify<T>(
        &mut self,
        window: u64,
        x: i32,
        y: i32,
        width: u16,
        height: u16,
        is_synthetic: bool,
        queried_extents: FrameExtents,
    ) -> (out: Vec<Event<T>>)
        requires
            old(self).registry.wf(),
        ensures
            final(self).registry.wf(),
            final(self).registry.devices == old(self).registry.devices,
            final(self).dnd == old(self).dnd,
            final(self).wm_delete_window == old(self).wm_delete_window,
            final(self).dnd_atoms == old(self).dnd_atoms,
            ({
                let windows = old(self).registry.windows.view_map();
                match lookup_opt(windows, window) {
                    None => out@.len() == 0 && final(self).registry.windows == old(self).registry.windows,
                    Some(d) => {
                        let (d2, resized, moved, used_extents) = configure_update(
                            d,
                            x,
                            y,
                            width,
                            height,
                            is_synthetic,
                            queried_extents,
                        );
                        &&& final(self).registry.windows.view_map() =~= windows.insert(window, d2)
                        &&& out@ == resized_moved_events::<T>(
                            window,
                            x,
                            y,
                            width,
                            height,
                            resized,
                            moved,
                            used_extents,
                        )
                    },
                }
            }),
            configure_notify_outcome(*old(self), *final(self), window, x, y, width, height, is_synthetic, queried_extents, out@, Seq::<XAction>::empty()),
    {
        let mut out: Vec<Event<T>> = Vec::new();
        let data = match self.registry.lookup_window(window) {
            Some(d) => d,
            None => {
                return out;
            },
        };
        let new_size = WindowSize { width: width as i32, height: height as i32 };
        let new_pos = WindowPos { x, y };
        let resized = data.config.size != Some(new_size);
        let moved = is_synthetic && data.config.position != Some(new_pos);
        let mut config = data.config;
        config.size = Some(new_size);
        if is_synthetic {
            config.position = Some(new_pos);
        }
        let mut extents = data.frame_extents;
        if !is_synthetic && data.config.inner_position != Some(new_pos) {
            config.inner_position = Some(new_pos);
            config.position = None;
            extents = None;
        }
        let used_extents = match extents {
            Some(e) => e,
            None => queried_extents,
        };
        let updated = WindowData {
            config,
            multitouch: data.multitouch,
            cursor_pos: data.cursor_pos,
            frame_extents: if moved {
                Some(used_extents)
            } else {
                extents
            },
        };
        self.registry.insert_window(window, updated);
        if resized {
            out.push(Event::WindowEvent {
                window_id: mkwid(window),
                event: WindowEvent::Resized(width as u32, height as u32),
            });
        }
        if moved {
            let outer = used_extents.inner_pos_to_outer(x, y);
            out.push(Event::WindowEvent {
                window_id: mkwid(window),
                event: WindowEvent::Moved(outer),
            });
        }
        proof {
            assert(out@ =~= resized_moved_events::<T>(
                window,
                x,
                y,
                width,
                height,
                resized,
                moved,
                used_extents,
            ));
        }
        out
    }

    /// A destroy notification: the window leaves the registry — announcing
    /// `Destroyed` exactly when it was still registered — and its input
    /// context is torn down.
    pub fn on_destroy_notify<T>(&mut self, window: u64) -> (r: (Vec<Event<T>>, Vec<XAction>))
        requires
            old(self).registry.wf(),
        ensures
            final(self).registry.wf(),
            final(self).registry.windows.view_map() =~= old(self).registry.windows.view_map()
                .remove(window),
            final(self).registry.devices == old(self).registry.devices,
            final(self).dnd == old(self).dnd,
            final(self).wm_delete_window == old(self).wm_delete_window,
            final(self).dnd_atoms == old(self).dnd_atoms,
            r.0@ == if old(self).registry.windows.view_map().contains_key(window) {
                seq![window_event::<T>(window, WindowEvent::Destroyed)]
            } else {
                Seq::<Event<T>>::empty()
            },
            r.1@ == seq![XAction::RemoveImeContext { window }],
            destroy_notify_outcome(*old(self), *final(self), window, r.0@, r.1@),
    {
        let mut out: Vec<Event<T>> = Vec::new();
        let mut actions: Vec<XAction> = Vec::new();
        let was = self.registry.remove_window(window);
        if was {
            out.push(Event::WindowEvent {
                window_id: mkwid(window),
                event: WindowEvent::Destroyed,
            });
        }
        actions.push(XAction::RemoveImeContext { window });
        proof {
            assert(actions@ =~= seq![XAction::RemoveImeContext { window }]);
            if was {
                assert(out@ =~= seq![window_event::<T>(window, WindowEvent::Destroyed)]);
            }
        }
        (out, actions)
    }

    /// An expose notification: the window must repaint.
    pub fn on_expose<T>(&mut self, window: u64) -> (out: Vec<Event<T>>)
        requires
            old(self).registry.wf(),
        ensures
            *final(self) == *old(self),
            out@ == if old(self).registry.windows.view_map().contains_key(window) {
                seq![window_event::<T>(window, WindowEvent::Refresh)]
            } else {
                Seq::<Event<T>>::empty()
            },
            expose_outcome(*old(self), *final(self), window, out@, Seq::<XAction>::empty()),
    {
        let mut out: Vec<Event<T>> = Vec::new();
        if self.window_registered(window) {
            out.push(Event::WindowEvent { window_id: mkwid(window), event: WindowEvent::Refresh });
            proof {
                assert(out@ =~= seq![window_event::<T>(window, WindowEvent::Refresh)]);
            }
        }
        out
    }

    /// A core key event. The key itself is announced with the scancode
    /// normalized (keycode less 8) and the modifiers read from the event's
    /// own state mask; a press that committed text through the input method
    /// is followed by one `ReceivedCharacter` per character. A press that
    /// closes a compose sequence comes with keycode 0 and announces no key.
    pub fn on_key_input<T>(
        &mut self,
        window: u64,
        pressed: bool,
        keycode: u32,
        state_mask: u32,
        virtual_keycode: Option<VirtualKeyCode>,
        committed: Vec<u32>,
    ) -> (out: Vec<Event<T>>)
        requires
            old(self).registry.wf(),
        ensures
            *final(self) == *old(self),
            ({
                let registered = old(self).registry.windows.view_map().contains_key(window);
                let announces_key = keycode >= 8;
                let base: int = if announces_key { 1int } else { 0int };
                let chars: int = if pressed { committed@.len() as int } else { 0int };
                if registered {
                    &&& out@.len() == base + chars
                    &&& (announces_key ==> out@[0] == window_event::<T>(
                        window,
                        WindowEvent::KeyboardInput {
                            device_id: DeviceId(3),
                            input: crate::event::KeyboardInput {
                                scancode: (keycode - 8) as u32,
                                state: if pressed {
                                    ElementState::Pressed
                                } else {
                                    ElementState::Released
                                },
                                virtual_keycode,
                                modifiers: mods_of_mask(state_mask),
                            },
                        },
                    ))
                    &&& forall|j: int|
                        base <= j < out@.len() ==> is_received_char(
                            #[trigger] out@[j],
                            window,
                            committed@[j - base],
                        )
                } else {
                    out@.len() == 0
                }
            }),
            key_input_outcome(*old(self), *final(self), window, pressed, keycode, state_mask, virtual_keycode, committed@, out@, Seq::<XAction>::empty()),
    {
        let mut out: Vec<Event<T>> = Vec::new();
        if !self.window_registered(window) {
            return out;
        }
        if keycode >= 8 {
            let modifiers = mods_from_mask(state_mask);
            out.push(Event::WindowEvent {
                window_id: mkwid(window),
                event: WindowEvent::KeyboardInput {
                    device_id: mkdid(3),
                    input: crate::event::KeyboardInput {
                        scancode: keycode - 8,
                        state: if pressed {
                            ElementState::Pressed
                        } else {
                            ElementState::Released
                        },
                        virtual_keycode,
                        modifiers,
                    },
                },
            });
        }
        if pressed {
            let ghost head = out@;
            let mut chars: Vec<Event<T>> = received_char_events(window, &committed);
            let ghost chars_view = chars@;
            out.append(&mut chars);
            proof {
                assert(out@ == head + chars_view);
            }
        }
        out
    }
}

/// The resize and move announcements of one configure notification: the
/// new inner size where it changed, then the outer position — the inner
/// one shifted by the frame extents — where the window moved.
pub open spec fn resized_moved_events<T>(
    window: u64,
    x: i32,
    y: i32,
    width: u16,
    height: u16,
    resized: bool,
    moved: bool,
    used_extents: FrameExtents,
) -> Seq<Event<T>> {
    let resize_part: Seq<Event<T>> = if resized {
        seq![window_event(window, WindowEvent::Resized(width as u32, height as u32))]
    } else {
        Seq::empty()
    };
    let move_part: Seq<Event<T>> = if moved {
        seq![
            window_event(
                window,
                WindowEvent::Moved(
                    Position { x: (x - used_extents.left) as i64, y: (y - used_extents.top) as i64 },
                ),
            ),
        ]
    } else {
        Seq::empty()
    };
    resize_part + move_part
}

/// The value under a key, if the key is bound.
pub open spec fn lookup_opt<V>(m: Map<u64, V>, key: u64) -> Option<V> {
    if m.contains_key(key) {
        Some(m[key])
    } else {
        None
    }
}




/// The first device description for a device number, if the list has one.
pub open spec fn info_for(infos: Seq<DeviceInfoData>, id: i32) -> Option<DeviceInfoData>
    decreases infos.len(),
{
    if infos.len() == 0 {
        None
    } else if infos[0].deviceid == id {
        Some(infos[0])
    } else {
        info_for(infos.drop_first(), id)
    }
}

/// The value a valuator list reports for one axis, if it is set.
pub open spec fn val_of_axis(vals: Seq<Valuator>, axis: i32) -> Option<i32>
    decreases vals.len(),
{
    if vals.len() == 0 {
        None
    } else if vals[0].axis == axis {
        Some(vals[0].value)
    } else {
        val_of_axis(vals.drop_first(), axis)
    }
}

impl EventsLoop {
    /// A pointer button event. Emulated presses are dropped when the window
    /// asked for multitouch (the touch events stand in for them); buttons 4
    /// to 7 are scroll-wheel clicks, reported as whole-line wheel deltas
    /// unless emulated from axis motion; anything else is a mouse button.
    pub fn on_xi_button<T>(
        &mut self,
        window: u64,
        device: i32,
        pressed: bool,
        detail: u32,
        emulated: bool,
        mods_mask: u32,
    ) -> (out: Vec<Event<T>>)
        requires
            old(self).registry.wf(),
        ensures
            *final(self) == *old(self),
            ({
                let state = if pressed {
                    ElementState::Pressed
                } else {
                    ElementState::Released
                };
                let mods = mods_of_mask(mods_mask);
                let did = DeviceId(device);
                match lookup_opt(old(self).registry.windows.view_map(), window) {
                    None => out@.len() == 0,
                    Some(d) => if emulated && d.multitouch {
                        out@.len() == 0
                    } else if detail == 1 || detail == 2 || detail == 3 {
                        out@ =~= seq![
                            window_event::<T>(
                                window,
                                WindowEvent::MouseInput {
                                    device_id: did,
                                    state,
                                    button: if detail == 1 {
                                        MouseButton::Left
                                    } else if detail == 2 {
                                        MouseButton::Middle
                                    } else {
                                        MouseButton::Right
                                    },
                                    modifiers: mods,
                                },
                            ),
                        ]
                    } else if 4 <= detail <= 7 {
                        out@ =~= if emulated {
                            Seq::<Event<T>>::empty()
                        } else {
                            seq![
                                window_event::<T>(
                                    window,
                                    WindowEvent::MouseWheel {
                                        device_id: did,
                                        delta: LineDelta {
                                            x_num: if detail == 6 { -1i64 } else if detail == 7 { 1i64 } else { 0i64 },
                                            y_num: if detail == 4 { 1i64 } else if detail == 5 { -1i64 } else { 0i64 },
                                            den: 1i64,
                                        },
                                        phase: TouchPhase::Moved,
                                        modifiers: mods,
                                    },
                                ),
                            ]
                        }
                    } else {
                        out@ =~= seq![
                            window_event::<T>(
                                window,
                                WindowEvent::MouseInput {
                                    device_id: did,
                                    state,
                                    button: MouseButton::Other((detail & 0xff) as u8),
                                    modifiers: mods,
                                },
                            ),
                        ]
                    },
                }
            }),
            xi_button_outcome(*old(self), *final(self), window, device, pressed, detail, emulated, mods_mask, out@, Seq::<XAction>::empty()),
    {
        let mut out: Vec<Event<T>> = Vec::new();
        let data = match self.registry.lookup_window(window) {
            Some(d) => d,
            None => {
                return out;
            },
        };
        if emulated && data.multitouch {
            return out;
        }
        let state = if pressed {
            ElementState::Pressed
        } else {
            ElementState::Released
        };
        let modifiers = mods_from_mask(mods_mask);
        let device_id = mkdid(device);
        if detail == 1 || detail == 2 || detail == 3 {
            let button = if detail == 1 {
                MouseButton::Left
            } else if detail == 2 {
                MouseButton::Middle
            } else {
                MouseButton::Right
            };
            out.push(Event::WindowEvent {
                window_id: mkwid(window),
                event: WindowEvent::MouseInput { device_id, state, button, modifiers },
            });
        } else if 4 <= detail && detail <= 7 {
            if !emulated {
                let delta = LineDelta {
                    x_num: if detail == 6 {
                        -1
                    } else if detail == 7 {
                        1
                    } else {
                        0
                    },
                    y_num: if detail == 4 {
                        1
                    } else if detail == 5 {
                        -1
                    } else {
                        0
                    },
                    den: 1,
                };
                out.push(Event::WindowEvent {
                    window_id: mkwid(window),
                    event: WindowEvent::MouseWheel {
                        device_id,
                        delta,
                        phase: TouchPhase::Moved,
                        modifiers,
                    },
                });
            }
        } else {
            out.push(Event::WindowEvent {
                window_id: mkwid(window),
                event: WindowEvent::MouseInput {
                    device_id,
                    state,
                    button: MouseButton::Other((detail & 0xff) as u8),
                    modifiers,
                },
            });
        }
        out
    }

    /// A touch event for a window.
    pub fn on_xi_touch<T>(&mut self, window: u64, device: i32, phase: TouchPhase, x: i64, y: i64, id: u64) -> (out: Vec<Event<T>>)
        requires
            old(self).registry.wf(),
        ensures
            *final(self) == *old(self),
            out@ == if old(self).registry.windows.view_map().contains_key(window) {
                seq![
                    window_event::<T>(
                        window,
                        WindowEvent::Touch(
                            Touch {
                                device_id: DeviceId(device),
                                phase,
                                location: Position { x, y },
                                id,
                            },
                        ),
                    ),
                ]
            } else {
                Seq::<Event<T>>::empty()
            },
            xi_touch_outcome(*old(self), *final(self), window, device, phase, x, y, id, out@, Seq::<XAction>::empty()),
    {
        let mut out: Vec<Event<T>> = Vec::new();
        if self.window_registered(window) {
            out.push(Event::WindowEvent {
                window_id: mkwid(window),
                event: WindowEvent::Touch(Touch {
                    device_id: mkdid(device),
                    phase,
                    location: Position { x, y },
                    id,
                }),
            });
            proof {
                assert(out@ =~= seq![
                    window_event::<T>(
                        window,
                        WindowEvent::Touch(
                            Touch {
                                device_id: DeviceId(device),
                                phase,
                                location: Position { x, y },
                                id,
                            },
                        ),
                    ),
                ]);
            }
        }
        out
    }

    /// The pointer left a window. A window that is already gone is let be.
    pub fn on_xi_leave<T>(&mut self, window: u64, device: i32) -> (out: Vec<Event<T>>)
        requires
            old(self).registry.wf(),
        ensures
            *final(self) == *old(self),
            out@ == if old(self).registry.windows.view_map().contains_key(window) {
                seq![window_event::<T>(window, WindowEvent::CursorLeft { device_id: DeviceId(device) })]
            } else {
                Seq::<Event<T>>::empty()
            },
            xi_leave_outcome(*old(self), *final(self), window, device, out@, Seq::<XAction>::empty()),
    {
        let mut out: Vec<Event<T>> = Vec::new();
        if self.window_registered(window) {
            out.push(Event::WindowEvent {
                window_id: mkwid(window),
                event: WindowEvent::CursorLeft { device_id: mkdid(device) },
            });
            proof {
                assert(out@ =~= seq![
                    window_event::<T>(window, WindowEvent::CursorLeft { device_id: DeviceId(device) }),
                ]);
            }
        }
        out
    }

    /// A window gained the keyboard focus: its input context is focused,
    /// `Focused(true)` is announced, and the pointer position is refreshed
    /// under the pointer paired with the focused keyboard.
    pub fn on_xi_focus_in<T>(&mut self, window: u64, device: i32, x: i64, y: i64, mods_mask: u32) -> (r: (Vec<Event<T>>, Vec<XAction>))
        requires
            old(self).registry.wf(),
        ensures
            *final(self) == *old(self),
            ({
                let registered = old(self).registry.windows.view_map().contains_key(window);
                let pointer = match lookup_opt(old(self).registry.devices.view_map(), device_key(device)) {
                    Some(d) => d.attachment,
                    None => 2,
                };
                if registered {
                    &&& r.0@ =~= seq![
                        window_event::<T>(window, WindowEvent::Focused(true)),
                        window_event::<T>(
                            window,
                            WindowEvent::CursorMoved {
                                device_id: DeviceId(pointer),
                                position: Position { x, y },
                                modifiers: mods_of_mask(mods_mask),
                            },
                        ),
                    ]
                    &&& r.1@ =~= seq![XAction::FocusImeContext { window, focused: true }]
                } else {
                    r.0@.len() == 0 && r.1@.len() == 0
                }
            }),
            xi_focus_in_outcome(*old(self), *final(self), window, device, x, y, mods_mask, r.0@, r.1@),
    {
        let mut out: Vec<Event<T>> = Vec::new();
        let mut actions: Vec<XAction> = Vec::new();
        if !self.window_registered(window) {
            return (out, actions);
        }
        actions.push(XAction::FocusImeContext { window, focused: true });
        out.push(Event::WindowEvent {
            window_id: mkwid(window),
            event: WindowEvent::Focused(true),
        });
        let pointer = match self.registry.devices.borrow_entry(device_key_exec(device)) {
            Some(d) => d.attachment,
            None => 2,
        };
        out.push(Event::WindowEvent {
            window_id: mkwid(window),
            event: WindowEvent::CursorMoved {
                device_id: mkdid(pointer),
                position: Position { x, y },
                modifiers: mods_from_mask(mods_mask),
            },
        });
        (out, actions)
    }

    /// A window lost the keyboard focus.
    pub fn on_xi_focus_out<T>(&mut self, window: u64) -> (r: (Vec<Event<T>>, Vec<XAction>))
        requires
            old(self).registry.wf(),
        ensures
            *final(self) == *old(self),
            ({
                let registered = old(self).registry.windows.view_map().contains_key(window);
                if registered {
                    &&& r.0@ =~= seq![window_event::<T>(window, WindowEvent::Focused(false))]
                    &&& r.1@ =~= seq![XAction::FocusImeContext { window, focused: false }]
                } else {
                    r.0@.len() == 0 && r.1@.len() == 0
                }
            }),
            xi_focus_out_outcome(*old(self), *final(self), window, r.0@, r.1@),
    {
        let mut out: Vec<Event<T>> = Vec::new();
        let mut actions: Vec<XAction> = Vec::new();
        if self.window_registered(window) {
            actions.push(XAction::FocusImeContext { window, focused: false });
            out.push(Event::WindowEvent {
                window_id: mkwid(window),
                event: WindowEvent::Focused(false),
            });
        }
        (out, actions)
    }

    /// A raw button event from a physical device; emulated ones (scroll
    /// wheels) are left to the axis-motion path.
    pub fn on_xi_raw_button<T>(&mut self, device: i32, detail: u32, pressed: bool, emulated: bool) -> (out: Vec<Event<T>>)
        requires
            old(self).registry.wf(),
        ensures
            *final(self) == *old(self),
            out@ == if emulated {
                Seq::<Event<T>>::empty()
            } else {
                seq![
                    Event::<T>::DeviceEvent {
                        device_id: DeviceId(device),
                        event: DeviceEvent::Button {
                            button: detail,
                            state: if pressed {
                                ElementState::Pressed
                            } else {
                                ElementState::Released
                            },
                        },
                    },
                ]
            },
            xi_raw_button_outcome(*old(self), *final(self), device, detail, pressed, emulated, out@, Seq::<XAction>::empty()),
    {
        let mut out: Vec<Event<T>> = Vec::new();
        if !emulated {
            out.push(Event::DeviceEvent {
                device_id: mkdid(device),
                event: DeviceEvent::Button {
                    button: detail,
                    state: if pressed {
                        ElementState::Pressed
                    } else {
                        ElementState::Released
                    },
                },
            });
            proof {
                assert(out@ =~= seq![
                    Event::<T>::DeviceEvent {
                        device_id: DeviceId(device),
                        event: DeviceEvent::Button {
                            button: detail,
                            state: if pressed {
                                ElementState::Pressed
                            } else {
                                ElementState::Released
                            },
                        },
                    },
                ]);
            }
        }
        out
    }

    /// A raw key event from a physical device. Keycodes below the X minimum
    /// announce nothing; the scancode is the keycode normalized by 8.
    pub fn on_xi_raw_key<T>(
        &mut self,
        device: i32,
        pressed: bool,
        keycode: i32,
        virtual_keycode: Option<VirtualKeyCode>,
        mods: ModifiersState,
    ) -> (out: Vec<Event<T>>)
        requires
            old(self).registry.wf(),
        ensures
            *final(self) == *old(self),
            out@ == if keycode >= 8 {
                seq![
                    Event::<T>::DeviceEvent {
                        device_id: DeviceId(device),
                        event: DeviceEvent::Key(
                            crate::event::KeyboardInput {
                                scancode: (keycode - 8) as u32,
                                state: if pressed {
                                    ElementState::Pressed
                                } else {
                                    ElementState::Released
                                },
                                virtual_keycode,
                                modifiers: mods,
                            },
                        ),
                    },
                ]
            } else {
                Seq::<Event<T>>::empty()
            },
            xi_raw_key_outcome(*old(self), *final(self), device, pressed, keycode, virtual_keycode, mods, out@, Seq::<XAction>::empty()),
    {
        let mut out: Vec<Event<T>> = Vec::new();
        if keycode >= 8 {
            out.push(Event::DeviceEvent {
                device_id: mkdid(device),
                event: DeviceEvent::Key(crate::event::KeyboardInput {
                    scancode: (keycode - 8) as u32,
                    state: if pressed {
                        ElementState::Pressed
                    } else {
                        ElementState::Released
                    },
                    virtual_keycode,
                    modifiers: mods,
                }),
            });
            proof {
                assert(out@ =~= seq![
                    Event::<T>::DeviceEvent {
                        device_id: DeviceId(device),
                        event: DeviceEvent::Key(
                            crate::event::KeyboardInput {
                                scancode: (keycode - 8) as u32,
                                state: if pressed {
                                    ElementState::Pressed
                                } else {
                                    ElementState::Released
                                },
                                virtual_keycode,
                                modifiers: mods,
                            },
                        ),
                    },
                ]);
            }
        }
        out
    }
}


/// What a run of valuator reports does to a device's scroll axes, and the
/// events it produces: a report on a scroll axis moves the accumulator and
/// yields the exact wheel delta; any other report yields the raw axis
/// motion.
pub open spec fn valuator_outputs<T>(
    window: u64,
    device: i32,
    mods: ModifiersState,
    axes: Seq<(i32, crate::device::ScrollAxis)>,
    vals: Seq<Valuator>,
) -> (Seq<Event<T>>, Seq<(i32, crate::device::ScrollAxis)>)
    decreases vals.len(),
{
    if vals.len() == 0 {
        (Seq::empty(), axes)
    } else {
        let v = vals[0];
        let step: (Seq<Event<T>>, Seq<(i32, crate::device::ScrollAxis)>) = match axis_index(axes, v.axis) {
            Some(i) => (
                seq![
                    window_event(
                        window,
                        WindowEvent::MouseWheel {
                            device_id: DeviceId(device),
                            delta: scroll_line_delta(axes[i].1, v.value),
                            phase: TouchPhase::Moved,
                            modifiers: mods,
                        },
                    ),
                ],
                axes.update(
                    i,
                    (axes[i].0, crate::device::ScrollAxis { position: v.value, ..axes[i].1 }),
                ),
            ),
            None => (
                seq![
                    window_event(
                        window,
                        WindowEvent::AxisMotion {
                            device_id: DeviceId(device),
                            axis: v.axis as u32,
                            value: v.value as i64,
                        },
                    ),
                ],
                axes,
            ),
        };
        let rest = valuator_outputs(window, device, mods, step.1, vals.drop_first());
        (step.0 + rest.0, rest.1)
    }
}

proof fn lemma_valuator_outputs_snoc<T>(
    window: u64,
    device: i32,
    mods: ModifiersState,
    axes: Seq<(i32, crate::device::ScrollAxis)>,
    vals: Seq<Valuator>,
    v: Valuator,
)
    ensures
        ({
            let whole = valuator_outputs::<T>(window, device, mods, axes, vals.push(v));
            let prefix = valuator_outputs::<T>(window, device, mods, axes, vals);
            match axis_index(prefix.1, v.axis) {
                Some(i) => {
                    &&& whole.0 == prefix.0 + seq![
                        window_event::<T>(
                            window,
                            WindowEvent::MouseWheel {
                                device_id: DeviceId(device),
                                delta: scroll_line_delta(prefix.1[i].1, v.value),
                                phase: TouchPhase::Moved,
                                modifiers: mods,
                            },
                        ),
                    ]
                    &&& whole.1 == prefix.1.update(
                        i,
                        (prefix.1[i].0, crate::device::ScrollAxis { position: v.value, ..prefix.1[i].1 }),
                    )
                },
                None => {
                    &&& whole.0 == prefix.0 + seq![
                        window_event::<T>(
                            window,
                            WindowEvent::AxisMotion {
                                device_id: DeviceId(device),
                                axis: v.axis as u32,
                                value: v.value as i64,
                            },
                        ),
                    ]
                    &&& whole.1 == prefix.1
                },
            }
        }),
    decreases vals.len(),
{
    crate::device::lemma_axis_index_bounds(
        valuator_outputs::<T>(window, device, mods, axes, vals).1,
        v.axis,
    );
    crate::device::lemma_axis_index_bounds(axes, v.axis);
    if vals.len() == 0 {
        assert(vals.push(v).drop_first() =~= Seq::<Valuator>::empty());
        assert(vals.push(v)[0] == v);
        assert(valuator_outputs::<T>(window, device, mods, axes, vals) == (
            Seq::<Event<T>>::empty(),
            axes,
        ));
        assert(valuator_outputs::<T>(window, device, mods, axes, vals).0 =~= Seq::<Event<T>>::empty());
        let whole = valuator_outputs::<T>(window, device, mods, axes, vals.push(v));
        match axis_index(axes, v.axis) {
            Some(i) => {
                let axes2 = axes.update(
                    i,
                    (axes[i].0, crate::device::ScrollAxis { position: v.value, ..axes[i].1 }),
                );
                assert(valuator_outputs::<T>(window, device, mods, axes2, vals.push(v).drop_first())
                    == (Seq::<Event<T>>::empty(), axes2));
                assert(whole.0 =~= seq![
                    window_event::<T>(
                        window,
                        WindowEvent::MouseWheel {
                            device_id: DeviceId(device),
                            delta: scroll_line_delta(axes[i].1, v.value),
                            phase: TouchPhase::Moved,
                            modifiers: mods,
                        },
                    ),
                ]);
            },
            None => {
                assert(valuator_outputs::<T>(window, device, mods, axes, vals.push(v).drop_first())
                    == (Seq::<Event<T>>::empty(), axes));
                assert(whole.0 =~= seq![
                    window_event::<T>(
                        window,
                        WindowEvent::AxisMotion {
                            device_id: DeviceId(device),
                            axis: v.axis as u32,
                            value: v.value as i64,
                        },
                    ),
                ]);
            },
        }
    } else {
        let h = vals[0];
        assert(vals.push(v)[0] == h);
        assert(vals.push(v).drop_first() =~= vals.drop_first().push(v));
        let axes1 = match axis_index(axes, h.axis) {
            Some(i) => axes.update(
                i,
                (axes[i].0, crate::device::ScrollAxis { position: h.value, ..axes[i].1 }),
            ),
            None => axes,
        };
        lemma_valuator_outputs_snoc::<T>(window, device, mods, axes1, vals.drop_first(), v);
    }
}

/// Applies a run of valuator reports to a device, producing the wheel and
/// axis events they stand for.
fn device_valuator_events<T>(
    device: &mut Device,
    window: u64,
    device_number: i32,
    mods: ModifiersState,
    valuators: &Vec<Valuator>,
) -> (out: Vec<Event<T>>)
    ensures
        final(device).name == old(device).name,
        final(device).attachment == old(device).attachment,
        ({
            let folded = valuator_outputs::<T>(
                window,
                device_number,
                mods,
                old(device).scroll_axes@,
                valuators@,
            );
            out@ == folded.0 && final(device).scroll_axes@ == folded.1
        }),
{
    let mut out: Vec<Event<T>> = Vec::new();
    let n = valuators.len();
    let mut k: usize = 0;
    while k < n
        invariant
            n == valuators@.len(),
            0 <= k <= n,
            device.name == old(device).name,
            device.attachment == old(device).attachment,
            ({
                let folded = valuator_outputs::<T>(
                    window,
                    device_number,
                    mods,
                    old(device).scroll_axes@,
                    valuators@.take(k as int),
                );
                out@ == folded.0 && device.scroll_axes@ == folded.1
            }),
        decreases n - k,
    {
        let ghost folded_before = valuator_outputs::<T>(
            window,
            device_number,
            mods,
            old(device).scroll_axes@,
            valuators@.take(k as int),
        );
        let v = valuators[k];
        let wheel = device.scroll_delta(v.axis, v.value);
        match wheel {
            Some(delta) => {
                out.push(Event::WindowEvent {
                    window_id: mkwid(window),
                    event: WindowEvent::MouseWheel {
                        device_id: mkdid(device_number),
                        delta,
                        phase: TouchPhase::Moved,
                        modifiers: mods,
                    },
                });
            },
            None => {
                out.push(Event::WindowEvent {
                    window_id: mkwid(window),
                    event: WindowEvent::AxisMotion {
                        device_id: mkdid(device_number),
                        axis: v.axis as u32,
                        value: v.value as i64,
                    },
                });
            },
        }
        k = k + 1;
        proof {
            assert(valuators@.take(k as int) =~= valuators@.take(k - 1).push(valuators@[k - 1]));
            lemma_valuator_outputs_snoc::<T>(
                window,
                device_number,
                mods,
                old(device).scroll_axes@,
                valuators@.take(k - 1),
                valuators@[k - 1],
            );
            let folded = valuator_outputs::<T>(
                window,
                device_number,
                mods,
                old(device).scroll_axes@,
                valuators@.take(k as int),
            );
            assert(out@ =~= folded.0);
        }
    }
    proof {
        assert(valuators@.take(n as int) =~= valuators@);
    }
    out
}

impl EventsLoop {
    /// A pointer motion event for a window: the cursor position is
    /// coalesced — an unchanged position announces no `CursorMoved`, but
    /// never suppresses the axis events — and each valuator report becomes
    /// a wheel delta (on a scroll axis of the source device) or a raw axis
    /// motion.
    pub fn on_xi_motion<T>(
        &mut self,
        window: u64,
        device: i32,
        source: i32,
        x: i64,
        y: i64,
        mods_mask: u32,
        valuators: &Vec<Valuator>,
    ) -> (out: Vec<Event<T>>)
        requires
            old(self).registry.wf(),
        ensures
            final(self).registry.wf(),
            final(self).dnd == old(self).dnd,
            final(self).wm_delete_window == old(self).wm_delete_window,
            final(self).dnd_atoms == old(self).dnd_atoms,
            ({
                let mods = mods_of_mask(mods_mask);
                let windows = old(self).registry.windows.view_map();
                let devices = old(self).registry.devices.view_map();
                match lookup_opt(windows, window) {
                    None => out@.len() == 0 && final(self).registry.windows == old(self).registry.windows
                        && final(self).registry.devices == old(self).registry.devices,
                    Some(d) => {
                        let position_changed = d.cursor_pos != Some(Position { x, y });
                        let cursor_part: Seq<Event<T>> = if position_changed {
                            seq![
                                window_event::<T>(
                                    window,
                                    WindowEvent::CursorMoved {
                                        device_id: DeviceId(device),
                                        position: Position { x, y },
                                        modifiers: mods,
                                    },
                                ),
                            ]
                        } else {
                            Seq::empty()
                        };
                        &&& final(self).registry.windows.view_map() =~= windows.insert(
                            window,
                            WindowData { cursor_pos: Some(Position { x, y }), ..d },
                        )
                        &&& match lookup_opt(devices, device_key(source)) {
                            Some(dev) => {
                                let folded = valuator_outputs::<T>(
                                    window,
                                    device,
                                    mods,
                                    dev.scroll_axes@,
                                    valuators@,
                                );
                                &&& out@ == cursor_part + folded.0
                                &&& final(self).registry.devices.view_map().contains_key(device_key(source))
                                &&& final(self).registry.devices.view_map()[device_key(source)].scroll_axes@
                                    == folded.1
                                &&& final(self).registry.devices.view_map()[device_key(source)].attachment
                                    == dev.attachment
                                &&& forall|k: u64|
                                    k != device_key(source)
                                        ==> #[trigger] lookup_opt(final(self).registry.devices.view_map(), k)
                                        == lookup_opt(devices, k)
                            },
                            None => out@ == cursor_part && final(self).registry.devices.view_map()
                                =~= old(self).registry.devices.view_map(),
                        }
                    },
                }
            }),
            xi_motion_outcome(*old(self), *final(self), window, device, source, x, y, mods_mask, valuators@, out@, Seq::<XAction>::empty()),
    {
        let mut out: Vec<Event<T>> = Vec::new();
        let data = match self.registry.lookup_window(window) {
            Some(d) => d,
            None => {
                return out;
            },
        };
        let mods = mods_from_mask(mods_mask);
        let new_pos = Position { x, y };
        if data.cursor_pos != Some(new_pos) {
            out.push(Event::WindowEvent {
                window_id: mkwid(window),
                event: WindowEvent::CursorMoved {
                    device_id: mkdid(device),
                    position: new_pos,
                    modifiers: mods,
                },
            });
        }
        self.registry.insert_window(window, WindowData { cursor_pos: Some(new_pos), ..data });
        let source_key = device_key_exec(source);
        match self.registry.devices.take(source_key) {
            Some(mut dev) => {
                let mut valuator_events: Vec<Event<T>> = device_valuator_events(
                    &mut dev,
                    window,
                    device,
                    mods,
                    valuators,
                );
                self.registry.devices.insert(source_key, dev);
                out.append(&mut valuator_events);
            },
            None => {},
        }
        out
    }

    /// The pointer entered a window: the source device's scroll
    /// accumulators are re-read from its description, and — for a live
    /// window — the entry and the fresh pointer position are announced,
    /// under the modifier state the embedder read from the keyboard map.
    pub fn on_xi_enter<T>(
        &mut self,
        window: u64,
        device: i32,
        source: i32,
        x: i64,
        y: i64,
        mods: ModifiersState,
        infos: &Vec<DeviceInfoData>,
    ) -> (out: Vec<Event<T>>)
        requires
            old(self).registry.wf(),
        ensures
            final(self).registry.wf(),
            final(self).registry.windows == old(self).registry.windows,
            final(self).dnd == old(self).dnd,
            final(self).wm_delete_window == old(self).wm_delete_window,
            final(self).dnd_atoms == old(self).dnd_atoms,
            ({
                let devices = old(self).registry.devices.view_map();
                match lookup_opt(devices, device_key(source)) {
                    Some(dev) => {
                        &&& final(self).registry.devices.view_map().contains_key(device_key(source))
                        &&& final(self).registry.devices.view_map()[device_key(source)].attachment
                            == dev.attachment
                        &&& final(self).registry.devices.view_map()[device_key(source)].scroll_axes@
                            == match info_for(infos@, source) {
                            Some(info) => if is_physical(info.device_use) {
                                reset_axes(dev.scroll_axes@, info.classes@)
                            } else {
                                dev.scroll_axes@
                            },
                            None => dev.scroll_axes@,
                        }
                        &&& forall|k: u64|
                            k != device_key(source)
                                ==> #[trigger] lookup_opt(final(self).registry.devices.view_map(), k)
                                == lookup_opt(devices, k)
                    },
                    None => final(self).registry.devices.view_map() =~= old(self).registry.devices.view_map(),
                }
            }),
            out@ == if old(self).registry.windows.view_map().contains_key(window) {
                seq![
                    window_event::<T>(window, WindowEvent::CursorEntered { device_id: DeviceId(device) }),
                    window_event::<T>(
                        window,
                        WindowEvent::CursorMoved {
                            device_id: DeviceId(device),
                            position: Position { x, y },
                            modifiers: mods,
                        },
                    ),
                ]
            } else {
                Seq::<Event<T>>::empty()
            },
            xi_enter_outcome(*old(self), *final(self), window, device, source, x, y, mods, infos@, out@, Seq::<XAction>::empty()),
    {
        let source_key = device_key_exec(source);
        match self.registry.devices.take(source_key) {
            Some(mut dev) => {
                match find_info(infos, source) {
                    Some(i) => {
                        dev.reset_scroll_position(&infos[i]);
                    },
                    None => {},
                }
                self.registry.devices.insert(source_key, dev);
            },
            None => {},
        }
        let mut out: Vec<Event<T>> = Vec::new();
        if self.window_registered(window) {
            out.push(Event::WindowEvent {
                window_id: mkwid(window),
                event: WindowEvent::CursorEntered { device_id: mkdid(device) },
            });
            out.push(Event::WindowEvent {
                window_id: mkwid(window),
                event: WindowEvent::CursorMoved {
                    device_id: mkdid(device),
                    position: Position { x, y },
                    modifiers: mods,
                },
            });
            proof {
                assert(out@ =~= seq![
                    window_event::<T>(window, WindowEvent::CursorEntered { device_id: DeviceId(device) }),
                    window_event::<T>(
                        window,
                        WindowEvent::CursorMoved {
                            device_id: DeviceId(device),
                            position: Position { x, y },
                            modifiers: mods,
                        },
                    ),
                ]);
            }
        }
        out
    }
}

/// The index of the first description for a device number.
fn find_info(infos: &Vec<DeviceInfoData>, id: i32) -> (r: Option<usize>)
    ensures
        match r {
            Some(i) => i < infos@.len() && info_for(infos@, id) == Some(infos@[i as int])
                && infos@[i as int].deviceid == id,
            None => info_for(infos@, id) is None,
        },
{
    let n = infos.len();
    let mut k: usize = 0;
    proof {
        assert(infos@.skip(0) =~= infos@);
    }
    while k < n
        invariant
            n == infos@.len(),
            0 <= k <= n,
            forall|j: int| 0 <= j < k ==> #[trigger] infos@[j].deviceid != id,
            info_for(infos@.skip(k as int), id) == info_for(infos@, id),
        decreases n - k,
    {
        if infos[k].deviceid == id {
            proof {
                assert(infos@.skip(k as int)[0] == infos@[k as int]);
            }
            return Some(k);
        }
        proof {
            assert(infos@.skip(k as int).drop_first() =~= infos@.skip(k + 1));
        }
        k = k + 1;
    }
    proof {
        assert(infos@.skip(n as int) =~= Seq::<DeviceInfoData>::empty());
    }
    None
}


/// The raw axis-motion announcements of one raw event, in report order.
pub open spec fn raw_motions<T>(device: i32, vals: Seq<Valuator>) -> Seq<Event<T>>
    decreases vals.len(),
{
    if vals.len() == 0 {
        Seq::empty()
    } else {
        seq![
            Event::<T>::DeviceEvent {
                device_id: DeviceId(device),
                event: DeviceEvent::Motion { axis: vals[0].axis as u32, value: vals[0].value as i64 },
            },
        ] + raw_motions(device, vals.drop_first())
    }
}

proof fn lemma_raw_motions_take_step<T>(device: i32, vals: Seq<Valuator>, k: int)
    requires
        0 < k <= vals.len(),
    ensures
        raw_motions::<T>(device, vals.take(k)) == raw_motions::<T>(device, vals.take(k - 1)) + seq![
            Event::<T>::DeviceEvent {
                device_id: DeviceId(device),
                event: DeviceEvent::Motion {
                    axis: vals[k - 1].axis as u32,
                    value: vals[k - 1].value as i64,
                },
            },
        ],
    decreases k,
{
    if k == 1 {
        assert(vals.take(1).drop_first() =~= vals.take(0));
        assert(raw_motions::<T>(device, vals.take(0)) =~= Seq::<Event<T>>::empty());
        assert(vals.take(1)[0] == vals[0]);
        assert(raw_motions::<T>(device, vals.take(1)) =~= Seq::<Event<T>>::empty() + seq![
            Event::<T>::DeviceEvent {
                device_id: DeviceId(device),
                event: DeviceEvent::Motion { axis: vals[0].axis as u32, value: vals[0].value as i64 },
            },
        ]);
    } else {
        lemma_raw_motions_take_step::<T>(device, vals.drop_first(), k - 1);
        assert(vals.take(k).drop_first() =~= vals.drop_first().take(k - 1));
        assert(vals.take(k - 1).drop_first() =~= vals.drop_first().take(k - 2));
        assert(vals.take(k)[0] == vals[0]);
        assert(vals.take(k - 1)[0] == vals[0]);
        assert(raw_motions::<T>(device, vals.take(k)) =~= raw_motions::<T>(device, vals.take(k - 1))
            + seq![
            Event::<T>::DeviceEvent {
                device_id: DeviceId(device),
                event: DeviceEvent::Motion {
                    axis: vals[k - 1].axis as u32,
                    value: vals[k - 1].value as i64,
                },
            },
        ]);
    }
}

/// The value a valuator list reports for an axis, or zero.
pub open spec fn axis_or_zero(vals: Seq<Valuator>, axis: i32) -> i32 {
    match val_of_axis(vals, axis) {
        Some(v) => v,
        None => 0,
    }
}

/// The device-hotplug announcements of a hierarchy change, in entry order.
pub open spec fn hierarchy_events<T>(entries: Seq<HierarchyEntry>) -> Seq<Event<T>>
    decreases entries.len(),
{
    if entries.len() == 0 {
        Seq::empty()
    } else {
        let head: Seq<Event<T>> = if entries[0].added {
            seq![
                Event::<T>::DeviceEvent {
                    device_id: DeviceId(entries[0].info.deviceid),
                    event: DeviceEvent::Added,
                },
            ]
        } else if entries[0].removed {
            seq![
                Event::<T>::DeviceEvent {
                    device_id: DeviceId(entries[0].info.deviceid),
                    event: DeviceEvent::Removed,
                },
            ]
        } else {
            Seq::empty()
        };
        head + hierarchy_events(entries.drop_first())
    }
}

proof fn lemma_hierarchy_events_take_step<T>(entries: Seq<HierarchyEntry>, k: int)
    requires
        0 < k <= entries.len(),
    ensures
        hierarchy_events::<T>(entries.take(k)) == hierarchy_events::<T>(entries.take(k - 1)) + ({
            if entries[k - 1].added {
                seq![
                    Event::<T>::DeviceEvent {
                        device_id: DeviceId(entries[k - 1].info.deviceid),
                        event: DeviceEvent::Added,
                    },
                ]
            } else if entries[k - 1].removed {
                seq![
                    Event::<T>::DeviceEvent {
                        device_id: DeviceId(entries[k - 1].info.deviceid),
                        event: DeviceEvent::Removed,
                    },
                ]
            } else {
                Seq::<Event<T>>::empty()
            }
        }),
    decreases k,
{
    if k == 1 {
        assert(entries.take(1).drop_first() =~= entries.take(0));
        assert(hierarchy_events::<T>(entries.take(0)) =~= Seq::<Event<T>>::empty());
        assert(entries.take(1)[0] == entries[0]);
        assert(hierarchy_events::<T>(entries.take(1)) =~= Seq::<Event<T>>::empty()
            + hierarchy_events::<T>(entries.take(1)));
    } else {
        lemma_hierarchy_events_take_step::<T>(entries.drop_first(), k - 1);
        assert(entries.take(k).drop_first() =~= entries.drop_first().take(k - 1));
        assert(entries.take(k - 1).drop_first() =~= entries.drop_first().take(k - 2));
        assert(entries.take(k)[0] == entries[0]);
        assert(entries.take(k - 1)[0] == entries[0]);
        assert(hierarchy_events::<T>(entries.take(k)) =~= hierarchy_events::<T>(entries.take(k - 1))
            + ({
            if entries[k - 1].added {
                seq![
                    Event::<T>::DeviceEvent {
                        device_id: DeviceId(entries[k - 1].info.deviceid),
                        event: DeviceEvent::Added,
                    },
                ]
            } else if entries[k - 1].removed {
                seq![
                    Event::<T>::DeviceEvent {
                        device_id: DeviceId(entries[k - 1].info.deviceid),
                        event: DeviceEvent::Removed,
                    },
                ]
            } else {
                Seq::<Event<T>>::empty()
            }
        }));
    }
}

/// The value a valuator list reports for an axis, if any.
fn val_of_axis_exec(vals: &Vec<Valuator>, axis: i32) -> (r: Option<i32>)
    ensures
        r == val_of_axis(vals@, axis),
{
    let n = vals.len();
    let mut k: usize = 0;
    proof {
        assert(vals@.skip(0) =~= vals@);
    }
    while k < n
        invariant
            n == vals@.len(),
            0 <= k <= n,
            val_of_axis(vals@.skip(k as int), axis) == val_of_axis(vals@, axis),
        decreases n - k,
    {
        if vals[k].axis == axis {
            proof {
                assert(vals@.skip(k as int)[0] == vals@[k as int]);
            }
            return Some(vals[k].value);
        }
        proof {
            assert(vals@.skip(k as int).drop_first() =~= vals@.skip(k + 1));
        }
        k = k + 1;
    }
    proof {
        assert(vals@.skip(n as int) =~= Seq::<Valuator>::empty());
    }
    None
}

impl EventsLoop {
    /// A raw motion event from a physical device: every reported axis is
    /// announced as raw motion; axes 0 and 1 together become the mouse
    /// motion and axes 2 and 3 the wheel delta, each only when nonzero.
    #[verifier::rlimit(60)]
    #[verifier::spinoff_prover]
    pub fn on_xi_raw_motion<T>(&self, device: i32, valuators: &Vec<Valuator>) -> (out: Vec<Event<T>>)
        requires
            self.registry.wf(),
        ensures
                        ({
                let dx = axis_or_zero(valuators@, 0);
                let dy = axis_or_zero(valuators@, 1);
                let sx = axis_or_zero(valuators@, 2);
                let sy = axis_or_zero(valuators@, 3);
                let mouse_part: Seq<Event<T>> = if dx != 0 || dy != 0 {
                    seq![
                        Event::<T>::DeviceEvent {
                            device_id: DeviceId(device),
                            event: DeviceEvent::MouseMotion {
                                delta: Position { x: dx as i64, y: dy as i64 },
                            },
                        },
                    ]
                } else {
                    Seq::empty()
                };
                let wheel_part: Seq<Event<T>> = if sx != 0 || sy != 0 {
                    seq![
                        Event::<T>::DeviceEvent {
                            device_id: DeviceId(device),
                            event: DeviceEvent::MouseWheel {
                                delta: LineDelta { x_num: sx as i64, y_num: sy as i64, den: 1i64 },
                            },
                        },
                    ]
                } else {
                    Seq::empty()
                };
                out@ == raw_motions::<T>(device, valuators@) + mouse_part + wheel_part
            }),
            xi_raw_motion_outcome(*self, *self, device, valuators@, out@, Seq::<XAction>::empty()),
    {
        let mut out: Vec<Event<T>> = Vec::new();
        let n = valuators.len();
        let mut k: usize = 0;
        while k < n
            invariant
                n == valuators@.len(),
                0 <= k <= n,
                out@ == raw_motions::<T>(device, valuators@.take(k as int)),
            decreases n - k,
        {
            let v = valuators[k];
            out.push(Event::DeviceEvent {
                device_id: mkdid(device),
                event: DeviceEvent::Motion { axis: v.axis as u32, value: v.value as i64 },
            });
            k = k + 1;
            proof {
                lemma_raw_motions_take_step::<T>(device, valuators@, k as int);
                assert(out@ =~= raw_motions::<T>(device, valuators@.take(k as int)));
            }
        }
        proof {
            assert(valuators@.take(n as int) =~= valuators@);
        }
        let dx = match val_of_axis_exec(valuators, 0) {
            Some(v) => v,
            None => 0,
        };
        let dy = match val_of_axis_exec(valuators, 1) {
            Some(v) => v,
            None => 0,
        };
        let sx = match val_of_axis_exec(valuators, 2) {
            Some(v) => v,
            None => 0,
        };
        let sy = match val_of_axis_exec(valuators, 3) {
            Some(v) => v,
            None => 0,
        };
        if dx != 0 || dy != 0 {
            out.push(Event::DeviceEvent {
                device_id: mkdid(device),
                event: DeviceEvent::MouseMotion {
                    delta: Position { x: dx as i64, y: dy as i64 },
                },
            });
        }
        if sx != 0 || sy != 0 {
            out.push(Event::DeviceEvent {
                device_id: mkdid(device),
                event: DeviceEvent::MouseWheel {
                    delta: LineDelta { x_num: sx as i64, y_num: sy as i64, den: 1 },
                },
            });
        }
        proof {
            assert(({
                let dx = axis_or_zero(valuators@, 0);
                let dy = axis_or_zero(valuators@, 1);
                let sx = axis_or_zero(valuators@, 2);
                let sy = axis_or_zero(valuators@, 3);
                let mouse_part: Seq<Event<T>> = if dx != 0 || dy != 0 {
                    seq![
                        Event::<T>::DeviceEvent {
                            device_id: DeviceId(device),
                            event: DeviceEvent::MouseMotion {
                                delta: Position { x: dx as i64, y: dy as i64 },
                            },
                        },
                    ]
                } else {
                    Seq::empty()
                };
                let wheel_part: Seq<Event<T>> = if sx != 0 || sy != 0 {
                    seq![
                        Event::<T>::DeviceEvent {
                            device_id: DeviceId(device),
                            event: DeviceEvent::MouseWheel {
                                delta: LineDelta { x_num: sx as i64, y_num: sy as i64, den: 1i64 },
                            },
                        },
                    ]
                } else {
                    Seq::empty()
                };
                out@ == raw_motions::<T>(device, valuators@) + mouse_part + wheel_part
            }));
            assert(Seq::<XAction>::empty().len() == 0);
            assert(xi_raw_motion_outcome::<T>(
                *self,
                *self,
                device,
                valuators@,
                out@,
                Seq::<XAction>::empty(),
            ));
        }
        out
    }

    /// One entry of a device-hierarchy change: an added device is taken in
    /// from its description and announced; a removed one is announced and
    /// forgotten.
    pub fn on_hierarchy_entry<T>(&mut self, entry: &HierarchyEntry) -> (out: Vec<Event<T>>)
        requires
            old(self).registry.wf(),
        ensures
            final(self).registry.wf(),
            final(self).registry.windows == old(self).registry.windows,
            final(self).dnd == old(self).dnd,
            final(self).wm_delete_window == old(self).wm_delete_window,
            final(self).dnd_atoms == old(self).dnd_atoms,
            final(self).wakeup_receiver == old(self).wakeup_receiver,
            final(self).wakeup_sender == old(self).wakeup_sender,
            ({
                let key = device_key(entry.info.deviceid);
                let devices = old(self).registry.devices.view_map();
                if entry.added {
                    &&& out@ == seq![
                        Event::<T>::DeviceEvent {
                            device_id: DeviceId(entry.info.deviceid),
                            event: DeviceEvent::Added,
                        },
                    ]
                    &&& final(self).registry.devices.view_map().contains_key(key)
                    &&& device_matches(final(self).registry.devices.view_map()[key], entry.info)
                    &&& forall|k: u64|
                        k != key ==> #[trigger] lookup_opt(final(self).registry.devices.view_map(), k)
                            == lookup_opt(devices, k)
                } else if entry.removed {
                    &&& out@ == seq![
                        Event::<T>::DeviceEvent {
                            device_id: DeviceId(entry.info.deviceid),
                            event: DeviceEvent::Removed,
                        },
                    ]
                    &&& final(self).registry.devices.view_map() =~= devices.remove(key)
                } else {
                    out@.len() == 0 && final(self).registry.devices.view_map() =~= devices
                }
            }),
    {
        let mut out: Vec<Event<T>> = Vec::new();
        if entry.added {
            self.take_one_device(&entry.info);
            out.push(Event::DeviceEvent {
                device_id: mkdid(entry.info.deviceid),
                event: DeviceEvent::Added,
            });
            proof {
                assert(out@ =~= seq![
                    Event::<T>::DeviceEvent {
                        device_id: DeviceId(entry.info.deviceid),
                        event: DeviceEvent::Added,
                    },
                ]);
                assert forall|k: u64|
                    k != device_key(entry.info.deviceid) implies #[trigger] lookup_opt(
                    self.registry.devices.view_map(),
                    k,
                ) == lookup_opt(old(self).registry.devices.view_map(), k) by {
                    let fin = self.registry.devices.view_map();
                    let was = old(self).registry.devices.view_map();
                    assert(fin.contains_key(k) == was.contains_key(k));
                    if was.contains_key(k) {
                        assert(fin[k] == was[k]);
                    }
                }
            }
        } else if entry.removed {
            out.push(Event::DeviceEvent {
                device_id: mkdid(entry.info.deviceid),
                event: DeviceEvent::Removed,
            });
            self.registry.remove_device(device_key_exec(entry.info.deviceid));
            proof {
                assert(out@ =~= seq![
                    Event::<T>::DeviceEvent {
                        device_id: DeviceId(entry.info.deviceid),
                        event: DeviceEvent::Removed,
                    },
                ]);
            }
        }
        out
    }

    /// A device-hierarchy change: each entry's hotplug announcement, in
    /// order, with the registry updated entry by entry as
    /// [`EventsLoop::on_hierarchy_entry`] describes.
    pub fn on_xi_hierarchy<T>(&mut self, entries: &Vec<HierarchyEntry>) -> (out: Vec<Event<T>>)
        requires
            old(self).registry.wf(),
        ensures
            final(self).registry.wf(),
            final(self).registry.windows == old(self).registry.windows,
            final(self).dnd == old(self).dnd,
            final(self).wm_delete_window == old(self).wm_delete_window,
            final(self).dnd_atoms == old(self).dnd_atoms,
            out@ == hierarchy_events::<T>(entries@),
            xi_hierarchy_outcome(*old(self), *final(self), entries@, out@, Seq::<XAction>::empty()),
    {
        let mut out: Vec<Event<T>> = Vec::new();
        let n = entries.len();
        let mut k: usize = 0;
        while k < n
            invariant
                old(self).registry.wf(),
                self.registry.wf(),
                n == entries@.len(),
                0 <= k <= n,
                self.registry.windows == old(self).registry.windows,
                self.dnd == old(self).dnd,
                self.wm_delete_window == old(self).wm_delete_window,
                self.dnd_atoms == old(self).dnd_atoms,
                self.wakeup_receiver == old(self).wakeup_receiver,
                self.wakeup_sender == old(self).wakeup_sender,
                out@ == hierarchy_events::<T>(entries@.take(k as int)),
            decreases n - k,
        {
            let mut step: Vec<Event<T>> = self.on_hierarchy_entry(&entries[k]);
            out.append(&mut step);
            k = k + 1;
            proof {
                lemma_hierarchy_events_take_step::<T>(entries@, k as int);
                assert(out@ =~= hierarchy_events::<T>(entries@.take(k as int)));
            }
        }
        proof {
            assert(entries@.take(n as int) =~= entries@);
        }
        out
    }
}


/// What handling a client message leaves behind and hands back: the contract
/// of [`EventsLoop::on_client_message`], restated at [`EventsLoop::process_event`].
pub open spec fn client_message_outcome<T>(
    pre: EventsLoop,
    post: EventsLoop,
    window: u64,
    message_type: u64,
    data0: i64,
    data1: i64,
    data2: i64,
    data3: i64,
    data4: i64,
    property_types: Vec<u64>,
    out: Seq<Event<T>>,
    actions: Seq<XAction>,
) -> bool {
    &&& (post.registry == pre.registry)
    &&& (post.wm_delete_window == pre.wm_delete_window)
    &&& (post.dnd_atoms == pre.dnd_atoms)
    &&& ({
        let registered = pre.registry.windows.view_map().contains_key(window);
        let atoms = pre.dnd_atoms;
        if data0 as u64 == pre.wm_delete_window {
            &&& post.dnd == pre.dnd
            &&& actions.len() == 0
            &&& out == if registered {
                seq![window_event::<T>(window, WindowEvent::CloseRequested)]
            } else {
                Seq::<Event<T>>::empty()
            }
        } else if message_type == atoms.enter {
            &&& post.dnd.version == Some(data1 >> 24)
            &&& (data1 & 1 == 1 ==> post.dnd.type_list == Some(property_types))
            &&& (data1 & 1 != 1 ==> ({
                &&& post.dnd.type_list matches Some(t)
                &&& t@ =~= seq![data2 as u64, data3 as u64, data4 as u64]
            }))
            &&& post.dnd.source_window == pre.dnd.source_window
            &&& post.dnd.result == pre.dnd.result
            &&& out.len() == 0
            &&& actions.len() == 0
        } else if message_type == atoms.position {
            let accepted = match pre.dnd.type_list {
                Some(types) => types@.contains(atoms.uri_list),
                None => false,
            };
            let version = match pre.dnd.version {
                Some(v) => v,
                None => 5,
            };
            let source = data0 as u64;
            &&& out.len() == 0
            &&& if accepted {
                &&& post.dnd.source_window == Some(source)
                &&& post.dnd.version == pre.dnd.version
                &&& post.dnd.type_list == pre.dnd.type_list
                &&& post.dnd.result == pre.dnd.result
                &&& actions == if pre.dnd.result is None {
                    seq![
                        XAction::Dnd(DndAction::ConvertSelection {
                            window,
                            time: if version >= 1 { data3 as u64 } else { 0u64 },
                        }),
                        XAction::Dnd(DndAction::SendStatus { target: window, source, accepted: true }),
                    ]
                } else {
                    seq![
                        XAction::Dnd(DndAction::SendStatus { target: window, source, accepted: true }),
                    ]
                }
            } else {
                &&& post.dnd.version is None
                &&& post.dnd.type_list is None
                &&& post.dnd.source_window is None
                &&& post.dnd.result is None
                &&& actions == seq![
                    XAction::Dnd(DndAction::SendStatus { target: window, source, accepted: false }),
                    XAction::Dnd(DndAction::SendFinished { target: window, source, accepted: false }),
                ]
            }
        } else if message_type == atoms.drop_message {
            &&& post.dnd.version is None
            &&& post.dnd.type_list is None
            &&& post.dnd.source_window is None
            &&& post.dnd.result is None
            &&& match pre.dnd.source_window {
                Some(source) => {
                    &&& actions == seq![
                        XAction::Dnd(DndAction::SendFinished { target: window, source, accepted: true }),
                    ]
                    &&& match pre.dnd.result {
                        Some(Ok(stored)) => if registered {
                            &&& out.len() == stored@.len()
                            &&& forall|i: int|
                                0 <= i < out.len() ==> is_dropped_file(
                                    #[trigger] out[i],
                                    window,
                                    stored@[i]@,
                                )
                        } else {
                            out.len() == 0
                        },
                        _ => out.len() == 0,
                    }
                },
                None => out.len() == 0 && actions.len() == 0,
            }
        } else if message_type == atoms.leave {
            &&& post.dnd.version is None
            &&& post.dnd.type_list is None
            &&& post.dnd.source_window is None
            &&& post.dnd.result is None
            &&& actions.len() == 0
            &&& out == if registered {
                seq![window_event::<T>(window, WindowEvent::HoveredFileCancelled)]
            } else {
                Seq::<Event<T>>::empty()
            }
        } else {
            &&& post.dnd == pre.dnd
            &&& actions.len() == 0
            &&& (out.len() == 0 || out =~= seq![Event::<T>::Awakened])
        }
    })
}

/// What handling a selection notification leaves behind and hands back: the contract
/// of [`EventsLoop::on_selection_notify`], restated at [`EventsLoop::process_event`].
pub open spec fn selection_notify_outcome<T>(
    pre: EventsLoop,
    post: EventsLoop,
    requestor: u64,
    property: u64,
    data: Option<Seq<u8>>,
    out: Seq<Event<T>>,
    actions: Seq<XAction>,
) -> bool {
    &&& (post.registry == pre.registry)
    &&& (post.wm_delete_window == pre.wm_delete_window)
    &&& (post.dnd_atoms == pre.dnd_atoms)
    &&& (post.dnd.version == pre.dnd.version)
    &&& (post.dnd.type_list == pre.dnd.type_list)
    &&& (post.dnd.source_window == pre.dnd.source_window)
    &&& ({
        let registered = pre.registry.windows.view_map().contains_key(requestor);
        if property == pre.dnd_atoms.selection {
            match data {
                None => post.dnd.result == pre.dnd.result && out.len() == 0,
                Some(bytes) => match crate::dnd::parse_uri_list_spec(bytes) {
                    Some(expected) => {
                        &&& post.dnd.result matches Some(Ok(stored))
                        &&& stored@.len() == expected.len()
                        &&& forall|i: int|
                            0 <= i < expected.len() ==> #[trigger] stored@[i]@ == expected[i]
                        &&& if registered {
                            &&& out.len() == expected.len()
                            &&& forall|i: int|
                                0 <= i < out.len() ==> is_hovered_file(
                                    #[trigger] out[i],
                                    requestor,
                                    expected[i],
                                )
                        } else {
                            out.len() == 0
                        }
                    },
                    None => post.dnd.result matches Some(Err(_)) && out.len() == 0,
                },
            }
        } else {
            post.dnd.result == pre.dnd.result && out.len() == 0
        }
    })
    &&& actions.len() == 0
}

/// What handling a configure notification leaves behind and hands back: the contract
/// of [`EventsLoop::on_configure_notify`], restated at [`EventsLoop::process_event`].
pub open spec fn configure_notify_outcome<T>(
    pre: EventsLoop,
    post: EventsLoop,
    window: u64,
    x: i32,
    y: i32,
    width: u16,
    height: u16,
    is_synthetic: bool,
    queried_extents: FrameExtents,
    out: Seq<Event<T>>,
    actions: Seq<XAction>,
) -> bool {
    &&& (post.registry.wf())
    &&& (post.registry.devices == pre.registry.devices)
    &&& (post.dnd == pre.dnd)
    &&& (post.wm_delete_window == pre.wm_delete_window)
    &&& (post.dnd_atoms == pre.dnd_atoms)
    &&& ({
        let windows = pre.registry.windows.view_map();
        match lookup_opt(windows, window) {
            None => out.len() == 0 && post.registry.windows == pre.registry.windows,
            Some(d) => {
                let (d2, resized, moved, used_extents) = configure_update(
                    d,
                    x,
                    y,
                    width,
                    height,
                    is_synthetic,
                    queried_extents,
                );
                &&& post.registry.windows.view_map() =~= windows.insert(window, d2)
                &&& out == resized_moved_events::<T>(
                    window,
                    x,
                    y,
                    width,
                    height,
                    resized,
                    moved,
                    used_extents,
                )
            },
        }
    })
    &&& actions.len() == 0
}

/// What handling a destroy notification leaves behind and hands back: the contract
/// of [`EventsLoop::on_destroy_notify`], restated at [`EventsLoop::process_event`].
pub open spec fn destroy_notify_outcome<T>(
    pre: EventsLoop,
    post: EventsLoop,
    window: u64,
    out: Seq<Event<T>>,
    actions: Seq<XAction>,
) -> bool {
    &&& (post.registry.wf())
    &&& ({
        post.registry.windows.view_map() =~= pre.registry.windows.view_map()
            .remove(window)
    })
    &&& (post.registry.devices == pre.registry.devices)
    &&& (post.dnd == pre.dnd)
    &&& (post.wm_delete_window == pre.wm_delete_window)
    &&& (post.dnd_atoms == pre.dnd_atoms)
    &&& ({
        out == if pre.registry.windows.view_map().contains_key(window) {
            seq![window_event::<T>(window, WindowEvent::Destroyed)]
        } else {
            Seq::<Event<T>>::empty()
        }
    })
    &&& (actions == seq![XAction::RemoveImeContext { window }])
}

/// What handling an expose notification leaves behind and hands back: the contract
/// of [`EventsLoop::on_expose`], restated at [`EventsLoop::process_event`].
pub open spec fn expose_outcome<T>(
    pre: EventsLoop,
    post: EventsLoop,
    window: u64,
    out: Seq<Event<T>>,
    actions: Seq<XAction>,
) -> bool {
    &&& (post == pre)
    &&& ({
        out == if pre.registry.windows.view_map().contains_key(window) {
            seq![window_event::<T>(window, WindowEvent::Refresh)]
        } else {
            Seq::<Event<T>>::empty()
        }
    })
    &&& actions.len() == 0
}

/// What handling a core key event leaves behind and hands back: the contract
/// of [`EventsLoop::on_key_input`], restated at [`EventsLoop::process_event`].
pub open spec fn key_input_outcome<T>(
    pre: EventsLoop,
    post: EventsLoop,
    window: u64,
    pressed: bool,
    keycode: u32,
    state_mask: u32,
    virtual_keycode: Option<VirtualKeyCode>,
    committed: Seq<u32>,
    out: Seq<Event<T>>,
    actions: Seq<XAction>,
) -> bool {
    &&& (post == pre)
    &&& ({
        let registered = pre.registry.windows.view_map().contains_key(window);
        let announces_key = keycode >= 8;
        let base: int = if announces_key { 1int } else { 0int };
        let chars: int = if pressed { committed.len() as int } else { 0int };
        if registered {
            &&& out.len() == base + chars
            &&& (announces_key ==> out[0] == window_event::<T>(
                window,
                WindowEvent::KeyboardInput {
                    device_id: DeviceId(3),
                    input: crate::event::KeyboardInput {
                        scancode: (keycode - 8) as u32,
                        state: if pressed {
                            ElementState::Pressed
                        } else {
                            ElementState::Released
                        },
                        virtual_keycode,
                        modifiers: mods_of_mask(state_mask),
                    },
                },
            ))
            &&& forall|j: int|
                base <= j < out.len() ==> is_received_char(
                    #[trigger] out[j],
                    window,
                    committed[j - base],
                )
        } else {
            out.len() == 0
        }
    })
    &&& actions.len() == 0
}

/// What handling a pointer button event leaves behind and hands back: the contract
/// of [`EventsLoop::on_xi_button`], restated at [`EventsLoop::process_event`].
pub open spec fn xi_button_outcome<T>(
    pre: EventsLoop,
    post: EventsLoop,
    window: u64,
    device: i32,
    pressed: bool,
    detail: u32,
    emulated: bool,
    mods_mask: u32,
    out: Seq<Event<T>>,
    actions: Seq<XAction>,
) -> bool {
    &&& (post == pre)
    &&& ({
        let state = if pressed {
            ElementState::Pressed
        } else {
            ElementState::Released
        };
        let mods = mods_of_mask(mods_mask);
        let did = DeviceId(device);
        match lookup_opt(pre.registry.windows.view_map(), window) {
            None => out.len() == 0,
            Some(d) => if emulated && d.multitouch {
                out.len() == 0
            } else if detail == 1 || detail == 2 || detail == 3 {
                out =~= seq![
                    window_event::<T>(
                        window,
                        WindowEvent::MouseInput {
                            device_id: did,
                            state,
                            button: if detail == 1 {
                                MouseButton::Left
                            } else if detail == 2 {
                                MouseButton::Middle
                            } else {
                                MouseButton::Right
                            },
                            modifiers: mods,
                        },
                    ),
                ]
            } else if 4 <= detail <= 7 {
                out =~= if emulated {
                    Seq::<Event<T>>::empty()
                } else {
                    seq![
                        window_event::<T>(
                            window,
                            WindowEvent::MouseWheel {
                                device_id: did,
                                delta: LineDelta {
                                    x_num: if detail == 6 { -1i64 } else if detail == 7 { 1i64 } else { 0i64 },
                                    y_num: if detail == 4 { 1i64 } else if detail == 5 { -1i64 } else { 0i64 },
                                    den: 1i64,
                                },
                                phase: TouchPhase::Moved,
                                modifiers: mods,
                            },
                        ),
                    ]
                }
            } else {
                out =~= seq![
                    window_event::<T>(
                        window,
                        WindowEvent::MouseInput {
                            device_id: did,
                            state,
                            button: MouseButton::Other((detail & 0xff) as u8),
                            modifiers: mods,
                        },
                    ),
                ]
            },
        }
    })
    &&& actions.len() == 0
}

/// What handling a touch event leaves behind and hands back: the contract
/// of [`EventsLoop::on_xi_touch`], restated at [`EventsLoop::process_event`].
pub open spec fn xi_touch_outcome<T>(
    pre: EventsLoop,
    post: EventsLoop,
    window: u64,
    device: i32,
    phase: TouchPhase,
    x: i64,
    y: i64,
    id: u64,
    out: Seq<Event<T>>,
    actions: Seq<XAction>,
) -> bool {
    &&& (post == pre)
    &&& ({
        out == if pre.registry.windows.view_map().contains_key(window) {
            seq![
                window_event::<T>(
                    window,
                    WindowEvent::Touch(
                        Touch {
                            device_id: DeviceId(device),
                            phase,
                            location: Position { x, y },
                            id,
                        },
                    ),
                ),
            ]
        } else {
            Seq::<Event<T>>::empty()
        }
    })
    &&& actions.len() == 0
}

/// What handling a pointer leave leaves behind and hands back: the contract
/// of [`EventsLoop::on_xi_leave`], restated at [`EventsLoop::process_event`].
pub open spec fn xi_leave_outcome<T>(
    pre: EventsLoop,
    post: EventsLoop,
    window: u64,
    device: i32,
    out: Seq<Event<T>>,
    actions: Seq<XAction>,
) -> bool {
    &&& (post == pre)
    &&& ({
        out == if pre.registry.windows.view_map().contains_key(window) {
            seq![window_event::<T>(window, WindowEvent::CursorLeft { device_id: DeviceId(device) })]
        } else {
            Seq::<Event<T>>::empty()
        }
    })
    &&& actions.len() == 0
}

/// What handling a focus gain leaves behind and hands back: the contract
/// of [`EventsLoop::on_xi_focus_in`], restated at [`EventsLoop::process_event`].
pub open spec fn xi_focus_in_outcome<T>(
    pre: EventsLoop,
    post: EventsLoop,
    window: u64,
    device: i32,
    x: i64,
    y: i64,
    mods_mask: u32,
    out: Seq<Event<T>>,
    actions: Seq<XAction>,
) -> bool {
    &&& (post == pre)
    &&& ({
        let registered = pre.registry.windows.view_map().contains_key(window);
        let pointer = match lookup_opt(pre.registry.devices.view_map(), device_key(device)) {
            Some(d) => d.attachment,
            None => 2,
        };
        if registered {
            &&& out =~= seq![
                window_event::<T>(window, WindowEvent::Focused(true)),
                window_event::<T>(
                    window,
                    WindowEvent::CursorMoved {
                        device_id: DeviceId(pointer),
                        position: Position { x, y },
                        modifiers: mods_of_mask(mods_mask),
                    },
                ),
            ]
            &&& actions =~= seq![XAction::FocusImeContext { window, focused: true }]
        } else {
            out.len() == 0 && actions.len() == 0
        }
    })
}

/// What handling a focus loss leaves behind and hands back: the contract
/// of [`EventsLoop::on_xi_focus_out`], restated at [`EventsLoop::process_event`].
pub open spec fn xi_focus_out_outcome<T>(
    pre: EventsLoop,
    post: EventsLoop,
    window: u64,
    out: Seq<Event<T>>,
    actions: Seq<XAction>,
) -> bool {
    &&& (post == pre)
    &&& ({
        let registered = pre.registry.windows.view_map().contains_key(window);
        if registered {
            &&& out =~= seq![window_event::<T>(window, WindowEvent::Focused(false))]
            &&& actions =~= seq![XAction::FocusImeContext { window, focused: false }]
        } else {
            out.len() == 0 && actions.len() == 0
        }
    })
}

/// What handling a raw button event leaves behind and hands back: the contract
/// of [`EventsLoop::on_xi_raw_button`], restated at [`EventsLoop::process_event`].
pub open spec fn xi_raw_button_outcome<T>(
    pre: EventsLoop,
    post: EventsLoop,
    device: i32,
    detail: u32,
    pressed: bool,
    emulated: bool,
    out: Seq<Event<T>>,
    actions: Seq<XAction>,
) -> bool {
    &&& (post == pre)
    &&& ({
        out == if emulated {
            Seq::<Event<T>>::empty()
        } else {
            seq![
                Event::<T>::DeviceEvent {
                    device_id: DeviceId(device),
                    event: DeviceEvent::Button {
                        button: detail,
                        state: if pressed {
                            ElementState::Pressed
                        } else {
                            ElementState::Released
                        },
                    },
                },
            ]
        }
    })
    &&& actions.len() == 0
}

/// What handling a raw key event leaves behind and hands back: the contract
/// of [`EventsLoop::on_xi_raw_key`], restated at [`EventsLoop::process_event`].
pub open spec fn xi_raw_key_outcome<T>(
    pre: EventsLoop,
    post: EventsLoop,
    device: i32,
    pressed: bool,
    keycode: i32,
    virtual_keycode: Option<VirtualKeyCode>,
    mods: ModifiersState,
    out: Seq<Event<T>>,
    actions: Seq<XAction>,
) -> bool {
    &&& (post == pre)
    &&& ({
        out == if keycode >= 8 {
            seq![
                Event::<T>::DeviceEvent {
                    device_id: DeviceId(device),
                    event: DeviceEvent::Key(
                        crate::event::KeyboardInput {
                            scancode: (keycode - 8) as u32,
                            state: if pressed {
                                ElementState::Pressed
                            } else {
                                ElementState::Released
                            },
                            virtual_keycode,
                            modifiers: mods,
                        },
                    ),
                },
            ]
        } else {
            Seq::<Event<T>>::empty()
        }
    })
    &&& actions.len() == 0
}

/// What handling a pointer motion event leaves behind and hands back: the contract
/// of [`EventsLoop::on_xi_motion`], restated at [`EventsLoop::process_event`].
pub open spec fn xi_motion_outcome<T>(
    pre: EventsLoop,
    post: EventsLoop,
    window: u64,
    device: i32,
    source: i32,
    x: i64,
    y: i64,
    mods_mask: u32,
    valuators: Seq<Valuator>,
    out: Seq<Event<T>>,
    actions: Seq<XAction>,
) -> bool {
    &&& (post.registry.wf())
    &&& (post.dnd == pre.dnd)
    &&& (post.wm_delete_window == pre.wm_delete_window)
    &&& (post.dnd_atoms == pre.dnd_atoms)
    &&& ({
        let mods = mods_of_mask(mods_mask);
        let windows = pre.registry.windows.view_map();
        let devices = pre.registry.devices.view_map();
        match lookup_opt(windows, window) {
            None => out.len() == 0 && post.registry.windows == pre.registry.windows
                && post.registry.devices == pre.registry.devices,
            Some(d) => {
                let position_changed = d.cursor_pos != Some(Position { x, y });
                let cursor_part: Seq<Event<T>> = if position_changed {
                    seq![
                        window_event::<T>(
                            window,
                            WindowEvent::CursorMoved {
                                device_id: DeviceId(device),
                                position: Position { x, y },
                                modifiers: mods,
                            },
                        ),
                    ]
                } else {
                    Seq::empty()
                };
                &&& post.registry.windows.view_map() =~= windows.insert(
                    window,
                    WindowData { cursor_pos: Some(Position { x, y }), ..d },
                )
                &&& match lookup_opt(devices, device_key(source)) {
                    Some(dev) => {
                        let folded = valuator_outputs::<T>(
                            window,
                            device,
                            mods,
                            dev.scroll_axes@,
                            valuators,
                        );
                        &&& out == cursor_part + folded.0
                        &&& post.registry.devices.view_map().contains_key(device_key(source))
                        &&& post.registry.devices.view_map()[device_key(source)].scroll_axes@
                            == folded.1
                        &&& post.registry.devices.view_map()[device_key(source)].attachment
                            == dev.attachment
                        &&& forall|k: u64|
                            k != device_key(source)
                                ==> #[trigger] lookup_opt(post.registry.devices.view_map(), k)
                                == lookup_opt(devices, k)
                    },
                    None => out == cursor_part && post.registry.devices.view_map()
                        =~= pre.registry.devices.view_map(),
                }
            },
        }
    })
    &&& actions.len() == 0
}

/// What handling a pointer entry leaves behind and hands back: the contract
/// of [`EventsLoop::on_xi_enter`], restated at [`EventsLoop::process_event`].
pub open spec fn xi_enter_outcome<T>(
    pre: EventsLoop,
    post: EventsLoop,
    window: u64,
    device: i32,
    source: i32,
    x: i64,
    y: i64,
    mods: ModifiersState,
    infos: Seq<DeviceInfoData>,
    out: Seq<Event<T>>,
    actions: Seq<XAction>,
) -> bool {
    &&& (post.registry.wf())
    &&& (post.registry.windows == pre.registry.windows)
    &&& (post.dnd == pre.dnd)
    &&& (post.wm_delete_window == pre.wm_delete_window)
    &&& (post.dnd_atoms == pre.dnd_atoms)
    &&& ({
        let devices = pre.registry.devices.view_map();
        match lookup_opt(devices, device_key(source)) {
            Some(dev) => {
                &&& post.registry.devices.view_map().contains_key(device_key(source))
                &&& post.registry.devices.view_map()[device_key(source)].attachment
                    == dev.attachment
                &&& post.registry.devices.view_map()[device_key(source)].scroll_axes@
                    == match info_for(infos, source) {
                    Some(info) => if is_physical(info.device_use) {
                        reset_axes(dev.scroll_axes@, info.classes@)
                    } else {
                        dev.scroll_axes@
                    },
                    None => dev.scroll_axes@,
                }
                &&& forall|k: u64|
                    k != device_key(source)
                        ==> #[trigger] lookup_opt(post.registry.devices.view_map(), k)
                        == lookup_opt(devices, k)
            },
            None => post.registry.devices.view_map() =~= pre.registry.devices.view_map(),
        }
    })
    &&& ({
        out == if pre.registry.windows.view_map().contains_key(window) {
            seq![
                window_event::<T>(window, WindowEvent::CursorEntered { device_id: DeviceId(device) }),
                window_event::<T>(
                    window,
                    WindowEvent::CursorMoved {
                        device_id: DeviceId(device),
                        position: Position { x, y },
                        modifiers: mods,
                    },
                ),
            ]
        } else {
            Seq::<Event<T>>::empty()
        }
    })
    &&& actions.len() == 0
}

/// What handling a raw motion event leaves behind and hands back: the contract
/// of [`EventsLoop::on_xi_raw_motion`], restated at [`EventsLoop::process_event`].
pub open spec fn xi_raw_motion_outcome<T>(
    pre: EventsLoop,
    post: EventsLoop,
    device: i32,
    valuators: Seq<Valuator>,
    out: Seq<Event<T>>,
    actions: Seq<XAction>,
) -> bool {
    &&& (post == pre)
    &&& ({
        let dx = axis_or_zero(valuators, 0);
        let dy = axis_or_zero(valuators, 1);
        let sx = axis_or_zero(valuators, 2);
        let sy = axis_or_zero(valuators, 3);
        let mouse_part: Seq<Event<T>> = if dx != 0 || dy != 0 {
            seq![
                Event::<T>::DeviceEvent {
                    device_id: DeviceId(device),
                    event: DeviceEvent::MouseMotion {
                        delta: Position { x: dx as i64, y: dy as i64 },
                    },
                },
            ]
        } else {
            Seq::empty()
        };
        let wheel_part: Seq<Event<T>> = if sx != 0 || sy != 0 {
            seq![
                Event::<T>::DeviceEvent {
                    device_id: DeviceId(device),
                    event: DeviceEvent::MouseWheel {
                        delta: LineDelta { x_num: sx as i64, y_num: sy as i64, den: 1i64 },
                    },
                },
            ]
        } else {
            Seq::empty()
        };
        out == raw_motions::<T>(device, valuators) + mouse_part + wheel_part
    })
    &&& actions.len() == 0
}

/// What handling a device-hierarchy change leaves behind and hands back: the contract
/// of [`EventsLoop::on_xi_hierarchy`], restated at [`EventsLoop::process_event`].
pub open spec fn xi_hierarchy_outcome<T>(
    pre: EventsLoop,
    post: EventsLoop,
    entries: Seq<HierarchyEntry>,
    out: Seq<Event<T>>,
    actions: Seq<XAction>,
) -> bool {
    &&& (post.registry.wf())
    &&& (post.registry.windows == pre.registry.windows)
    &&& (post.dnd == pre.dnd)
    &&& (post.wm_delete_window == pre.wm_delete_window)
    &&& (post.dnd_atoms == pre.dnd_atoms)
    &&& (out == hierarchy_events::<T>(entries))
    &&& actions.len() == 0
}


impl EventsLoop {
    /// A reparent notification: the window manager may have been replaced,
    /// so its cached info is re-queried; and the window's cached frame
    /// extents are dropped, since the decorations under the new parent may
    /// differ.
    pub fn on_reparent_notify<T>(&mut self, window: u64) -> (r: (Vec<Event<T>>, Vec<XAction>))
        requires
            old(self).registry.wf(),
        ensures
            reparent_outcome(*old(self), *final(self), window, r.0@, r.1@),
    {
        match self.registry.lookup_window(window) {
            Some(d) => {
                self.registry.insert_window(window, WindowData { frame_extents: None, ..d });
            },
            None => {},
        }
        let mut actions: Vec<XAction> = Vec::new();
        actions.push(XAction::UpdateWmInfo);
        proof {
            assert(actions@ =~= seq![XAction::UpdateWmInfo]);
        }
        (Vec::new(), actions)
    }
}

/// What handling a reparent notification leaves behind and hands back:
/// the contract of [`EventsLoop::on_reparent_notify`], restated at
/// [`EventsLoop::process_event`].
pub open spec fn reparent_outcome<T>(
    pre: EventsLoop,
    post: EventsLoop,
    window: u64,
    out: Seq<Event<T>>,
    actions: Seq<XAction>,
) -> bool {
    &&& post.registry.wf()
    &&& post.registry.devices == pre.registry.devices
    &&& post.dnd == pre.dnd
    &&& post.wm_delete_window == pre.wm_delete_window
    &&& post.dnd_atoms == pre.dnd_atoms
    &&& out.len() == 0
    &&& actions == seq![XAction::UpdateWmInfo]
    &&& match lookup_opt(pre.registry.windows.view_map(), window) {
        None => post.registry.windows == pre.registry.windows,
        Some(d) => post.registry.windows.view_map() =~= pre.registry.windows.view_map().insert(
            window,
            WindowData { frame_extents: None, ..d },
        ),
    }
}

/// Whether an event announces a window's destruction.
pub open spec fn is_destroyed_event<T>(e: Event<T>) -> bool {
    e matches Event::WindowEvent { event, .. } && event is Destroyed
}

/// The window an event concerns, if it is a window event.
pub open spec fn event_window<T>(e: Event<T>) -> Option<u64> {
    match e {
        Event::WindowEvent { window_id, .. } => Some(window_id.0),
        _ => None,
    }
}

/// Every event a valuator run produces concerns the window it was
/// dispatched for, and none is a `Destroyed`.
proof fn lemma_valuator_outputs_window<T>(
    window: u64,
    device: i32,
    mods: ModifiersState,
    axes: Seq<(i32, crate::device::ScrollAxis)>,
    vals: Seq<Valuator>,
)
    ensures
        forall|i: int|
            0 <= i < valuator_outputs::<T>(window, device, mods, axes, vals).0.len() ==> ({
                let e = #[trigger] valuator_outputs::<T>(window, device, mods, axes, vals).0[i];
                event_window(e) == Some(window) && !is_destroyed_event(e)
            }),
    decreases vals.len(),
{
    if vals.len() > 0 {
        let v = vals[0];
        let axes1 = match axis_index(axes, v.axis) {
            Some(i) => axes.update(
                i,
                (axes[i].0, crate::device::ScrollAxis { position: v.value, ..axes[i].1 }),
            ),
            None => axes,
        };
        lemma_valuator_outputs_window::<T>(window, device, mods, axes1, vals.drop_first());
    }
}

/// Raw motion announcements are device events.
proof fn lemma_raw_motions_device<T>(device: i32, vals: Seq<Valuator>)
    ensures
        forall|i: int|
            0 <= i < raw_motions::<T>(device, vals).len() ==> (#[trigger] raw_motions::<T>(
                device,
                vals,
            )[i]) is DeviceEvent,
    decreases vals.len(),
{
    if vals.len() > 0 {
        lemma_raw_motions_device::<T>(device, vals.drop_first());
    }
}

/// Hotplug announcements are device events.
proof fn lemma_hierarchy_events_device<T>(entries: Seq<HierarchyEntry>)
    ensures
        forall|i: int|
            0 <= i < hierarchy_events::<T>(entries).len() ==> (#[trigger] hierarchy_events::<T>(
                entries,
            )[i]) is DeviceEvent,
    decreases entries.len(),
{
    if entries.len() > 0 {
        lemma_hierarchy_events_device::<T>(entries.drop_first());
    }
}

impl EventsLoop {
    /// Translates one decoded native event, updating the dispatcher state
    /// and handing back the events to deliver and the operations the
    /// embedder owes the display connection. The branch taken is that of
    /// the matching handler, whose contract pins down each case.
    ///
    /// Whatever the event: a window event is only ever emitted for a window
    /// that was registered when the native event arrived; `Destroyed` for a
    /// window is emitted exactly on the destroy notification that
    /// unregisters it; no native event registers a window; and no lifecycle
    /// or user event is ever produced here.
    pub fn process_event<T>(&mut self, xev: XEventData) -> (r: (Vec<Event<T>>, Vec<XAction>))
        requires
            old(self).registry.wf(),
        ensures
            final(self).registry.wf(),
            ({
                let windows = old(self).registry.windows.view_map();
                match xev {
                    XEventData::DestroyNotify { window } => {
                        &&& final(self).registry.windows.view_map() =~= windows.remove(window)
                        &&& r.0@ == if windows.contains_key(window) {
                            seq![window_event::<T>(window, WindowEvent::Destroyed)]
                        } else {
                            Seq::<Event<T>>::empty()
                        }
                    },
                    _ => final(self).registry.windows.view_map().dom() =~= windows.dom(),
                }
            }),
            forall|i: int|
                0 <= i < r.0@.len() ==> (match event_window(#[trigger] r.0@[i]) {
                    Some(w) => old(self).registry.windows.view_map().contains_key(w),
                    None => true,
                }),
            forall|i: int|
                0 <= i < r.0@.len() ==> (is_destroyed_event(#[trigger] r.0@[i]) ==> ({
                    &&& xev matches XEventData::DestroyNotify { window }
                    &&& event_window(r.0@[i]) == Some(window)
                })),
            forall|i: int| 0 <= i < r.0@.len() ==> is_adapter_delivery(#[trigger] r.0@[i]),
            (xev is MappingNotify ==> (*final(self) == *old(self) && r.0@.len() == 0 && r.1@
                =~= seq![XAction::RefreshKeyboardMapping])),
            (xev matches XEventData::ClientMessage {
                window,
                message_type,
                data0,
                data1,
                data2,
                data3,
                data4,
                property_types,
            } ==> client_message_outcome(
                *old(self),
                *final(self),
                window,
                message_type,
                data0,
                data1,
                data2,
                data3,
                data4,
                property_types,
                r.0@,
                r.1@,
            )),
            (xev matches XEventData::SelectionNotify { requestor, property, data }
                ==> selection_notify_outcome(
                *old(self),
                *final(self),
                requestor,
                property,
                (match data {
                    Some(bytes) => Some(bytes@),
                    None => None::<Seq<u8>>,
                }),
                r.0@,
                r.1@,
            )),
            (xev matches XEventData::ConfigureNotify {
                window,
                x,
                y,
                width,
                height,
                is_synthetic,
                queried_extents,
            } ==> configure_notify_outcome(
                *old(self),
                *final(self),
                window,
                x,
                y,
                width,
                height,
                is_synthetic,
                queried_extents,
                r.0@,
                r.1@,
            )),
            (xev matches XEventData::ReparentNotify { window } ==> reparent_outcome(
                *old(self),
                *final(self),
                window,
                r.0@,
                r.1@,
            )),
            (xev matches XEventData::DestroyNotify { window } ==> destroy_notify_outcome(
                *old(self),
                *final(self),
                window,
                r.0@,
                r.1@,
            )),
            (xev matches XEventData::Expose { window } ==> expose_outcome(
                *old(self),
                *final(self),
                window,
                r.0@,
                r.1@,
            )),
            (xev matches XEventData::KeyInput {
                window,
                pressed,
                keycode,
                state_mask,
                virtual_keycode,
                committed,
            } ==> key_input_outcome(
                *old(self),
                *final(self),
                window,
                pressed,
                keycode,
                state_mask,
                virtual_keycode,
                committed@,
                r.0@,
                r.1@,
            )),
            (xev matches XEventData::XiButton { window, device, pressed, detail, emulated, mods_mask }
                ==> xi_button_outcome(
                *old(self),
                *final(self),
                window,
                device,
                pressed,
                detail,
                emulated,
                mods_mask,
                r.0@,
                r.1@,
            )),
            (xev matches XEventData::XiMotion { window, device, source, x, y, mods_mask, valuators }
                ==> xi_motion_outcome(
                *old(self),
                *final(self),
                window,
                device,
                source,
                x,
                y,
                mods_mask,
                valuators@,
                r.0@,
                r.1@,
            )),
            (xev matches XEventData::XiEnter { window, device, source, x, y, mods, infos }
                ==> xi_enter_outcome(
                *old(self),
                *final(self),
                window,
                device,
                source,
                x,
                y,
                mods,
                infos@,
                r.0@,
                r.1@,
            )),
            (xev matches XEventData::XiLeave { window, device } ==> xi_leave_outcome(
                *old(self),
                *final(self),
                window,
                device,
                r.0@,
                r.1@,
            )),
            (xev matches XEventData::XiFocusIn { window, device, x, y, mods_mask }
                ==> xi_focus_in_outcome(
                *old(self),
                *final(self),
                window,
                device,
                x,
                y,
                mods_mask,
                r.0@,
                r.1@,
            )),
            (xev matches XEventData::XiFocusOut { window } ==> xi_focus_out_outcome(
                *old(self),
                *final(self),
                window,
                r.0@,
                r.1@,
            )),
            (xev matches XEventData::XiTouch { window, device, phase, x, y, id } ==> xi_touch_outcome(
                *old(self),
                *final(self),
                window,
                device,
                phase,
                x,
                y,
                id,
                r.0@,
                r.1@,
            )),
            (xev matches XEventData::XiRawButton { device, detail, pressed, emulated }
                ==> xi_raw_button_outcome(
                *old(self),
                *final(self),
                device,
                detail,
                pressed,
                emulated,
                r.0@,
                r.1@,
            )),
            (xev matches XEventData::XiRawMotion { device, valuators } ==> xi_raw_motion_outcome(
                *old(self),
                *final(self),
                device,
                valuators@,
                r.0@,
                r.1@,
            )),
            (xev matches XEventData::XiRawKey { device, pressed, keycode, virtual_keycode, mods }
                ==> xi_raw_key_outcome(
                *old(self),
                *final(self),
                device,
                pressed,
                keycode,
                virtual_keycode,
                mods,
                r.0@,
                r.1@,
            )),
            (xev matches XEventData::XiHierarchy { entries } ==> xi_hierarchy_outcome(
                *old(self),
                *final(self),
                entries@,
                r.0@,
                r.1@,
            )),
    {
        match xev {
            XEventData::MappingNotify => {
                let mut actions: Vec<XAction> = Vec::new();
                actions.push(XAction::RefreshKeyboardMapping);
                (Vec::new(), actions)
            },
            XEventData::ClientMessage {
                window,
                message_type,
                data0,
                data1,
                data2,
                data3,
                data4,
                property_types,
            } => {
                let r = self.on_client_message(
                    window,
                    message_type,
                    data0,
                    data1,
                    data2,
                    data3,
                    data4,
                    property_types,
                );
                r
            },
            XEventData::SelectionNotify { requestor, property, data } => {
                let out = self.on_selection_notify(requestor, property, data.as_ref());
                (out, Vec::new())
            },
            XEventData::ConfigureNotify { window, x, y, width, height, is_synthetic, queried_extents } => {
                let out = self.on_configure_notify(
                    window,
                    x,
                    y,
                    width,
                    height,
                    is_synthetic,
                    queried_extents,
                );
                (out, Vec::new())
            },
            XEventData::ReparentNotify { window } => self.on_reparent_notify(window),
            XEventData::DestroyNotify { window } => self.on_destroy_notify(window),
            XEventData::Expose { window } => (self.on_expose(window), Vec::new()),
            XEventData::KeyInput { window, pressed, keycode, state_mask, virtual_keycode, committed } => {
                let out = self.on_key_input(
                    window,
                    pressed,
                    keycode,
                    state_mask,
                    virtual_keycode,
                    committed,
                );
                (out, Vec::new())
            },
            XEventData::XiButton { window, device, pressed, detail, emulated, mods_mask } => {
                let out = self.on_xi_button(window, device, pressed, detail, emulated, mods_mask);
                (out, Vec::new())
            },
            XEventData::XiMotion { window, device, source, x, y, mods_mask, valuators } => {
                let ghost windows0 = self.registry.windows.view_map();
                let ghost devices0 = self.registry.devices.view_map();
                let out = self.on_xi_motion(window, device, source, x, y, mods_mask, &valuators);
                proof {
                    match lookup_opt(windows0, window) {
                        Some(d) => {
                            let mods = mods_of_mask(mods_mask);
                            match lookup_opt(devices0, device_key(source)) {
                                Some(dev) => {
                                    lemma_valuator_outputs_window::<T>(
                                        window,
                                        device,
                                        mods,
                                        dev.scroll_axes@,
                                        valuators@,
                                    );
                                },
                                None => {},
                            }
                        },
                        None => {},
                    }
                }
                (out, Vec::new())
            },
            XEventData::XiEnter { window, device, source, x, y, mods, infos } => {
                let out = self.on_xi_enter(window, device, source, x, y, mods, &infos);
                (out, Vec::new())
            },
            XEventData::XiLeave { window, device } => (self.on_xi_leave(window, device), Vec::new()),
            XEventData::XiFocusIn { window, device, x, y, mods_mask } => self.on_xi_focus_in(
                window,
                device,
                x,
                y,
                mods_mask,
            ),
            XEventData::XiFocusOut { window } => self.on_xi_focus_out(window),
            XEventData::XiTouch { window, device, phase, x, y, id } => {
                let out = self.on_xi_touch(window, device, phase, x, y, id);
                (out, Vec::new())
            },
            XEventData::XiRawButton { device, detail, pressed, emulated } => {
                let out = self.on_xi_raw_button(device, detail, pressed, emulated);
                (out, Vec::new())
            },
            XEventData::XiRawMotion { device, valuators } => {
                let out = self.on_xi_raw_motion(device, &valuators);
                proof {
                    lemma_raw_motions_device::<T>(device, valuators@);
                }
                (out, Vec::new())
            },
            XEventData::XiRawKey { device, pressed, keycode, virtual_keycode, mods } => {
                let out = self.on_xi_raw_key(device, pressed, keycode, virtual_keycode, mods);
                (out, Vec::new())
            },
            XEventData::XiHierarchy { entries } => {
                let out = self.on_xi_hierarchy(&entries);
                proof {
                    lemma_hierarchy_events_device::<T>(entries@);
                }
                (out, Vec::new())
            },
        }
    }
}

/// What the dispatcher may deliver: window, device and wakeup events —
/// never a lifecycle or user event, which only the runner and the channel
/// drain produce.
pub open spec fn is_adapter_delivery<T>(e: Event<T>) -> bool {
    &&& !(e is NewEvents)
    &&& !(e is EventsCleared)
    &&& !(e is LoopDestroyed)
    &&& !(e is UserEvent)
}


/// One dispatch step, abstracted to what the dispatcher's contract
/// guarantees of it: how the registered-window set moves, that events only
/// concern windows registered before the step, and that `Destroyed` comes
/// exactly from the destroy notification that unregisters the window.
pub open spec fn dispatch_step_ok<T>(
    windows_before: Set<u64>,
    xev: XEventData,
    out: Seq<Event<T>>,
    windows_after: Set<u64>,
) -> bool {
    &&& (match xev {
        XEventData::DestroyNotify { window } => {
            &&& windows_after == windows_before.remove(window)
            &&& out == if windows_before.contains(window) {
                seq![window_event::<T>(window, WindowEvent::Destroyed)]
            } else {
                Seq::<Event<T>>::empty()
            }
        },
        _ => windows_after == windows_before,
    })
    &&& forall|i: int|
        0 <= i < out.len() ==> (match event_window(#[trigger] out[i]) {
            Some(w) => windows_before.contains(w),
            None => true,
        })
    &&& forall|i: int|
        0 <= i < out.len() ==> (is_destroyed_event(#[trigger] out[i]) ==> ({
            &&& xev matches XEventData::DestroyNotify { window }
            &&& event_window(out[i]) == Some(window)
        }))
}

/// One record of a dispatch session: the native event and what came out.
pub struct DispatchRecord<T> {
    pub xev: XEventData,
    pub out: Seq<Event<T>>,
}

/// A session: each step satisfies the dispatcher's contract, the window
/// sets chaining through.
pub open spec fn session_ok<T>(trace: Seq<DispatchRecord<T>>, wsets: Seq<Set<u64>>) -> bool {
    &&& wsets.len() == trace.len() + 1
    &&& forall|i: int|
        0 <= i < trace.len() ==> dispatch_step_ok(
            #[trigger] wsets[i],
            trace[i].xev,
            trace[i].out,
            wsets[i + 1],
        )
}

/// How many `Destroyed` announcements for one window a stream holds.
pub open spec fn destroyed_count<T>(out: Seq<Event<T>>, w: u64) -> int
    decreases out.len(),
{
    if out.len() == 0 {
        0
    } else {
        (if is_destroyed_event(out[0]) && event_window(out[0]) == Some(w) {
            1int
        } else {
            0int
        }) + destroyed_count(out.drop_first(), w)
    }
}

/// How many `Destroyed` announcements for one window a session holds.
pub open spec fn session_destroyed_count<T>(trace: Seq<DispatchRecord<T>>, w: u64) -> int
    decreases trace.len(),
{
    if trace.len() == 0 {
        0
    } else {
        destroyed_count(trace[0].out, w) + session_destroyed_count(trace.drop_first(), w)
    }
}

/// Whether a stream holds any event for one window.
pub open spec fn has_event_for<T>(out: Seq<Event<T>>, w: u64) -> bool {
    exists|i: int| 0 <= i < out.len() && event_window(#[trigger] out[i]) == Some(w)
}

proof fn lemma_destroyed_count_bound<T>(out: Seq<Event<T>>, w: u64)
    ensures
        0 <= destroyed_count(out, w),
        !has_event_for(out, w) ==> destroyed_count(out, w) == 0,
    decreases out.len(),
{
    if out.len() > 0 {
        lemma_destroyed_count_bound(out.drop_first(), w);
        if is_destroyed_event(out[0]) && event_window(out[0]) == Some(w) {
            assert(has_event_for(out, w));
        }
        if has_event_for(out.drop_first(), w) {
            let i = choose|i: int|
                0 <= i < out.drop_first().len() && event_window(#[trigger] out.drop_first()[i])
                    == Some(w);
            assert(out[i + 1] == out.drop_first()[i]);
            assert(has_event_for(out, w));
        }
    }
}

/// Once a window is unregistered, no event for it appears anywhere in the
/// rest of the session, and in particular no further `Destroyed`.
proof fn lemma_session_silent_after<T>(trace: Seq<DispatchRecord<T>>, wsets: Seq<Set<u64>>, w: u64)
    requires
        session_ok(trace, wsets),
        !wsets[0].contains(w),
    ensures
        session_destroyed_count(trace, w) == 0,
        forall|i: int| 0 <= i < trace.len() ==> !has_event_for(#[trigger] trace[i].out, w),
        !wsets[trace.len() as int].contains(w),
    decreases trace.len(),
{
    if trace.len() > 0 {
        assert(dispatch_step_ok(wsets[0], trace[0].xev, trace[0].out, wsets[1]));
        assert(!has_event_for(trace[0].out, w)) by {
            if has_event_for(trace[0].out, w) {
                let i = choose|i: int|
                    0 <= i < trace[0].out.len() && event_window(#[trigger] trace[0].out[i]) == Some(w);
                assert(wsets[0].contains(w));
            }
        }
        lemma_destroyed_count_bound(trace[0].out, w);
        assert(!wsets[1].contains(w)) by {
            match trace[0].xev {
                XEventData::DestroyNotify { window } => {},
                _ => {},
            }
        }
        assert(session_ok(trace.drop_first(), wsets.drop_first())) by {
            assert(forall|i: int|
                0 <= i < trace.drop_first().len() ==> dispatch_step_ok(
                    #[trigger] wsets.drop_first()[i],
                    trace.drop_first()[i].xev,
                    trace.drop_first()[i].out,
                    wsets.drop_first()[i + 1],
                )) by {
                assert(forall|i: int|
                    0 <= i < trace.drop_first().len() ==> trace.drop_first()[i] == trace[i + 1]
                        && #[trigger] wsets.drop_first()[i] == wsets[i + 1] && wsets.drop_first()[i
                        + 1] == wsets[i + 2]);
            }
        }
        lemma_session_silent_after(trace.drop_first(), wsets.drop_first(), w);
        assert forall|i: int| 0 <= i < trace.len() implies !has_event_for(
            #[trigger] trace[i].out,
            w,
        ) by {
            if i > 0 {
                assert(trace.drop_first()[i - 1] == trace[i]);
            }
        }
    }
}

/// For a window registered at the start of a session, the delivered stream
/// holds exactly one `Destroyed` for it when the session unregisters it and
/// none while it stays registered; and after the step that destroys it, no
/// event for it appears again.
pub proof fn lemma_destroyed_once<T>(trace: Seq<DispatchRecord<T>>, wsets: Seq<Set<u64>>, w: u64)
    requires
        session_ok(trace, wsets),
        wsets[0].contains(w),
    ensures
        session_destroyed_count(trace, w) == if wsets[trace.len() as int].contains(w) {
            0int
        } else {
            1int
        },
        forall|i: int, j: int|
            0 <= i < trace.len() && destroyed_count(#[trigger] trace[i].out, w) > 0 && i < j
                < trace.len() ==> !has_event_for(#[trigger] trace[j].out, w),
    decreases trace.len(),
{
    if trace.len() == 0 {
    } else {
        assert(dispatch_step_ok(wsets[0], trace[0].xev, trace[0].out, wsets[1]));
        let head_destroys = !wsets[1].contains(w);
        assert(session_ok(trace.drop_first(), wsets.drop_first())) by {
            assert(forall|i: int|
                0 <= i < trace.drop_first().len() ==> dispatch_step_ok(
                    #[trigger] wsets.drop_first()[i],
                    trace.drop_first()[i].xev,
                    trace.drop_first()[i].out,
                    wsets.drop_first()[i + 1],
                )) by {
                assert(forall|i: int|
                    0 <= i < trace.drop_first().len() ==> trace.drop_first()[i] == trace[i + 1]
                        && #[trigger] wsets.drop_first()[i] == wsets[i + 1] && wsets.drop_first()[i
                        + 1] == wsets[i + 2]);
            }
        }
        assert(wsets.drop_first()[trace.drop_first().len() as int] == wsets[trace.len() as int]);
        if head_destroys {
            // The head step is the destroy notification for this window.
            assert(trace[0].xev matches XEventData::DestroyNotify { window } && window == w);
            assert(trace[0].out == seq![window_event::<T>(w, WindowEvent::Destroyed)]);
            assert(destroyed_count(trace[0].out, w) == 1) by {
                assert(trace[0].out.len() == 1);
                assert(trace[0].out[0] == window_event::<T>(w, WindowEvent::Destroyed));
                assert(trace[0].out.drop_first() =~= Seq::<Event<T>>::empty());
                assert(destroyed_count(trace[0].out.drop_first(), w) == 0);
                assert(is_destroyed_event(trace[0].out[0]));
                assert(event_window(trace[0].out[0]) == Some(w));
            }
            lemma_session_silent_after(trace.drop_first(), wsets.drop_first(), w);
            assert(session_destroyed_count(trace, w) == destroyed_count(trace[0].out, w)
                + session_destroyed_count(trace.drop_first(), w));
            assert(!wsets[trace.len() as int].contains(w));
        } else {
            assert(destroyed_count(trace[0].out, w) == 0) by {
                lemma_count_zero_without_destroy_for(trace[0].out, trace[0].xev, wsets[0], wsets[1], w);
            }
            lemma_destroyed_once(trace.drop_first(), wsets.drop_first(), w);
            assert(session_destroyed_count(trace, w) == destroyed_count(trace[0].out, w)
                + session_destroyed_count(trace.drop_first(), w));
        }
        assert forall|i: int, j: int|
            0 <= i < trace.len() && destroyed_count(#[trigger] trace[i].out, w) > 0 && i < j
                < trace.len() implies !has_event_for(#[trigger] trace[j].out, w) by {
            if head_destroys {
                if i == 0 {
                    lemma_session_silent_after(trace.drop_first(), wsets.drop_first(), w);
                    assert(trace.drop_first()[j - 1] == trace[j]);
                } else {
                    lemma_session_silent_after(trace.drop_first(), wsets.drop_first(), w);
                    assert(trace.drop_first()[i - 1] == trace[i]);
                    lemma_destroyed_count_bound(trace[i].out, w);
                }
            } else {
                if i == 0 {
                    assert(destroyed_count(trace[0].out, w) == 0) by {
                        lemma_count_zero_without_destroy_for(
                            trace[0].out,
                            trace[0].xev,
                            wsets[0],
                            wsets[1],
                            w,
                        );
                    }
                } else {
                    assert(trace.drop_first()[i - 1] == trace[i]);
                    assert(trace.drop_first()[j - 1] == trace[j]);
                }
            }
        }
    }
}

/// A step whose window set keeps the window delivers no `Destroyed` for it.
proof fn lemma_count_zero_without_destroy_for<T>(
    out: Seq<Event<T>>,
    xev: XEventData,
    before: Set<u64>,
    after: Set<u64>,
    w: u64,
)
    requires
        dispatch_step_ok(before, xev, out, after),
        before.contains(w),
        after.contains(w),
    ensures
        destroyed_count(out, w) == 0,
{
    lemma_count_zero_helper(out, xev, w);
    match xev {
        XEventData::DestroyNotify { window } => {
            assert(window != w);
        },
        _ => {},
    }
}

proof fn lemma_count_zero_helper<T>(out: Seq<Event<T>>, xev: XEventData, w: u64)
    requires
        forall|i: int|
            0 <= i < out.len() ==> (is_destroyed_event(#[trigger] out[i]) ==> ({
                &&& xev matches XEventData::DestroyNotify { window }
                &&& event_window(out[i]) == Some(window)
            })),
        !(xev matches XEventData::DestroyNotify { window } && window == w),
    ensures
        destroyed_count(out, w) == 0,
    decreases out.len(),
{
    if out.len() > 0 {
        assert(forall|i: int|
            0 <= i < out.drop_first().len() ==> out.drop_first()[i] == out[i + 1]);
        lemma_count_zero_helper(out.drop_first(), xev, w);
    }
}

} // verus!
