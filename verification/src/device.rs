//! Per-device state: the paired-device attachment and the scroll-axis
//! accumulators from which wheel deltas are derived.
//!
//! A scroll axis reports an absolute position; the delta of one motion is
//! the movement divided by the axis increment, and a vertical movement is
//! negated so that positive deltas mean scroll-up, the canonical convention.
//! Axis positions and increments are carried in the device's raw units as
//! `i32`; the delta keeps the exact ratio.

use vstd::prelude::*;

use crate::event::LineDelta;

verus! {

#[derive(Debug, Clone, Copy, PartialEq, Eq, Structural)]
pub enum ScrollOrientation {
    Vertical,
    Horizontal,
}

/// One scroll axis of a physical device: the whole-line increment and the
/// absolute accumulator position, reset whenever the device re-enters.
#[derive(Debug, Clone, Copy, PartialEq, Eq, Structural)]
pub struct ScrollAxis {
    pub increment: i32,
    pub orientation: ScrollOrientation,
    pub position: i32,
}

/// How a device hangs in the input hierarchy.
#[derive(Debug, Clone, Copy, PartialEq, Eq, Structural)]
pub enum DeviceUse {
    MasterKeyboard,
    MasterPointer,
    SlaveKeyboard,
    SlavePointer,
    FloatingSlave,
}

/// One class record of a device description, as decoded from the platform's
/// device query.
#[derive(Debug, Clone, Copy, PartialEq, Eq, Structural)]
pub enum DeviceClass {
    Scroll { number: i32, orientation: ScrollOrientation, increment: i32 },
    Valuator { number: i32, value: i32 },
    OtherClass,
}

/// A device description, as decoded from the platform's device query.
#[derive(Debug, Clone)]
pub struct DeviceInfoData {
    pub deviceid: i32,
    pub attachment: i32,
    pub device_use: DeviceUse,
    pub name: String,
    pub classes: Vec<DeviceClass>,
}

/// A physical device is one that produces raw input itself rather than
/// aggregating others.
pub open spec fn is_physical(device_use: DeviceUse) -> bool {
    ||| device_use is SlaveKeyboard
    ||| device_use is SlavePointer
    ||| device_use is FloatingSlave
}

/// The scroll axes a device description declares, in order: every scroll
/// class with a usable (nonzero) increment, at position 0.
pub open spec fn axes_of_classes(classes: Seq<DeviceClass>) -> Seq<(i32, ScrollAxis)>
    decreases classes.len(),
{
    if classes.len() == 0 {
        Seq::empty()
    } else {
        let rest = axes_of_classes(classes.drop_first());
        match classes[0] {
            DeviceClass::Scroll { number, orientation, increment } => if increment != 0 {
                seq![
                    (number, ScrollAxis { increment, orientation, position: 0i32 }),
                ] + rest
            } else {
                rest
            },
            _ => rest,
        }
    }
}

/// The index of the first axis entry with the given axis number.
pub open spec fn axis_index(axes: Seq<(i32, ScrollAxis)>, number: i32) -> Option<int>
    decreases axes.len(),
{
    if axes.len() == 0 {
        None
    } else if axes[0].0 == number {
        Some(0int)
    } else {
        match axis_index(axes.drop_first(), number) {
            Some(i) => Some(i + 1),
            None => None,
        }
    }
}

/// A found axis index points inside the list, at that axis number.
pub proof fn lemma_axis_index_bounds(axes: Seq<(i32, ScrollAxis)>, number: i32)
    ensures
        axis_index(axes, number) matches Some(i) ==> 0 <= i < axes.len() && axes[i].0 == number,
    decreases axes.len(),
{
    if axes.len() > 0 && axes[0].0 != number {
        lemma_axis_index_bounds(axes.drop_first(), number);
    }
}

/// The axes after one class record has been applied: a valuator class
/// rewrites the accumulator of its axis, any other class changes nothing.
pub open spec fn reset_step(axes: Seq<(i32, ScrollAxis)>, class: DeviceClass) -> Seq<(i32, ScrollAxis)> {
    match class {
        DeviceClass::Valuator { number, value } => match axis_index(axes, number) {
            Some(i) => axes.update(i, (axes[i].0, ScrollAxis { position: value, ..axes[i].1 })),
            None => axes,
        },
        _ => axes,
    }
}

/// The axes after the accumulators have been reset from the valuator values
/// of a device description.
pub open spec fn reset_axes(axes: Seq<(i32, ScrollAxis)>, classes: Seq<DeviceClass>) -> Seq<(i32, ScrollAxis)>
    decreases classes.len(),
{
    if classes.len() == 0 {
        axes
    } else {
        reset_axes(reset_step(axes, classes[0]), classes.drop_first())
    }
}

/// Per-device state kept by the dispatcher.
#[derive(Debug, Clone)]
pub struct Device {
    pub name: String,
    pub scroll_axes: Vec<(i32, ScrollAxis)>,
    /// For master devices, the paired device (pointer <-> keyboard); for
    /// slave devices, the master.
    pub attachment: i32,
}

impl Device {
    /// Builds the state for a freshly seen device: scroll axes are
    /// identified on physical devices only, and their accumulators start at
    /// the current valuator values.
    pub fn new(info: &DeviceInfoData) -> (d: Device)
        ensures
            d.attachment == info.attachment,
            d.name@ == info.name@,
            is_physical(info.device_use) ==> d.scroll_axes@ == reset_axes(
                axes_of_classes(info.classes@),
                info.classes@,
            ),
            !is_physical(info.device_use) ==> d.scroll_axes@ == Seq::<(i32, ScrollAxis)>::empty(),
    {
        let mut scroll_axes: Vec<(i32, ScrollAxis)> = Vec::new();
        if physical_device(info) {
            let n = info.classes.len();
            let mut k: usize = 0;
            while k < n
                invariant
                    n == info.classes@.len(),
                    0 <= k <= n,
                    scroll_axes@ =~= axes_of_classes(info.classes@.take(k as int)),
                decreases n - k,
            {
                let ghost taken_before = info.classes@.take(k as int);
                if let DeviceClass::Scroll { number, orientation, increment } = info.classes[k] {
                    if increment != 0 {
                        scroll_axes.push((number, ScrollAxis { increment, orientation, position: 0 }));
                    }
                }
                k = k + 1;
                proof {
                    lemma_axes_of_classes_take_step(info.classes@, k as int);
                }
            }
            proof {
                assert(info.classes@.take(n as int) =~= info.classes@);
            }
        }
        let mut device = Device {
            name: info.name.clone(),
            scroll_axes,
            attachment: info.attachment,
        };
        device.reset_scroll_position(info);
        device
    }

    /// Re-reads the accumulator of every declared scroll axis from the
    /// device description's current valuator values, as is done when the
    /// device enters or is reinitialized.
    pub fn reset_scroll_position(&mut self, info: &DeviceInfoData)
        ensures
            is_physical(info.device_use) ==> final(self).scroll_axes@ == reset_axes(
                old(self).scroll_axes@,
                info.classes@,
            ),
            !is_physical(info.device_use) ==> final(self).scroll_axes@ == old(self).scroll_axes@,
            final(self).name == old(self).name,
            final(self).attachment == old(self).attachment,
    {
        if physical_device(info) {
            let n = info.classes.len();
            let mut k: usize = 0;
            while k < n
                invariant
                    n == info.classes@.len(),
                    0 <= k <= n,
                    self.scroll_axes@ == reset_axes(old(self).scroll_axes@, info.classes@.take(k as int)),
                    self.name == old(self).name,
                    self.attachment == old(self).attachment,
                decreases n - k,
            {
                let ghost axes_before = self.scroll_axes@;
                if let DeviceClass::Valuator { number, value } = info.classes[k] {
                    if let Some(i) = self.find_axis(number) {
                        let entry = self.scroll_axes[i];
                        self.scroll_axes.set(
                            i,
                            (entry.0, ScrollAxis { position: value, ..entry.1 }),
                        );
                    }
                }
                k = k + 1;
                proof {
                    lemma_reset_axes_take_step(old(self).scroll_axes@, info.classes@, k as int);
                    assert(self.scroll_axes@ =~= reset_step(axes_before, info.classes@[k - 1]));
                }
            }
            proof {
                assert(info.classes@.take(n as int) =~= info.classes@);
            }
        }
    }

    /// The index of the first axis entry for the given axis number, if the
    /// device scrolls on it.
    pub fn find_axis(&self, number: i32) -> (r: Option<usize>)
        ensures
            match r {
                Some(i) => axis_index(self.scroll_axes@, number) == Some(i as int) && i
                    < self.scroll_axes@.len(),
                None => axis_index(self.scroll_axes@, number) is None,
            },
    {
        let n = self.scroll_axes.len();
        let mut k: usize = 0;
        proof {
            assert(self.scroll_axes@.skip(0) =~= self.scroll_axes@);
        }
        while k < n
            invariant
                n == self.scroll_axes@.len(),
                0 <= k <= n,
                forall|j: int| 0 <= j < k ==> #[trigger] self.scroll_axes@[j].0 != number,
                axis_index(self.scroll_axes@.skip(k as int), number) == match axis_index(
                    self.scroll_axes@,
                    number,
                ) {
                    Some(i) => Some(i - k),
                    None => None::<int>,
                },
            decreases n - k,
        {
            if self.scroll_axes[k].0 == number {
                return Some(k);
            }
            proof {
                assert(self.scroll_axes@.skip(k as int).drop_first() =~= self.scroll_axes@.skip(k + 1));
            }
            k = k + 1;
        }
        proof {
            assert(self.scroll_axes@.skip(n as int) =~= Seq::<(i32, ScrollAxis)>::empty());
        }
        None
    }
}

/// The exact wheel delta of one valuator report on a scroll axis: the
/// movement over the increment, with a vertical movement negated to the
/// canonical scroll-up-positive convention.
pub open spec fn scroll_line_delta(axis: ScrollAxis, value: i32) -> LineDelta {
    let diff = value - axis.position;
    match axis.orientation {
        ScrollOrientation::Horizontal => LineDelta {
            x_num: diff as i64,
            y_num: 0i64,
            den: axis.increment as i64,
        },
        ScrollOrientation::Vertical => LineDelta {
            x_num: 0i64,
            y_num: -diff as i64,
            den: axis.increment as i64,
        },
    }
}

impl Device {
    /// Applies one valuator report. On a scroll axis, the accumulator moves
    /// to the reported position and the exact delta comes back; on any
    /// other axis the device is unchanged and the caller reports the raw
    /// axis motion instead.
    pub fn scroll_delta(&mut self, axis: i32, value: i32) -> (r: Option<LineDelta>)
        ensures
            final(self).name == old(self).name,
            final(self).attachment == old(self).attachment,
            match axis_index(old(self).scroll_axes@, axis) {
                Some(i) => {
                    &&& r == Some(scroll_line_delta(old(self).scroll_axes@[i].1, value))
                    &&& final(self).scroll_axes@ == old(self).scroll_axes@.update(
                        i,
                        (
                            old(self).scroll_axes@[i].0,
                            ScrollAxis { position: value, ..old(self).scroll_axes@[i].1 },
                        ),
                    )
                },
                None => r is None && final(self).scroll_axes@ == old(self).scroll_axes@,
            },
    {
        if let Some(i) = self.find_axis(axis) {
            let entry = self.scroll_axes[i];
            let diff: i64 = (value as i64) - (entry.1.position as i64);
            let delta = match entry.1.orientation {
                ScrollOrientation::Horizontal => LineDelta {
                    x_num: diff,
                    y_num: 0,
                    den: entry.1.increment as i64,
                },
                ScrollOrientation::Vertical => LineDelta {
                    x_num: 0,
                    y_num: -diff,
                    den: entry.1.increment as i64,
                },
            };
            self.scroll_axes.set(i, (entry.0, ScrollAxis { position: value, ..entry.1 }));
            Some(delta)
        } else {
            None
        }
    }
}

/// The movements of a session on one axis: each value's offset from the
/// accumulator the previous value left behind.
pub open spec fn session_movements(init: int, values: Seq<i32>) -> Seq<int>
    decreases values.len(),
{
    if values.len() == 0 {
        Seq::empty()
    } else {
        seq![values[0] - init] + session_movements(values[0] as int, values.drop_first())
    }
}

/// The sum of a sequence of integers.
pub open spec fn sum_seq(s: Seq<int>) -> int
    decreases s.len(),
{
    if s.len() == 0 {
        0
    } else {
        s[0] + sum_seq(s.drop_first())
    }
}

/// Over a session on one scroll axis, the emitted deltas sum to the whole
/// movement: with the accumulator starting at `init` and the axis reporting
/// `values` in turn, the numerators of the deltas that `scroll_delta`
/// returns sum to `values.last() - init` — that is, to (final − initial) —
/// each over the same increment, and a vertical axis negates every
/// numerator alike.
pub proof fn lemma_scroll_session_sum(init: int, values: Seq<i32>)
    requires
        values.len() > 0,
    ensures
        sum_seq(session_movements(init, values)) == values.last() - init,
    decreases values.len(),
{
    let movements = session_movements(init, values);
    let rest = session_movements(values[0] as int, values.drop_first());
    assert(movements == seq![values[0] - init] + rest);
    assert(movements[0] == values[0] - init);
    assert(movements.drop_first() =~= rest);
    if values.len() == 1 {
        assert(rest =~= Seq::<int>::empty());
        assert(sum_seq(movements) == movements[0] + sum_seq(movements.drop_first()));
    } else {
        lemma_scroll_session_sum(values[0] as int, values.drop_first());
        assert(values.drop_first().last() == values.last());
        assert(sum_seq(movements) == movements[0] + sum_seq(movements.drop_first()));
    }
}

/// Whether a device description names a physical device.
pub fn physical_device(info: &DeviceInfoData) -> (r: bool)
    ensures
        r == is_physical(info.device_use),
{
    match info.device_use {
        DeviceUse::SlaveKeyboard => true,
        DeviceUse::SlavePointer => true,
        DeviceUse::FloatingSlave => true,
        _ => false,
    }
}

proof fn lemma_axes_of_classes_take_step(classes: Seq<DeviceClass>, k: int)
    requires
        0 < k <= classes.len(),
    ensures
        axes_of_classes(classes.take(k)) == match classes[k - 1] {
            DeviceClass::Scroll { number, orientation, increment } => if increment != 0 {
                axes_of_classes(classes.take(k - 1)) + seq![
                    (number, ScrollAxis { increment, orientation, position: 0i32 }),
                ]
            } else {
                axes_of_classes(classes.take(k - 1))
            },
            _ => axes_of_classes(classes.take(k - 1)),
        },
    decreases k,
{
    if k == 1 {
        assert(classes.take(1).drop_first() =~= classes.take(0));
        assert(axes_of_classes(classes.take(0)) =~= Seq::<(i32, ScrollAxis)>::empty());
        assert(axes_of_classes(classes.take(1)) =~= match classes[0] {
            DeviceClass::Scroll { number, orientation, increment } => if increment != 0 {
                axes_of_classes(classes.take(0)) + seq![
                    (number, ScrollAxis { increment, orientation, position: 0i32 }),
                ]
            } else {
                axes_of_classes(classes.take(0))
            },
            _ => axes_of_classes(classes.take(0)),
        });
    } else {
        lemma_axes_of_classes_take_step(classes.drop_first(), k - 1);
        assert(classes.take(k).drop_first() =~= classes.drop_first().take(k - 1));
        assert(classes.take(k - 1).drop_first() =~= classes.drop_first().take(k - 2));
        assert(axes_of_classes(classes.take(k)) =~= match classes[k - 1] {
            DeviceClass::Scroll { number, orientation, increment } => if increment != 0 {
                axes_of_classes(classes.take(k - 1)) + seq![
                    (number, ScrollAxis { increment, orientation, position: 0i32 }),
                ]
            } else {
                axes_of_classes(classes.take(k - 1))
            },
            _ => axes_of_classes(classes.take(k - 1)),
        });
    }
}

proof fn lemma_reset_axes_take_step(axes: Seq<(i32, ScrollAxis)>, classes: Seq<DeviceClass>, k: int)
    requires
        0 < k <= classes.len(),
    ensures
        reset_axes(axes, classes.take(k)) == reset_step(
            reset_axes(axes, classes.take(k - 1)),
            classes[k - 1],
        ),
    decreases k,
{
    if k == 1 {
        assert(classes.take(1).drop_first() =~= classes.take(0));
        assert(reset_axes(axes, classes.take(0)) == axes);
        assert(classes.take(1)[0] == classes[0]);
        assert(reset_axes(axes, classes.take(1)) == reset_axes(
            reset_step(axes, classes[0]),
            classes.take(1).drop_first(),
        ));
    } else {
        let once = reset_step(axes, classes[0]);
        lemma_reset_axes_take_step(once, classes.drop_first(), k - 1);
        assert(classes.take(k).drop_first() =~= classes.drop_first().take(k - 1));
        assert(classes.take(k - 1).drop_first() =~= classes.drop_first().take(k - 2));
        assert(classes.take(k)[0] == classes[0]);
        assert(classes.take(k - 1)[0] == classes[0]);
        assert(reset_axes(axes, classes.take(k)) == reset_axes(once, classes.drop_first().take(k - 1)));
        assert(reset_axes(axes, classes.take(k - 1)) == reset_axes(once, classes.drop_first().take(k - 2)));
    }
}

} // verus!
