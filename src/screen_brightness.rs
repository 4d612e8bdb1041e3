use vstd::prelude::*;

use crate::policy::{LevelPolicy, plan_adjust, write_plan};

verus! {

/// Percentage of the maximum brightness that an ambient-light value asks for:
/// more light, a brighter screen.
pub open spec fn spec_base_percent(value: u32) -> u32 {
    if value < 1 {
        2
    } else if value < 5 {
        4
    } else if value < 10 {
        6
    } else if value < 20 {
        7
    } else if value < 30 {
        8
    } else if value < 40 {
        9
    } else if value < 50 {
        10
    } else if value < 60 {
        20
    } else if value < 70 {
        35
    } else if value < 80 {
        40
    } else {
        50
    }
}

/// A percentage moved by a signed offset, saturating at both ends of `u32`.
pub open spec fn spec_offset_percent(pct: u32, offset: i8) -> u32 {
    let sum = pct as int + offset as int;
    if sum < 0 {
        0
    } else if sum > u32::MAX as int {
        u32::MAX
    } else {
        sum as u32
    }
}

/// Hardware level for a percentage of `max`: rounded down, at least 1 for any
/// non-zero percentage, and never above `max`.
pub open spec fn spec_pct_to_level(pct: u32, max: u32) -> u32 {
    let raw = pct as int * max as int / 100;
    let level = if pct == 0 {
        0
    } else if raw < 1 {
        1
    } else {
        raw
    };
    if level > max as int {
        max
    } else {
        level as u32
    }
}

/// Screen level for an ambient-light value, a device maximum and an offset.
pub open spec fn spec_screen_level(value: u32, max: u32, offset: i8) -> u32 {
    spec_pct_to_level(spec_offset_percent(spec_base_percent(value), offset), max)
}

/// Percentage of the maximum brightness for an ambient-light value.
pub fn base_percent(value: u32) -> (r: u32)
    ensures
        r == spec_base_percent(value),
        2 <= r <= 50,
{
    if value < 1 {
        2
    } else if value < 5 {
        4
    } else if value < 10 {
        6
    } else if value < 20 {
        7
    } else if value < 30 {
        8
    } else if value < 40 {
        9
    } else if value < 50 {
        10
    } else if value < 60 {
        20
    } else if value < 70 {
        35
    } else if value < 80 {
        40
    } else {
        50
    }
}

/// Adds a signed offset in percentage points to `pct`, saturating at `u32::MAX`
/// above and at 0 below.
pub fn apply_offset(pct: u32, offset: i8) -> (r: u32)
    ensures
        r == spec_offset_percent(pct, offset),
{
    if offset == 0 {
        pct
    } else if offset > 0 {
        pct.saturating_add(offset as u32)
    } else {
        let magnitude: u32 = (0i32 - offset as i32) as u32;
        pct.saturating_sub(magnitude)
    }
}

/// The base percentage never falls as the ambient-light value rises.
pub proof fn lemma_base_percent_monotonic(a: u32, b: u32)
    requires
        a <= b,
    ensures
        spec_base_percent(a) <= spec_base_percent(b),
{
}

/// Moving a percentage by an offset saturates instead of wrapping: a
/// non-negative offset never lowers it, and pins it at `u32::MAX` where the sum
/// would pass it; a negative offset never raises it, and one at least as large
/// as the percentage brings it to 0.
pub proof fn lemma_offset_saturates(pct: u32, offset: i8)
    ensures
        offset >= 0 ==> spec_offset_percent(pct, offset) >= pct,
        offset >= 0 && pct as int + offset as int > u32::MAX as int ==> spec_offset_percent(
            pct,
            offset,
        ) == u32::MAX,
        offset < 0 ==> spec_offset_percent(pct, offset) <= pct,
        pct as int + offset as int <= 0 ==> spec_offset_percent(pct, offset) == 0,
{
}

/// Converting a percentage to a level: 0 percent gives level 0; on a device
/// whose maximum is at least 1, any other percentage gives at least level 1,
/// also where the rounded-down product is 0; and no percentage, however far
/// above 100, gives a level above the maximum.
pub proof fn lemma_pct_to_level_bounds(pct: u32, max: u32)
    ensures
        pct == 0 ==> spec_pct_to_level(pct, max) == 0,
        pct > 0 && max >= 1 && pct as int * max as int / 100 == 0 ==> spec_pct_to_level(pct, max)
            == 1,
        pct > 0 && max >= 1 ==> spec_pct_to_level(pct, max) >= 1,
        spec_pct_to_level(pct, max) <= max,
{
}

/// Raising the offset by `amount` and then lowering it by the same amount
/// gives back the original offset, and with it the original adjustment for
/// every value and every level read from the device.
pub proof fn lemma_increase_decrease_restores(
    start: ScreenBrightness,
    raised: ScreenBrightness,
    restored: ScreenBrightness,
    amount: i8,
    value: u32,
    current: u32,
)
    requires
        raised.same_device(&start),
        raised.spec_offset() == start.spec_offset() + amount,
        restored.same_device(&raised),
        restored.spec_offset() == raised.spec_offset() - amount,
    ensures
        restored.spec_offset() == start.spec_offset(),
        restored.same_device(&start),
        write_plan(current, restored.spec_target_level(value)) == write_plan(
            current,
            start.spec_target_level(value),
        ),
{
}

/// Controller of a screen backlight: a step table from ambient light to a
/// percentage, a user offset in percentage points, and the device maximum.
pub struct ScreenBrightness {
    subsystem: String,
    name: String,
    max_brightness: u32,
    offset: i8,
}

impl ScreenBrightness {
    pub closed spec fn spec_subsystem(&self) -> Seq<char> {
        self.subsystem@
    }

    pub closed spec fn spec_name(&self) -> Seq<char> {
        self.name@
    }

    pub closed spec fn spec_max_brightness(&self) -> u32 {
        self.max_brightness
    }

    pub closed spec fn spec_offset(&self) -> i8 {
        self.offset
    }

    /// Both controllers drive the same device with the same maximum.
    pub open spec fn same_device(&self, other: &ScreenBrightness) -> bool {
        &&& self.spec_subsystem() == other.spec_subsystem()
        &&& self.spec_name() == other.spec_name()
        &&& self.spec_max_brightness() == other.spec_max_brightness()
    }

    /// A controller for device `name` of class `subsystem`, whose maximum
    /// level is `max_brightness`, with no offset.
    pub fn new(subsystem: String, name: String, max_brightness: u32) -> (r: Self)
        ensures
            r.spec_subsystem() == subsystem@,
            r.spec_name() == name@,
            r.spec_max_brightness() == max_brightness,
            r.spec_offset() == 0,
    {
        ScreenBrightness { subsystem, name, max_brightness, offset: 0 }
    }

    pub fn subsystem(&self) -> (r: &str)
        ensures
            r@ == self.spec_subsystem(),
    {
        self.subsystem.as_str()
    }

    pub fn name(&self) -> (r: &str)
        ensures
            r@ == self.spec_name(),
    {
        self.name.as_str()
    }

    pub fn max_brightness(&self) -> (r: u32)
        ensures
            r == self.spec_max_brightness(),
    {
        self.max_brightness
    }

    pub fn offset(&self) -> (r: i8)
        ensures
            r == self.spec_offset(),
    {
        self.offset
    }

    /// Hardware level for a percentage of this device's maximum.
    pub fn pct_to_brightness(&self, pct: u32) -> (r: u32)
        ensures
            r == spec_pct_to_level(pct, self.spec_max_brightness()),
    {
        if pct == 0 {
            return 0;
        }
        let max = self.max_brightness as u64;
        assert((pct as u64) * max <= u32::MAX as u64 * u32::MAX as u64) by (nonlinear_arith)
            requires
                max <= u32::MAX,
        ;
        let raw: u64 = (pct as u64) * max / 100;
        let level: u64 = if raw < 1 {
            1
        } else {
            raw
        };
        if level > max {
            self.max_brightness
        } else {
            level as u32
        }
    }

    /// The write that the ambient-light value `value` calls for, given the
    /// level `current` read from the device: the new level when it differs
    /// from `current`, none otherwise.
    pub fn adjust(&self, value: u32, current: u32) -> (r: Option<u32>)
        ensures
            r == write_plan(current, self.spec_target_level(value)),
    {
        plan_adjust(self, value, current)
    }

    /// Raises the offset by `amount` percentage points.
    pub fn increase(&mut self, amount: i8)
        requires
            i8::MIN <= old(self).spec_offset() + amount <= i8::MAX,
        ensures
            final(self).spec_offset() == old(self).spec_offset() + amount,
            final(self).same_device(old(self)),
    {
        self.offset = self.offset + amount;
    }

    /// Lowers the offset by `amount` percentage points.
    pub fn decrease(&mut self, amount: i8)
        requires
            i8::MIN <= old(self).spec_offset() - amount <= i8::MAX,
        ensures
            final(self).spec_offset() == old(self).spec_offset() - amount,
            final(self).same_device(old(self)),
    {
        self.offset = self.offset - amount;
    }
}

impl LevelPolicy for ScreenBrightness {
    open spec fn spec_target_level(&self, value: u32) -> u32 {
        spec_screen_level(value, self.spec_max_brightness(), self.spec_offset())
    }

    fn target_level(&self, value: u32) -> (r: u32) {
        let pct = apply_offset(base_percent(value), self.offset);
        self.pct_to_brightness(pct)
    }
}

} // verus!
