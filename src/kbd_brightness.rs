use vstd::prelude::*;

use crate::policy::{LevelPolicy, plan_adjust, write_plan};

verus! {

/// Keyboard backlight level for an ambient-light value: brighter in dim and
/// medium light, dimmer again in bright light.
pub open spec fn spec_kbd_level(value: u32) -> u32 {
    if value < 55 {
        1
    } else if value < 65 {
        2
    } else if value < 70 {
        3
    } else if value < 75 {
        2
    } else if value < 80 {
        1
    } else {
        0
    }
}

/// Keyboard backlight level for an ambient-light value, one of 0 to 3.
pub fn kbd_level(value: u32) -> (r: u32)
    ensures
        r == spec_kbd_level(value),
        r <= 3,
{
    if value < 55 {
        1
    } else if value < 65 {
        2
    } else if value < 70 {
        3
    } else if value < 75 {
        2
    } else if value < 80 {
        1
    } else {
        0
    }
}

/// Controller of a keyboard backlight with four levels.
pub struct KBDBrightness {
    subsystem: String,
    name: String,
}

impl KBDBrightness {
    pub closed spec fn spec_subsystem(&self) -> Seq<char> {
        self.subsystem@
    }

    pub closed spec fn spec_name(&self) -> Seq<char> {
        self.name@
    }

    /// A controller for device `name` of class `subsystem`.
    pub fn new(subsystem: String, name: String) -> (r: Self)
        ensures
            r.spec_subsystem() == subsystem@,
            r.spec_name() == name@,
    {
        KBDBrightness { subsystem, name }
    }

    pub fn subsystem(&self) -> (r: &str)
        ensures
            r@ == self.spec_subsystem(),
    {
        self.subsystem.as_str()
    }

    pub fn name(&self) -> (r: &str)
        ensures
            r@ == self.spec_name(),
    {
        self.name.as_str()
    }

    /// The write that the ambient-light value `value` calls for, given the
    /// level `current` read from the device: the new level when it differs
    /// from `current`, none otherwise.
    pub fn adjust(&self, value: u32, current: u32) -> (r: Option<u32>)
        ensures
            r == write_plan(current, spec_kbd_level(value)),
    {
        plan_adjust(self, value, current)
    }
}

impl LevelPolicy for KBDBrightness {
    open spec fn spec_target_level(&self, value: u32) -> u32 {
        spec_kbd_level(value)
    }

    fn target_level(&self, value: u32) -> (r: u32) {
        kbd_level(value)
    }
}

} // verus!
