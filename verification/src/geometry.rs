//! Value types stored per node: rectangles, insets, sizes, and the
//! change-tracking bit-set.
//!
//! Every scalar field is the raw bit pattern of an IEEE-754 single
//! (`f32::to_bits`); the all-zero word is the bit pattern of `0.0`.

use vstd::prelude::*;

verus! {

/// A node's finalized position and size after layout.
///
/// Each field holds the bit pattern of an `f32`.
#[derive(Clone, Copy, PartialEq, Eq, Structural, Debug)]
pub struct Rect {
    /// Horizontal position.
    pub posx: u32,
    /// Vertical position.
    pub posy: u32,
    /// Resolved width.
    pub width: u32,
    /// Resolved height.
    pub height: u32,
}

impl Rect {
    /// The default rectangle: every field is the bit pattern of `0.0`.
    pub open spec fn zeroed() -> Rect {
        Rect { posx: 0, posy: 0, width: 0, height: 0 }
    }
}

impl Default for Rect {
    fn default() -> (r: Rect)
        ensures
            r == Rect::zeroed(),
    {
        Rect { posx: 0, posy: 0, width: 0, height: 0 }
    }
}

/// Resolved inset or margin distances on each of a node's four sides,
/// used as layout-solving intermediates.
///
/// Each field holds the bit pattern of an `f32`.
#[derive(Clone, Copy, PartialEq, Eq, Structural, Debug)]
pub struct Space {
    /// Left inset.
    pub left: u32,
    /// Right inset.
    pub right: u32,
    /// Top inset.
    pub top: u32,
    /// Bottom inset.
    pub bottom: u32,
}

impl Space {
    /// The default spacing: every field is the bit pattern of `0.0`.
    pub open spec fn zeroed() -> Space {
        Space { left: 0, right: 0, top: 0, bottom: 0 }
    }
}

impl Default for Space {
    fn default() -> (s: Space)
        ensures
            s == Space::zeroed(),
    {
        Space { left: 0, right: 0, top: 0, bottom: 0 }
    }
}

/// A node's requested width and height, distinct from the resolved size
/// in its [`Rect`].
///
/// Each field holds the bit pattern of an `f32`.
#[derive(Clone, Copy, PartialEq, Eq, Structural, Debug)]
pub struct Size {
    /// Requested width.
    pub width: u32,
    /// Requested height.
    pub height: u32,
}

impl Size {
    /// The default size: both fields are the bit pattern of `0.0`.
    pub open spec fn zeroed() -> Size {
        Size { width: 0, height: 0 }
    }
}

impl Default for Size {
    fn default() -> (s: Size)
        ensures
            s == Size::zeroed(),
    {
        Size { width: 0, height: 0 }
    }
}

/// Names one tracked geometric property of a node.
///
/// Each property carries two flags: a pending flag saying the property
/// needs recalculating, and a changed flag saying the last pass moved
/// it.
#[derive(Clone, Copy, PartialEq, Eq, Structural, Debug)]
pub enum GeometryFlag {
    /// The horizontal position needs recalculating.
    ChangePosX,
    /// The vertical position needs recalculating.
    ChangePosY,
    /// The width needs recalculating.
    ChangeWidth,
    /// The height needs recalculating.
    ChangeHeight,
    /// The horizontal position changed.
    PosXChanged,
    /// The vertical position changed.
    PosYChanged,
    /// The width changed.
    WidthChanged,
    /// The height changed.
    HeightChanged,
}

/// Per-node record of which output geometry fields changed since the
/// bits were last cleared.
///
/// Each flag is settable and clearable independently of the others;
/// there is no ordering or transactional behaviour between flag
/// mutations.
#[derive(Clone, Copy, PartialEq, Eq, Structural, Debug)]
pub struct GeometryChanged {
    /// Whether the horizontal position needs recalculating.
    pub change_posx: bool,
    /// Whether the vertical position needs recalculating.
    pub change_posy: bool,
    /// Whether the width needs recalculating.
    pub change_width: bool,
    /// Whether the height needs recalculating.
    pub change_height: bool,
    /// Whether the horizontal position changed.
    pub posx_changed: bool,
    /// Whether the vertical position changed.
    pub posy_changed: bool,
    /// Whether the width changed.
    pub width_changed: bool,
    /// Whether the height changed.
    pub height_changed: bool,
}

impl GeometryChanged {
    /// The bit-set with every flag clear.
    pub open spec fn all_clear() -> GeometryChanged {
        GeometryChanged {
            change_posx: false,
            change_posy: false,
            change_width: false,
            change_height: false,
            posx_changed: false,
            posy_changed: false,
            width_changed: false,
            height_changed: false,
        }
    }

    /// The state of one flag.
    pub open spec fn spec_get(self, flag: GeometryFlag) -> bool {
        match flag {
            GeometryFlag::ChangePosX => self.change_posx,
            GeometryFlag::ChangePosY => self.change_posy,
            GeometryFlag::ChangeWidth => self.change_width,
            GeometryFlag::ChangeHeight => self.change_height,
            GeometryFlag::PosXChanged => self.posx_changed,
            GeometryFlag::PosYChanged => self.posy_changed,
            GeometryFlag::WidthChanged => self.width_changed,
            GeometryFlag::HeightChanged => self.height_changed,
        }
    }

    /// The bit-set with one flag forced to `value` and the rest as in `self`.
    pub open spec fn spec_set(self, flag: GeometryFlag, value: bool) -> GeometryChanged {
        match flag {
            GeometryFlag::ChangePosX => (GeometryChanged { change_posx: value, ..self }),
            GeometryFlag::ChangePosY => (GeometryChanged { change_posy: value, ..self }),
            GeometryFlag::ChangeWidth => (GeometryChanged { change_width: value, ..self }),
            GeometryFlag::ChangeHeight => (GeometryChanged { change_height: value, ..self }),
            GeometryFlag::PosXChanged => (GeometryChanged { posx_changed: value, ..self }),
            GeometryFlag::PosYChanged => (GeometryChanged { posy_changed: value, ..self }),
            GeometryFlag::WidthChanged => (GeometryChanged { width_changed: value, ..self }),
            GeometryFlag::HeightChanged => (GeometryChanged { height_changed: value, ..self }),
        }
    }

    /// Builds the bit-set with every flag clear.
    pub fn new() -> (g: GeometryChanged)
        ensures
            g == GeometryChanged::all_clear(),
    {
        GeometryChanged {
            change_posx: false,
            change_posy: false,
            change_width: false,
            change_height: false,
            posx_changed: false,
            posy_changed: false,
            width_changed: false,
            height_changed: false,
        }
    }

    /// Reads one flag.
    pub fn get(&self, flag: GeometryFlag) -> (r: bool)
        ensures
            r == self.spec_get(flag),
    {
        match flag {
            GeometryFlag::ChangePosX => self.change_posx,
            GeometryFlag::ChangePosY => self.change_posy,
            GeometryFlag::ChangeWidth => self.change_width,
            GeometryFlag::ChangeHeight => self.change_height,
            GeometryFlag::PosXChanged => self.posx_changed,
            GeometryFlag::PosYChanged => self.posy_changed,
            GeometryFlag::WidthChanged => self.width_changed,
            GeometryFlag::HeightChanged => self.height_changed,
        }
    }

    /// Sets or clears one flag, leaving every other flag as it was.
    pub fn set(&mut self, flag: GeometryFlag, value: bool)
        ensures
            *final(self) == old(self).spec_set(flag, value),
            final(self).spec_get(flag) == value,
            forall|other: GeometryFlag|
                other != flag ==> final(self).spec_get(other) == old(self).spec_get(other),
    {
        match flag {
            GeometryFlag::ChangePosX => self.change_posx = value,
            GeometryFlag::ChangePosY => self.change_posy = value,
            GeometryFlag::ChangeWidth => self.change_width = value,
            GeometryFlag::ChangeHeight => self.change_height = value,
            GeometryFlag::PosXChanged => self.posx_changed = value,
            GeometryFlag::PosYChanged => self.posy_changed = value,
            GeometryFlag::WidthChanged => self.width_changed = value,
            GeometryFlag::HeightChanged => self.height_changed = value,
        }
    }
}

impl Default for GeometryChanged {
    fn default() -> (g: GeometryChanged)
        ensures
            g == GeometryChanged::all_clear(),
    {
        GeometryChanged::new()
    }
}

/// Changing one flag of a bit-set is independent of every other flag:
/// the chosen flag takes exactly the written value, and no other flag
/// moves. In particular, clearing one flag while several are set leaves
/// the others set.
pub proof fn lemma_flag_independence(
    g: GeometryChanged,
    flag: GeometryFlag,
    value: bool,
    other: GeometryFlag,
)
    requires
        other != flag,
    ensures
        g.spec_set(flag, value).spec_get(flag) == value,
        g.spec_set(flag, value).spec_get(other) == g.spec_get(other),
{
}

} // verus!
