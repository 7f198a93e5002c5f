//! The entity-keyed computation cache a layout solver reads and writes.

use vstd::prelude::*;
use std::collections::HashMap;

use crate::entity::Entity;
use crate::geometry::{GeometryChanged, GeometryFlag, Rect, Size, Space};

verus! {

broadcast use vstd::std_specs::hash::group_hash_axioms;

/// One node's full cache row: output rectangle, solver intermediates,
/// change flags and visibility.
///
/// The row is the unit the contracts speak of: registration installs a
/// whole default row, and each accessor reads or replaces one field of
/// it.
#[derive(Clone, Copy, PartialEq, Eq, Structural, Debug)]
pub struct NodeRecord {
    /// Finalized output rectangle.
    pub rect: Rect,
    /// Resolved insets on the four sides.
    pub space: Space,
    /// Requested (pre-resolution) size.
    pub size: Size,
    /// Maximum width over the node's children.
    pub child_width_max: u32,
    /// Maximum height over the node's children.
    pub child_height_max: u32,
    /// Sum of the widths of the node's children.
    pub child_width_sum: u32,
    /// Sum of the heights of the node's children.
    pub child_height_sum: u32,
    /// Maximum extent over the node's grid rows.
    pub grid_row_max: u32,
    /// Maximum extent over the node's grid columns.
    pub grid_col_max: u32,
    /// Free space on the horizontal axis.
    pub horizontal_free_space: u32,
    /// Sum of horizontal stretch factors.
    pub horizontal_stretch_sum: u32,
    /// Free space on the vertical axis.
    pub vertical_free_space: u32,
    /// Sum of vertical stretch factors.
    pub vertical_stretch_sum: u32,
    /// Whether this node is the first child of a stack.
    pub stack_first_child: bool,
    /// Whether this node is the last child of a stack.
    pub stack_last_child: bool,
    /// Which geometric properties changed since the last pass.
    pub geometry_changed: GeometryChanged,
    /// Whether the node is visible.
    pub visible: bool,
}

impl NodeRecord {
    /// The row registration installs: every scalar is the bit pattern of
    /// `0.0`, both stack flags are clear, no geometry flag is set, and the
    /// node is visible.
    pub open spec fn defaults() -> NodeRecord {
        NodeRecord {
            rect: Rect::zeroed(),
            space: Space::zeroed(),
            size: Size::zeroed(),
            child_width_max: 0,
            child_height_max: 0,
            child_width_sum: 0,
            child_height_sum: 0,
            grid_row_max: 0,
            grid_col_max: 0,
            horizontal_free_space: 0,
            horizontal_stretch_sum: 0,
            vertical_free_space: 0,
            vertical_stretch_sum: 0,
            stack_first_child: false,
            stack_last_child: false,
            geometry_changed: GeometryChanged::all_clear(),
            visible: true,
        }
    }

    /// Builds the default row.
    pub fn new_default() -> (r: NodeRecord)
        ensures
            r == NodeRecord::defaults(),
    {
        NodeRecord {
            rect: Rect { posx: 0, posy: 0, width: 0, height: 0 },
            space: Space { left: 0, right: 0, top: 0, bottom: 0 },
            size: Size { width: 0, height: 0 },
            child_width_max: 0,
            child_height_max: 0,
            child_width_sum: 0,
            child_height_sum: 0,
            grid_row_max: 0,
            grid_col_max: 0,
            horizontal_free_space: 0,
            horizontal_stretch_sum: 0,
            vertical_free_space: 0,
            vertical_stretch_sum: 0,
            stack_first_child: false,
            stack_last_child: false,
            geometry_changed: GeometryChanged::new(),
            visible: true,
        }
    }
}

/// Per-node storage for a layout pass: one row of layout state per
/// registered entity, plus an independent z-order layer assignment.
///
/// Accessors come in two families with different defaulting policies.
/// The tolerant family (rectangle, inset and requested-size fields,
/// visibility, change flags) answers queries for unregistered entities
/// with a default and ignores writes to them. The strict family (the
/// solver's scratch accumulators and the two stack flags) demands prior
/// registration in its preconditions; those fields are only touched
/// inside a traversal where registration is guaranteed.
pub struct NodeCache {
    rows: HashMap<u64, NodeRecord>,
    layers: HashMap<u64, usize>,
}

impl NodeCache {
    /// The registered rows, keyed by entity index.
    pub closed spec fn records(self) -> Map<u64, NodeRecord> {
        self.rows@
    }

    /// The explicit layer assignments, keyed by entity index.
    ///
    /// Layers travel beside the rows: registration neither creates nor
    /// resets a layer entry.
    pub closed spec fn layer_map(self) -> Map<u64, usize> {
        self.layers@
    }

    /// Whether `e` currently has a row.
    pub open spec fn is_registered(self, e: Entity) -> bool {
        self.records().contains_key(e.index)
    }

    /// The row the accessors see for `e`: its stored row if registered,
    /// the default row otherwise.
    pub open spec fn row(self, e: Entity) -> NodeRecord {
        if self.is_registered(e) {
            self.records()[e.index]
        } else {
            NodeRecord::defaults()
        }
    }

    /// The record map after registering `e` in a cache whose record map
    /// was `m`: whatever row `e` had is discarded for the default row.
    pub open spec fn registered_with(m: Map<u64, NodeRecord>, e: Entity) -> Map<u64, NodeRecord> {
        m.insert(e.index, NodeRecord::defaults())
    }

    /// Builds an empty cache: no rows, no layer assignments.
    pub fn new() -> (c: NodeCache)
        ensures
            c.records() == Map::<u64, NodeRecord>::empty(),
            c.layer_map() == Map::<u64, usize>::empty(),
    {
        NodeCache { rows: HashMap::new(), layers: HashMap::new() }
    }

    /// Registers `entity`: installs the default row, discarding any prior
    /// state. Re-registering is permitted and resets every field to its
    /// default, exactly as a first registration would. Layer assignments
    /// are untouched.
    pub fn add(&mut self, entity: Entity)
        ensures
            final(self).records() == NodeCache::registered_with(old(self).records(), entity),
            final(self).layer_map() == old(self).layer_map(),
            final(self).is_registered(entity),
            final(self).row(entity) == NodeRecord::defaults(),
    {
        self.rows.insert(entity.index, NodeRecord::new_default());
    }

    /// Answers whether `entity` currently has a row, so that callers of
    /// the strict accessor family can test their precondition.
    pub fn contains(&self, entity: Entity) -> (r: bool)
        ensures
            r == self.is_registered(entity),
    {
        self.rows.contains_key(&entity.index)
    }

    /// Reads the resolved width; the bit pattern of `0.0` if `node` is
    /// unregistered.
    pub fn width(&self, node: Entity) -> (r: u32)
        ensures
            r == self.row(node).rect.width,
    {
        match self.rows.get(&node.index) {
            Some(rec) => rec.rect.width,
            None => 0,
        }
    }

    /// Writes the resolved width; a no-op if `node` is unregistered.
    pub fn set_width(&mut self, node: Entity, value: u32)
        ensures
            final(self).layer_map() == old(self).layer_map(),
            !old(self).is_registered(node) ==> *final(self) == *old(self),
            old(self).is_registered(node) ==> final(self).records() == old(self).records().insert(
                node.index,
                (NodeRecord {
                    rect: (Rect { width: value, ..old(self).row(node).rect }),
                    ..old(self).row(node)
                }),
            ),
            old(self).is_registered(node) ==> final(self).row(node).rect.width == value,
    {
        if let Some(rec) = self.rows.get(&node.index) {
            let mut updated = *rec;
            updated.rect.width = value;
            self.rows.insert(node.index, updated);
        }
    }

    /// Reads the resolved height; the bit pattern of `0.0` if `node` is
    /// unregistered.
    pub fn height(&self, node: Entity) -> (r: u32)
        ensures
            r == self.row(node).rect.height,
    {
        match self.rows.get(&node.index) {
            Some(rec) => rec.rect.height,
            None => 0,
        }
    }

    /// Writes the resolved height; a no-op if `node` is unregistered.
    pub fn set_height(&mut self, node: Entity, value: u32)
        ensures
            final(self).layer_map() == old(self).layer_map(),
            !old(self).is_registered(node) ==> *final(self) == *old(self),
            old(self).is_registered(node) ==> final(self).records() == old(self).records().insert(
                node.index,
                (NodeRecord {
                    rect: (Rect { height: value, ..old(self).row(node).rect }),
                    ..old(self).row(node)
                }),
            ),
            old(self).is_registered(node) ==> final(self).row(node).rect.height == value,
    {
        if let Some(rec) = self.rows.get(&node.index) {
            let mut updated = *rec;
            updated.rect.height = value;
            self.rows.insert(node.index, updated);
        }
    }

    /// Reads the horizontal position; the bit pattern of `0.0` if `node` is
    /// unregistered.
    pub fn posx(&self, node: Entity) -> (r: u32)
        ensures
            r == self.row(node).rect.posx,
    {
        match self.rows.get(&node.index) {
            Some(rec) => rec.rect.posx,
            None => 0,
        }
    }

    /// Writes the horizontal position; a no-op if `node` is unregistered.
    pub fn set_posx(&mut self, node: Entity, value: u32)
        ensures
            final(self).layer_map() == old(self).layer_map(),
            !old(self).is_registered(node) ==> *final(self) == *old(self),
            old(self).is_registered(node) ==> final(self).records() == old(self).records().insert(
                node.index,
                (NodeRecord {
                    rect: (Rect { posx: value, ..old(self).row(node).rect }),
                    ..old(self).row(node)
                }),
            ),
            old(self).is_registered(node) ==> final(self).row(node).rect.posx == value,
    {
        if let Some(rec) = self.rows.get(&node.index) {
            let mut updated = *rec;
            updated.rect.posx = value;
            self.rows.insert(node.index, updated);
        }
    }

    /// Reads the vertical position; the bit pattern of `0.0` if `node` is
    /// unregistered.
    pub fn posy(&self, node: Entity) -> (r: u32)
        ensures
            r == self.row(node).rect.posy,
    {
        match self.rows.get(&node.index) {
            Some(rec) => rec.rect.posy,
            None => 0,
        }
    }

    /// Writes the vertical position; a no-op if `node` is unregistered.
    pub fn set_posy(&mut self, node: Entity, value: u32)
        ensures
            final(self).layer_map() == old(self).layer_map(),
            !old(self).is_registered(node) ==> *final(self) == *old(self),
            old(self).is_registered(node) ==> final(self).records() == old(self).records().insert(
                node.index,
                (NodeRecord {
                    rect: (Rect { posy: value, ..old(self).row(node).rect }),
                    ..old(self).row(node)
                }),
            ),
            old(self).is_registered(node) ==> final(self).row(node).rect.posy == value,
    {
        if let Some(rec) = self.rows.get(&node.index) {
            let mut updated = *rec;
            updated.rect.posy = value;
            self.rows.insert(node.index, updated);
        }
    }

    /// Reads the resolved left inset; the bit pattern of `0.0` if `node` is
    /// unregistered.
    pub fn left(&self, node: Entity) -> (r: u32)
        ensures
            r == self.row(node).space.left,
    {
        match self.rows.get(&node.index) {
            Some(rec) => rec.space.left,
            None => 0,
        }
    }

    /// Writes the resolved left inset; a no-op if `node` is unregistered.
    pub fn set_left(&mut self, node: Entity, value: u32)
        ensures
            final(self).layer_map() == old(self).layer_map(),
            !old(self).is_registered(node) ==> *final(self) == *old(self),
            old(self).is_registered(node) ==> final(self).records() == old(self).records().insert(
                node.index,
                (NodeRecord {
                    space: (Space { left: value, ..old(self).row(node).space }),
                    ..old(self).row(node)
                }),
            ),
            old(self).is_registered(node) ==> final(self).row(node).space.left == value,
    {
        if let Some(rec) = self.rows.get(&node.index) {
            let mut updated = *rec;
            updated.space.left = value;
            self.rows.insert(node.index, updated);
        }
    }

    /// Reads the resolved right inset; the bit pattern of `0.0` if `node` is
    /// unregistered.
    pub fn right(&self, node: Entity) -> (r: u32)
        ensures
            r == self.row(node).space.right,
    {
        match self.rows.get(&node.index) {
            Some(rec) => rec.space.right,
            None => 0,
        }
    }

    /// Writes the resolved right inset; a no-op if `node` is unregistered.
    pub fn set_right(&mut self, node: Entity, value: u32)
        ensures
            final(self).layer_map() == old(self).layer_map(),
            !old(self).is_registered(node) ==> *final(self) == *old(self),
            old(self).is_registered(node) ==> final(self).records() == old(self).records().insert(
                node.index,
                (NodeRecord {
                    space: (Space { right: value, ..old(self).row(node).space }),
                    ..old(self).row(node)
                }),
            ),
            old(self).is_registered(node) ==> final(self).row(node).space.right == value,
    {
        if let Some(rec) = self.rows.get(&node.index) {
            let mut updated = *rec;
            updated.space.right = value;
            self.rows.insert(node.index, updated);
        }
    }

    /// Reads the resolved top inset; the bit pattern of `0.0` if `node` is
    /// unregistered.
    pub fn top(&self, node: Entity) -> (r: u32)
        ensures
            r == self.row(node).space.top,
    {
        match self.rows.get(&node.index) {
            Some(rec) => rec.space.top,
            None => 0,
        }
    }

    /// Writes the resolved top inset; a no-op if `node` is unregistered.
    pub fn set_top(&mut self, node: Entity, value: u32)
        ensures
            final(self).layer_map() == old(self).layer_map(),
            !old(self).is_registered(node) ==> *final(self) == *old(self),
            old(self).is_registered(node) ==> final(self).records() == old(self).records().insert(
                node.index,
                (NodeRecord {
                    space: (Space { top: value, ..old(self).row(node).space }),
                    ..old(self).row(node)
                }),
            ),
            old(self).is_registered(node) ==> final(self).row(node).space.top == value,
    {
        if let Some(rec) = self.rows.get(&node.index) {
            let mut updated = *rec;
            updated.space.top = value;
            self.rows.insert(node.index, updated);
        }
    }

    /// Reads the resolved bottom inset; the bit pattern of `0.0` if `node` is
    /// unregistered.
    pub fn bottom(&self, node: Entity) -> (r: u32)
        ensures
            r == self.row(node).space.bottom,
    {
        match self.rows.get(&node.index) {
            Some(rec) => rec.space.bottom,
            None => 0,
        }
    }

    /// Writes the resolved bottom inset; a no-op if `node` is unregistered.
    pub fn set_bottom(&mut self, node: Entity, value: u32)
        ensures
            final(self).layer_map() == old(self).layer_map(),
            !old(self).is_registered(node) ==> *final(self) == *old(self),
            old(self).is_registered(node) ==> final(self).records() == old(self).records().insert(
                node.index,
                (NodeRecord {
                    space: (Space { bottom: value, ..old(self).row(node).space }),
                    ..old(self).row(node)
                }),
            ),
            old(self).is_registered(node) ==> final(self).row(node).space.bottom == value,
    {
        if let Some(rec) = self.rows.get(&node.index) {
            let mut updated = *rec;
            updated.space.bottom = value;
            self.rows.insert(node.index, updated);
        }
    }

    /// Reads the requested width; the bit pattern of `0.0` if `node` is
    /// unregistered.
    pub fn new_width(&self, node: Entity) -> (r: u32)
        ensures
            r == self.row(node).size.width,
    {
        match self.rows.get(&node.index) {
            Some(rec) => rec.size.width,
            None => 0,
        }
    }

    /// Writes the requested width; a no-op if `node` is unregistered.
    pub fn set_new_width(&mut self, node: Entity, value: u32)
        ensures
            final(self).layer_map() == old(self).layer_map(),
            !old(self).is_registered(node) ==> *final(self) == *old(self),
            old(self).is_registered(node) ==> final(self).records() == old(self).records().insert(
                node.index,
                (NodeRecord {
                    size: (Size { width: value, ..old(self).row(node).size }),
                    ..old(self).row(node)
                }),
            ),
            old(self).is_registered(node) ==> final(self).row(node).size.width == value,
    {
        if let Some(rec) = self.rows.get(&node.index) {
            let mut updated = *rec;
            updated.size.width = value;
            self.rows.insert(node.index, updated);
        }
    }

    /// Reads the requested height; the bit pattern of `0.0` if `node` is
    /// unregistered.
    pub fn new_height(&self, node: Entity) -> (r: u32)
        ensures
            r == self.row(node).size.height,
    {
        match self.rows.get(&node.index) {
            Some(rec) => rec.size.height,
            None => 0,
        }
    }

    /// Writes the requested height; a no-op if `node` is unregistered.
    pub fn set_new_height(&mut self, node: Entity, value: u32)
        ensures
            final(self).layer_map() == old(self).layer_map(),
            !old(self).is_registered(node) ==> *final(self) == *old(self),
            old(self).is_registered(node) ==> final(self).records() == old(self).records().insert(
                node.index,
                (NodeRecord {
                    size: (Size { height: value, ..old(self).row(node).size }),
                    ..old(self).row(node)
                }),
            ),
            old(self).is_registered(node) ==> final(self).row(node).size.height == value,
    {
        if let Some(rec) = self.rows.get(&node.index) {
            let mut updated = *rec;
            updated.size.height = value;
            self.rows.insert(node.index, updated);
        }
    }

    /// Reads the computed maximum width of the child nodes. `node` must be registered.
    pub fn child_width_max(&self, node: Entity) -> (r: u32)
        requires
            self.is_registered(node),
        ensures
            r == self.row(node).child_width_max,
    {
        self.rows.get(&node.index).unwrap().child_width_max
    }

    /// Writes the computed maximum width of the child nodes. `node` must be registered.
    pub fn set_child_width_max(&mut self, node: Entity, value: u32)
        requires
            old(self).is_registered(node),
        ensures
            final(self).layer_map() == old(self).layer_map(),
            final(self).records() == old(self).records().insert(
                node.index,
                (NodeRecord { child_width_max: value, ..old(self).row(node) }),
            ),
            final(self).row(node).child_width_max == value,
    {
        let rec = *self.rows.get(&node.index).unwrap();
        let mut updated = rec;
        updated.child_width_max = value;
        self.rows.insert(node.index, updated);
    }

    /// Reads the computed sum of the widths of the child nodes. `node` must be registered.
    pub fn child_width_sum(&self, node: Entity) -> (r: u32)
        requires
            self.is_registered(node),
        ensures
            r == self.row(node).child_width_sum,
    {
        self.rows.get(&node.index).unwrap().child_width_sum
    }

    /// Writes the computed sum of the widths of the child nodes. `node` must be registered.
    pub fn set_child_width_sum(&mut self, node: Entity, value: u32)
        requires
            old(self).is_registered(node),
        ensures
            final(self).layer_map() == old(self).layer_map(),
            final(self).records() == old(self).records().insert(
                node.index,
                (NodeRecord { child_width_sum: value, ..old(self).row(node) }),
            ),
            final(self).row(node).child_width_sum == value,
    {
        let rec = *self.rows.get(&node.index).unwrap();
        let mut updated = rec;
        updated.child_width_sum = value;
        self.rows.insert(node.index, updated);
    }

    /// Reads the computed maximum height of the child nodes. `node` must be registered.
    pub fn child_height_max(&self, node: Entity) -> (r: u32)
        requires
            self.is_registered(node),
        ensures
            r == self.row(node).child_height_max,
    {
        self.rows.get(&node.index).unwrap().child_height_max
    }

    /// Writes the computed maximum height of the child nodes. `node` must be registered.
    pub fn set_child_height_max(&mut self, node: Entity, value: u32)
        requires
            old(self).is_registered(node),
        ensures
            final(self).layer_map() == old(self).layer_map(),
            final(self).records() == old(self).records().insert(
                node.index,
                (NodeRecord { child_height_max: value, ..old(self).row(node) }),
            ),
            final(self).row(node).child_height_max == value,
    {
        let rec = *self.rows.get(&node.index).unwrap();
        let mut updated = rec;
        updated.child_height_max = value;
        self.rows.insert(node.index, updated);
    }

    /// Reads the computed sum of the heights of the child nodes. `node` must be registered.
    pub fn child_height_sum(&self, node: Entity) -> (r: u32)
        requires
            self.is_registered(node),
        ensures
            r == self.row(node).child_height_sum,
    {
        self.rows.get(&node.index).unwrap().child_height_sum
    }

    /// Writes the computed sum of the heights of the child nodes. `node` must be registered.
    pub fn set_child_height_sum(&mut self, node: Entity, value: u32)
        requires
            old(self).is_registered(node),
        ensures
            final(self).layer_map() == old(self).layer_map(),
            final(self).records() == old(self).records().insert(
                node.index,
                (NodeRecord { child_height_sum: value, ..old(self).row(node) }),
            ),
            final(self).row(node).child_height_sum == value,
    {
        let rec = *self.rows.get(&node.index).unwrap();
        let mut updated = rec;
        updated.child_height_sum = value;
        self.rows.insert(node.index, updated);
    }

    /// Reads the computed maximum grid row extent. `node` must be registered.
    pub fn grid_row_max(&self, node: Entity) -> (r: u32)
        requires
            self.is_registered(node),
        ensures
            r == self.row(node).grid_row_max,
    {
        self.rows.get(&node.index).unwrap().grid_row_max
    }

    /// Writes the computed maximum grid row extent. `node` must be registered.
    pub fn set_grid_row_max(&mut self, node: Entity, value: u32)
        requires
            old(self).is_registered(node),
        ensures
            final(self).layer_map() == old(self).layer_map(),
            final(self).records() == old(self).records().insert(
                node.index,
                (NodeRecord { grid_row_max: value, ..old(self).row(node) }),
            ),
            final(self).row(node).grid_row_max == value,
    {
        let rec = *self.rows.get(&node.index).unwrap();
        let mut updated = rec;
        updated.grid_row_max = value;
        self.rows.insert(node.index, updated);
    }

    /// Reads the computed maximum grid column extent. `node` must be registered.
    pub fn grid_col_max(&self, node: Entity) -> (r: u32)
        requires
            self.is_registered(node),
        ensures
            r == self.row(node).grid_col_max,
    {
        self.rows.get(&node.index).unwrap().grid_col_max
    }

    /// Writes the computed maximum grid column extent. `node` must be registered.
    pub fn set_grid_col_max(&mut self, node: Entity, value: u32)
        requires
            old(self).is_registered(node),
        ensures
            final(self).layer_map() == old(self).layer_map(),
            final(self).records() == old(self).records().insert(
                node.index,
                (NodeRecord { grid_col_max: value, ..old(self).row(node) }),
            ),
            final(self).row(node).grid_col_max == value,
    {
        let rec = *self.rows.get(&node.index).unwrap();
        let mut updated = rec;
        updated.grid_col_max = value;
        self.rows.insert(node.index, updated);
    }

    /// Reads the free space on the horizontal axis. `node` must be registered.
    pub fn horizontal_free_space(&self, node: Entity) -> (r: u32)
        requires
            self.is_registered(node),
        ensures
            r == self.row(node).horizontal_free_space,
    {
        self.rows.get(&node.index).unwrap().horizontal_free_space
    }

    /// Writes the free space on the horizontal axis. `node` must be registered.
    pub fn set_horizontal_free_space(&mut self, node: Entity, value: u32)
        requires
            old(self).is_registered(node),
        ensures
            final(self).layer_map() == old(self).layer_map(),
            final(self).records() == old(self).records().insert(
                node.index,
                (NodeRecord { horizontal_free_space: value, ..old(self).row(node) }),
            ),
            final(self).row(node).horizontal_free_space == value,
    {
        let rec = *self.rows.get(&node.index).unwrap();
        let mut updated = rec;
        updated.horizontal_free_space = value;
        self.rows.insert(node.index, updated);
    }

    /// Reads the free space on the vertical axis. `node` must be registered.
    pub fn vertical_free_space(&self, node: Entity) -> (r: u32)
        requires
            self.is_registered(node),
        ensures
            r == self.row(node).vertical_free_space,
    {
        self.rows.get(&node.index).unwrap().vertical_free_space
    }

    /// Writes the free space on the vertical axis. `node` must be registered.
    pub fn set_vertical_free_space(&mut self, node: Entity, value: u32)
        requires
            old(self).is_registered(node),
        ensures
            final(self).layer_map() == old(self).layer_map(),
            final(self).records() == old(self).records().insert(
                node.index,
                (NodeRecord { vertical_free_space: value, ..old(self).row(node) }),
            ),
            final(self).row(node).vertical_free_space == value,
    {
        let rec = *self.rows.get(&node.index).unwrap();
        let mut updated = rec;
        updated.vertical_free_space = value;
        self.rows.insert(node.index, updated);
    }

    /// Reads the sum of horizontal stretch factors. `node` must be registered.
    pub fn horizontal_stretch_sum(&self, node: Entity) -> (r: u32)
        requires
            self.is_registered(node),
        ensures
            r == self.row(node).horizontal_stretch_sum,
    {
        self.rows.get(&node.index).unwrap().horizontal_stretch_sum
    }

    /// Writes the sum of horizontal stretch factors. `node` must be registered.
    pub fn set_horizontal_stretch_sum(&mut self, node: Entity, value: u32)
        requires
            old(self).is_registered(node),
        ensures
            final(self).layer_map() == old(self).layer_map(),
            final(self).records() == old(self).records().insert(
                node.index,
                (NodeRecord { horizontal_stretch_sum: value, ..old(self).row(node) }),
            ),
            final(self).row(node).horizontal_stretch_sum == value,
    {
        let rec = *self.rows.get(&node.index).unwrap();
        let mut updated = rec;
        updated.horizontal_stretch_sum = value;
        self.rows.insert(node.index, updated);
    }

    /// Reads the sum of vertical stretch factors. `node` must be registered.
    pub fn vertical_stretch_sum(&self, node: Entity) -> (r: u32)
        requires
            self.is_registered(node),
        ensures
            r == self.row(node).vertical_stretch_sum,
    {
        self.rows.get(&node.index).unwrap().vertical_stretch_sum
    }

    /// Writes the sum of vertical stretch factors. `node` must be registered.
    pub fn set_vertical_stretch_sum(&mut self, node: Entity, value: u32)
        requires
            old(self).is_registered(node),
        ensures
            final(self).layer_map() == old(self).layer_map(),
            final(self).records() == old(self).records().insert(
                node.index,
                (NodeRecord { vertical_stretch_sum: value, ..old(self).row(node) }),
            ),
            final(self).row(node).vertical_stretch_sum == value,
    {
        let rec = *self.rows.get(&node.index).unwrap();
        let mut updated = rec;
        updated.vertical_stretch_sum = value;
        self.rows.insert(node.index, updated);
    }

    /// Reads whether the node is the first child of a stack. `node` must be registered.
    pub fn stack_first_child(&self, node: Entity) -> (r: bool)
        requires
            self.is_registered(node),
        ensures
            r == self.row(node).stack_first_child,
    {
        self.rows.get(&node.index).unwrap().stack_first_child
    }

    /// Writes whether the node is the first child of a stack. `node` must be registered.
    pub fn set_stack_first_child(&mut self, node: Entity, value: bool)
        requires
            old(self).is_registered(node),
        ensures
            final(self).layer_map() == old(self).layer_map(),
            final(self).records() == old(self).records().insert(
                node.index,
                (NodeRecord { stack_first_child: value, ..old(self).row(node) }),
            ),
            final(self).row(node).stack_first_child == value,
    {
        let rec = *self.rows.get(&node.index).unwrap();
        let mut updated = rec;
        updated.stack_first_child = value;
        self.rows.insert(node.index, updated);
    }

    /// Reads whether the node is the last child of a stack. `node` must be registered.
    pub fn stack_last_child(&self, node: Entity) -> (r: bool)
        requires
            self.is_registered(node),
        ensures
            r == self.row(node).stack_last_child,
    {
        self.rows.get(&node.index).unwrap().stack_last_child
    }

    /// Writes whether the node is the last child of a stack. `node` must be registered.
    pub fn set_stack_last_child(&mut self, node: Entity, value: bool)
        requires
            old(self).is_registered(node),
        ensures
            final(self).layer_map() == old(self).layer_map(),
            final(self).records() == old(self).records().insert(
                node.index,
                (NodeRecord { stack_last_child: value, ..old(self).row(node) }),
            ),
            final(self).row(node).stack_last_child == value,
    {
        let rec = *self.rows.get(&node.index).unwrap();
        let mut updated = rec;
        updated.stack_last_child = value;
        self.rows.insert(node.index, updated);
    }

    /// Reads the visibility flag; `true` if `node` is unregistered.
    pub fn visible(&self, node: Entity) -> (r: bool)
        ensures
            r == self.row(node).visible,
    {
        match self.rows.get(&node.index) {
            Some(rec) => rec.visible,
            None => true,
        }
    }

    /// Writes the visibility flag. `node` must be registered.
    pub fn set_visible(&mut self, node: Entity, value: bool)
        requires
            old(self).is_registered(node),
        ensures
            final(self).layer_map() == old(self).layer_map(),
            final(self).records() == old(self).records().insert(
                node.index,
                (NodeRecord { visible: value, ..old(self).row(node) }),
            ),
            final(self).row(node).visible == value,
    {
        let rec = *self.rows.get(&node.index).unwrap();
        let mut updated = rec;
        updated.visible = value;
        self.rows.insert(node.index, updated);
    }

    /// Reads the geometry-changed bit-set; the all-clear set if `node`
    /// is unregistered.
    pub fn geometry_changed(&self, node: Entity) -> (r: GeometryChanged)
        ensures
            r == self.row(node).geometry_changed,
    {
        match self.rows.get(&node.index) {
            Some(rec) => rec.geometry_changed,
            None => GeometryChanged::new(),
        }
    }

    /// Sets or clears one geometry-changed flag, leaving every other
    /// flag as it was; a no-op if `node` is unregistered.
    pub fn set_geo_changed(&mut self, node: Entity, flag: GeometryFlag, value: bool)
        ensures
            final(self).layer_map() == old(self).layer_map(),
            !old(self).is_registered(node) ==> *final(self) == *old(self),
            old(self).is_registered(node) ==> final(self).records() == old(self).records().insert(
                node.index,
                (NodeRecord {
                    geometry_changed: old(self).row(node).geometry_changed.spec_set(flag, value),
                    ..old(self).row(node)
                }),
            ),
            old(self).is_registered(node) ==> final(self).row(node).geometry_changed == old(
                self,
            ).row(node).geometry_changed.spec_set(flag, value),
    {
        if let Some(rec) = self.rows.get(&node.index) {
            let mut updated = *rec;
            updated.geometry_changed.set(flag, value);
            self.rows.insert(node.index, updated);
        }
    }

    /// Reads the z-order layer; `None` unless a layer was explicitly
    /// assigned.
    pub fn layer(&self, node: Entity) -> (r: Option<usize>)
        ensures
            self.layer_map().contains_key(node.index) ==> r == Some(self.layer_map()[node.index]),
            !self.layer_map().contains_key(node.index) ==> r is None,
    {
        match self.layers.get(&node.index) {
            Some(v) => Some(*v),
            None => None,
        }
    }

    /// Assigns the z-order layer. Layers are independent of
    /// registration: the assignment survives `add` and needs none.
    pub fn set_layer(&mut self, node: Entity, value: usize)
        ensures
            final(self).records() == old(self).records(),
            final(self).layer_map() == old(self).layer_map().insert(node.index, value),
    {
        self.layers.insert(node.index, value);
    }

    /// Removes every entry of `entity`: its row and its layer
    /// assignment. Queries afterwards see the entity as never
    /// registered.
    pub fn remove(&mut self, entity: Entity)
        ensures
            final(self).records() == old(self).records().remove(entity.index),
            final(self).layer_map() == old(self).layer_map().remove(entity.index),
            !final(self).is_registered(entity),
    {
        self.rows.remove(&entity.index);
        self.layers.remove(&entity.index);
    }
}

impl Default for NodeCache {
    fn default() -> (c: NodeCache)
        ensures
            c.records() == Map::<u64, NodeRecord>::empty(),
            c.layer_map() == Map::<u64, usize>::empty(),
    {
        NodeCache::new()
    }
}

/// An unregistered entity always presents the default row: every
/// rectangle, inset and requested-size scalar is the bit pattern of
/// `0.0`, the node counts as visible, and no geometry flag is set.
pub proof fn lemma_unregistered_defaults(c: NodeCache, e: Entity)
    requires
        !c.is_registered(e),
    ensures
        c.row(e) == NodeRecord::defaults(),
        c.row(e).rect.posx == 0,
        c.row(e).rect.posy == 0,
        c.row(e).rect.width == 0,
        c.row(e).rect.height == 0,
        c.row(e).space.left == 0,
        c.row(e).space.right == 0,
        c.row(e).space.top == 0,
        c.row(e).space.bottom == 0,
        c.row(e).size.width == 0,
        c.row(e).size.height == 0,
        c.row(e).visible == true,
        c.row(e).geometry_changed == GeometryChanged::all_clear(),
{
}

/// Registering an entity twice, with nothing in between, leaves the
/// record map exactly as a single registration does: both install the
/// same default row, whatever state the entity held before.
pub proof fn lemma_register_idempotent(m: Map<u64, NodeRecord>, e: Entity)
    ensures
        NodeCache::registered_with(NodeCache::registered_with(m, e), e)
            == NodeCache::registered_with(m, e),
{
    assert(NodeCache::registered_with(NodeCache::registered_with(m, e), e)
        =~= NodeCache::registered_with(m, e));
}

/// Row writes are isolated: replacing one entity's row never changes
/// the row a distinct entity presents, nor whether it is registered.
/// Every setter's contract, and registration itself, has the shape of
/// the premise, with `updated` the replacement row.
pub proof fn lemma_write_isolation(
    pre: NodeCache,
    post: NodeCache,
    e1: Entity,
    e2: Entity,
    updated: NodeRecord,
)
    requires
        e1.index != e2.index,
        post.records() == pre.records().insert(e1.index, updated),
    ensures
        post.is_registered(e2) == pre.is_registered(e2),
        post.row(e2) == pre.row(e2),
{
}

/// Removal is isolated the same way: dropping one entity's row never
/// changes the row a distinct entity presents, nor whether it is
/// registered.
pub proof fn lemma_remove_isolation(pre: NodeCache, post: NodeCache, e1: Entity, e2: Entity)
    requires
        e1.index != e2.index,
        post.records() == pre.records().remove(e1.index),
    ensures
        post.is_registered(e2) == pre.is_registered(e2),
        post.row(e2) == pre.row(e2),
{
}

/// Layer writes are isolated: assigning one entity's layer never
/// changes the layer a distinct entity holds, nor whether it holds
/// one. `set_layer`'s contract has the shape of the premise.
pub proof fn lemma_layer_isolation(
    pre: NodeCache,
    post: NodeCache,
    e1: Entity,
    e2: Entity,
    value: usize,
)
    requires
        e1.index != e2.index,
        post.layer_map() == pre.layer_map().insert(e1.index, value),
    ensures
        post.layer_map().contains_key(e2.index) == pre.layer_map().contains_key(e2.index),
        pre.layer_map().contains_key(e2.index) ==> post.layer_map()[e2.index]
            == pre.layer_map()[e2.index],
{
}

} // verus!

