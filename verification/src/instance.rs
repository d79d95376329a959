//! Instances, the live objects of a game, and the list that holds them.

use vstd::prelude::*;
use std::collections::HashMap;
use crate::field::CellMap;
use crate::field::FieldHolder;
use crate::number::Real;
use crate::number::ONE_BITS;
use crate::value::Value;

verus! {

broadcast use vstd::std_specs::hash::group_hash_axioms;

/// The number that stands for no instance.
pub const NOONE: i32 = -4;

/// The plain values of an instance.
#[derive(Clone, Copy, Debug, PartialEq, Eq, Structural)]
pub struct InstanceState {
    /// The number by which scripts know the instance; 100000 or more.
    pub id: i32,
    /// The object class of the instance.
    pub object_index: i32,
    /// False once the instance was destroyed or switched off; it then takes no part in iteration or lookup.
    pub active: bool,
    pub x: Real,
    pub y: Real,
    pub xprevious: Real,
    pub yprevious: Real,
    pub xstart: Real,
    pub ystart: Real,
    pub hspeed: Real,
    pub vspeed: Real,
    pub direction: Real,
    pub speed: Real,
    pub friction: Real,
    pub gravity: Real,
    pub gravity_direction: Real,
    pub depth: Real,
    pub image_index: Real,
    pub image_speed: Real,
    pub image_xscale: Real,
    pub image_yscale: Real,
    pub image_angle: Real,
    pub image_alpha: Real,
    pub path_position: Real,
    pub path_positionprevious: Real,
    pub path_speed: Real,
    pub path_scale: Real,
    pub path_orientation: Real,
    /// The speed factor of the path at the current position.
    pub path_pointspeed: Real,
    pub timeline_position: Real,
    pub timeline_speed: Real,
    pub sprite_index: i32,
    pub mask_index: i32,
    pub image_blend: i32,
    pub path_index: i32,
    pub path_endaction: i32,
    pub timeline_index: i32,
    pub bbox_left: i32,
    pub bbox_right: i32,
    pub bbox_top: i32,
    pub bbox_bottom: i32,
    pub solid: bool,
    pub visible: bool,
    pub persistent: bool,
    pub timeline_running: bool,
    pub timeline_loop: bool,
    /// True when the four `bbox_*` values may no longer fit the instance.
    pub bbox_is_stale: bool,
}

/// The box that encloses an instance's collision mask, in room coordinates.
#[derive(Clone, Copy, Debug, PartialEq, Eq, Structural)]
pub struct BoundingBox {
    pub left: i32,
    pub right: i32,
    pub top: i32,
    pub bottom: i32,
}

impl InstanceState {
    /// The state of a new instance at a place: visible, unscaled, animated at
    /// full speed, with no sprite, mask, path or timeline, and a bounding box
    /// that is still to be computed.
    pub open spec fn created(id: i32, object_index: i32, x: Real, y: Real) -> InstanceState {
        let zero = Real { bits: 0 };
        let one = Real { bits: ONE_BITS };
        InstanceState {
            id,
            object_index,
            active: true,
            x,
            y,
            xprevious: x,
            yprevious: y,
            xstart: x,
            ystart: y,
            hspeed: zero,
            vspeed: zero,
            direction: zero,
            speed: zero,
            friction: zero,
            gravity: zero,
            gravity_direction: zero,
            depth: zero,
            image_index: zero,
            image_speed: one,
            image_xscale: one,
            image_yscale: one,
            image_angle: zero,
            image_alpha: one,
            path_position: zero,
            path_positionprevious: zero,
            path_speed: zero,
            path_scale: one,
            path_orientation: zero,
            path_pointspeed: zero,
            timeline_position: zero,
            timeline_speed: one,
            sprite_index: -1i32,
            mask_index: -1i32,
            image_blend: 0xFFFFFF,
            path_index: -1i32,
            path_endaction: 0,
            timeline_index: -1i32,
            bbox_left: 0,
            bbox_right: 0,
            bbox_top: 0,
            bbox_bottom: 0,
            solid: false,
            visible: true,
            persistent: false,
            timeline_running: false,
            timeline_loop: false,
            bbox_is_stale: true,
        }
    }

    pub fn new(id: i32, object_index: i32, x: Real, y: Real) -> (r: InstanceState)
        ensures
            r == InstanceState::created(id, object_index, x, y),
    {
        let zero = Real { bits: 0 };
        let one = Real { bits: ONE_BITS };
        InstanceState {
            id,
            object_index,
            active: true,
            x,
            y,
            xprevious: x,
            yprevious: y,
            xstart: x,
            ystart: y,
            hspeed: zero,
            vspeed: zero,
            direction: zero,
            speed: zero,
            friction: zero,
            gravity: zero,
            gravity_direction: zero,
            depth: zero,
            image_index: zero,
            image_speed: one,
            image_xscale: one,
            image_yscale: one,
            image_angle: zero,
            image_alpha: one,
            path_position: zero,
            path_positionprevious: zero,
            path_speed: zero,
            path_scale: one,
            path_orientation: zero,
            path_pointspeed: zero,
            timeline_position: zero,
            timeline_speed: one,
            sprite_index: -1i32,
            mask_index: -1i32,
            image_blend: 0xFFFFFF,
            path_index: -1i32,
            path_endaction: 0,
            timeline_index: -1i32,
            bbox_left: 0,
            bbox_right: 0,
            bbox_top: 0,
            bbox_bottom: 0,
            solid: false,
            visible: true,
            persistent: false,
            timeline_running: false,
            timeline_loop: false,
            bbox_is_stale: true,
        }
    }

    /// The number of the sprite that gives the instance its collision mask:
    /// the mask if one is set, else the sprite.
    pub open spec fn mask_sprite_index(self) -> i32 {
        if self.mask_index >= 0 {
            self.mask_index
        } else {
            self.sprite_index
        }
    }

    /// The state with a bounding box that the host has just computed.
    pub fn take_bbox(&self, b: BoundingBox) -> (r: InstanceState)
        ensures
            r == self.with_bbox(b),
    {
        InstanceState {
            bbox_left: b.left,
            bbox_right: b.right,
            bbox_top: b.top,
            bbox_bottom: b.bottom,
            bbox_is_stale: false,
            ..*self
        }
    }

    /// The state with a freshly computed bounding box.
    pub open spec fn with_bbox(self, b: BoundingBox) -> InstanceState {
        InstanceState {
            bbox_left: b.left,
            bbox_right: b.right,
            bbox_top: b.top,
            bbox_bottom: b.bottom,
            bbox_is_stale: false,
            ..self
        }
    }
}

/// A live object of the game.
pub struct Instance {
    pub state: InstanceState,
    /// The alarms that were set, by slot.
    pub alarms: HashMap<u32, i32>,
    /// The user variables of the instance.
    pub fields: FieldHolder,
}

/// What an `Instance` stands for in contracts.
pub struct InstanceModel {
    pub state: InstanceState,
    pub alarms: Map<u32, i32>,
    pub fields: CellMap,
}

impl View for Instance {
    type V = InstanceModel;

    open spec fn view(&self) -> InstanceModel {
        InstanceModel { state: self.state, alarms: self.alarms@, fields: self.fields@ }
    }
}

impl Instance {
    /// A new instance with no alarm set and no user variable.
    pub fn new(id: i32, object_index: i32, x: Real, y: Real) -> (r: Instance)
        ensures
            r@ == (InstanceModel {
                state: InstanceState::created(id, object_index, x, y),
                alarms: Map::empty(),
                fields: CellMap::empty(),
            }),
    {
        Instance {
            state: InstanceState::new(id, object_index, x, y),
            alarms: HashMap::new(),
            fields: FieldHolder::new(),
        }
    }
}

/// True when iteration over a family of objects stops at an instance: the
/// instance is active and its object is in the family. No family stands for
/// all objects.
pub open spec fn selects(state: InstanceState, family: Option<Seq<i32>>) -> bool {
    state.active && match family {
        Some(f) => f.contains(state.object_index),
        None => true,
    }
}

/// The first place from `pos` on that holds an instance which iteration
/// stops at.
pub open spec fn next_selected(
    list: Seq<InstanceModel>,
    pos: int,
    family: Option<Seq<i32>>,
) -> Option<int>
    decreases list.len() - pos,
{
    if pos < 0 || pos >= list.len() {
        None
    } else if selects(list[pos].state, family) {
        Some(pos)
    } else {
        next_selected(list, pos + 1, family)
    }
}

/// The first place from `pos` on that holds an active instance with a number.
pub open spec fn find_id(list: Seq<InstanceModel>, pos: int, id: i32) -> Option<int>
    decreases list.len() - pos,
{
    if pos < 0 || pos >= list.len() {
        None
    } else if list[pos].state.active && list[pos].state.id == id {
        Some(pos)
    } else {
        find_id(list, pos + 1, id)
    }
}

/// How many of the first `upto` instances are active.
pub open spec fn count_active(list: Seq<InstanceModel>, upto: int) -> int
    decreases upto,
{
    if upto <= 0 || upto > list.len() {
        0
    } else {
        count_active(list, upto - 1) + if list[upto - 1].state.active {
            1int
        } else {
            0int
        }
    }
}

/// The number of the active instance that has `n` active instances between
/// `pos` and itself, or `NOONE`.
pub open spec fn nth_active_id(list: Seq<InstanceModel>, pos: int, n: int) -> i32
    decreases list.len() - pos,
{
    if pos < 0 || pos >= list.len() || n < 0 {
        NOONE
    } else if list[pos].state.active {
        if n == 0 {
            list[pos].state.id
        } else {
            nth_active_id(list, pos + 1, n - 1)
        }
    } else {
        nth_active_id(list, pos + 1, n)
    }
}

/// The view of a place that may be missing.
pub open spec fn place(r: Option<usize>) -> Option<int> {
    match r {
        Some(h) => Some(h as int),
        None => None,
    }
}

/// The view of a family of objects that may be missing.
pub open spec fn family_view(f: Option<&Vec<i32>>) -> Option<Seq<i32>> {
    match f {
        Some(v) => Some(v@),
        None => None,
    }
}

/// True when a number is among those of a family.
pub fn family_contains(family: &Vec<i32>, object_index: i32) -> (r: bool)
    ensures
        r == family@.contains(object_index),
{
    let mut i: usize = 0;
    while i < family.len()
        invariant
            i <= family.len(),
            forall|j: int| 0 <= j < i ==> family@[j] != object_index,
        decreases family.len() - i,
    {
        if family[i] == object_index {
            return true;
        }
        i += 1;
    }
    false
}

/// The instances of a game in the order in which they were made. An
/// instance is known by its place in the list, its handle, which it keeps
/// for as long as the list lives.
pub struct InstanceList {
    pub instances: Vec<Instance>,
}

impl View for InstanceList {
    type V = Seq<InstanceModel>;

    open spec fn view(&self) -> Seq<InstanceModel> {
        Seq::new(self.instances@.len(), |i: int| self.instances@[i]@)
    }
}

impl InstanceList {
    pub fn new() -> (r: InstanceList)
        ensures
            r@ == Seq::<InstanceModel>::empty(),
    {
        let r = InstanceList { instances: Vec::new() };
        assert(r@ =~= Seq::<InstanceModel>::empty());
        r
    }

    pub fn len(&self) -> (r: usize)
        ensures
            r == self@.len(),
    {
        self.instances.len()
    }

    /// Adds an instance at the end and gives its handle.
    pub fn insert(&mut self, instance: Instance) -> (handle: usize)
        ensures
            handle == old(self)@.len(),
            final(self)@ == old(self)@.push(instance@),
    {
        let handle = self.instances.len();
        self.instances.push(instance);
        assert(self@ =~= old(self)@.push(instance@));
        handle
    }

    /// The plain values of the instance behind a handle.
    pub fn state(&self, handle: usize) -> (r: Option<InstanceState>)
        ensures
            r == (if handle < self@.len() {
                Some(self@[handle as int].state)
            } else {
                None
            }),
    {
        if handle < self.instances.len() {
            Some(self.instances[handle].state)
        } else {
            None
        }
    }

    /// Replaces the plain values of the instance behind a handle. A handle
    /// that the list does not hold changes nothing.
    pub fn set_state(&mut self, handle: usize, state: InstanceState)
        ensures
            final(self)@ == (if handle < old(self)@.len() {
                old(self)@.update(
                    handle as int,
                    InstanceModel { state, ..old(self)@[handle as int] },
                )
            } else {
                old(self)@
            }),
    {
        if handle < self.instances.len() {
            self.instances[handle].state = state;
            assert(self@ =~= old(self)@.update(
                handle as int,
                InstanceModel { state, ..old(self)@[handle as int] },
            ));
        }
    }

    /// Sets an alarm of the instance behind a handle. A handle that the list
    /// does not hold changes nothing.
    pub fn set_alarm(&mut self, handle: usize, slot: u32, value: i32)
        ensures
            final(self)@ == (if handle < old(self)@.len() {
                old(self)@.update(
                    handle as int,
                    InstanceModel {
                        alarms: old(self)@[handle as int].alarms.insert(slot, value),
                        ..old(self)@[handle as int]
                    },
                )
            } else {
                old(self)@
            }),
    {
        if handle < self.instances.len() {
            self.instances[handle].alarms.insert(slot, value);
            assert(self@ =~= old(self)@.update(
                handle as int,
                InstanceModel {
                    alarms: old(self)@[handle as int].alarms.insert(slot, value),
                    ..old(self)@[handle as int]
                },
            ));
        }
    }

    /// Writes a cell of a user variable of the instance behind a handle. A
    /// handle that the list does not hold changes nothing.
    pub fn set_field(&mut self, handle: usize, field: usize, index: u32, value: Value)
        ensures
            final(self)@ == (if handle < old(self)@.len() {
                old(self)@.update(
                    handle as int,
                    InstanceModel {
                        fields: old(self)@[handle as int].fields.insert((field, index), value@),
                        ..old(self)@[handle as int]
                    },
                )
            } else {
                old(self)@
            }),
    {
        if handle < self.instances.len() {
            self.instances[handle].fields.set(field, index, value);
            assert(self@ =~= old(self)@.update(
                handle as int,
                InstanceModel {
                    fields: old(self)@[handle as int].fields.insert((field, index), value@),
                    ..old(self)@[handle as int]
                },
            ));
        }
    }

    /// Takes an instance out of iteration and lookup. Its handle stays.
    pub fn deactivate(&mut self, handle: usize)
        ensures
            final(self)@ == (if handle < old(self)@.len() {
                old(self)@.update(
                    handle as int,
                    InstanceModel {
                        state: InstanceState { active: false, ..old(self)@[handle as int].state },
                        ..old(self)@[handle as int]
                    },
                )
            } else {
                old(self)@
            }),
    {
        if handle < self.instances.len() {
            let mut s = self.instances[handle].state;
            s.active = false;
            self.set_state(handle, s);
        }
    }

    /// The handle of the next instance, from a place on, that iteration over
    /// a family of objects stops at. No family stands for all objects.
    pub fn next(&self, pos: usize, family: Option<&Vec<i32>>) -> (r: Option<usize>)
        ensures
            place(r) == next_selected(self@, pos as int, family_view(family)),
            r matches Some(h) ==> pos <= h < self@.len() && h < usize::MAX,
    {
        let mut i: usize = pos;
        while i < self.instances.len()
            invariant
                pos <= i,
                next_selected(self@, pos as int, family_view(family)) == next_selected(
                    self@,
                    i as int,
                    family_view(family),
                ),
            decreases self.instances.len() - i,
        {
            let s = self.instances[i].state;
            let hit = s.active && match family {
                Some(f) => family_contains(f, s.object_index),
                None => true,
            };
            if hit {
                return Some(i);
            }
            i += 1;
        }
        None
    }

    /// The handle of the first instance in insertion order that iteration
    /// stops at.
    pub fn first(&self, family: Option<&Vec<i32>>) -> (r: Option<usize>)
        ensures
            place(r) == next_selected(self@, 0, family_view(family)),
            r matches Some(h) ==> h < self@.len(),
    {
        self.next(0, family)
    }

    /// The handle of the active instance with a number.
    pub fn get_by_instid(&self, id: i32) -> (r: Option<usize>)
        ensures
            place(r) == find_id(self@, 0, id),
            r matches Some(h) ==> h < self@.len(),
    {
        let mut i: usize = 0;
        while i < self.instances.len()
            invariant
                find_id(self@, 0, id) == find_id(self@, i as int, id),
            decreases self.instances.len() - i,
        {
            let s = self.instances[i].state;
            if s.active && s.id == id {
                return Some(i);
            }
            i += 1;
        }
        None
    }

    /// How many instances are active.
    pub fn count_all(&self) -> (r: usize)
        ensures
            r == count_active(self@, self@.len() as int),
    {
        let mut n: usize = 0;
        let mut i: usize = 0;
        while i < self.instances.len()
            invariant
                i <= self.instances.len(),
                n == count_active(self@, i as int),
                n <= i,
            decreases self.instances.len() - i,
        {
            if self.instances[i].state.active {
                n += 1;
            }
            i += 1;
        }
        n
    }

    /// The number of the `n`-th active instance in insertion order, counted
    /// from zero, or `NOONE` if there are not that many.
    pub fn instance_at(&self, n: usize) -> (r: i32)
        ensures
            r == nth_active_id(self@, 0, n as int),
    {
        let mut left: usize = n;
        let mut i: usize = 0;
        while i < self.instances.len()
            invariant
                nth_active_id(self@, 0, n as int) == nth_active_id(self@, i as int, left as int),
            decreases self.instances.len() - i,
        {
            let s = self.instances[i].state;
            if s.active {
                if left == 0 {
                    return s.id;
                }
                left -= 1;
            }
            i += 1;
        }
        NOONE
    }
}

} // verus!
