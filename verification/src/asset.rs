//! The assets that scripts refer to by number.

use vstd::prelude::*;
use std::rc::Rc;
use crate::number::Real;
use crate::tree::Instruction;

verus! {

/// What the runtime reads of a sprite.
#[derive(Clone, Copy, Debug, PartialEq, Eq, Structural)]
pub struct Sprite {
    pub frame_count: usize,
    pub width: u32,
    pub height: u32,
    pub origin_x: i32,
    pub origin_y: i32,
}

/// What the runtime reads of a background image.
#[derive(Clone, Copy, Debug, PartialEq, Eq, Structural)]
pub struct Background {
    pub width: u32,
    pub height: u32,
}

/// An object class.
#[derive(Debug)]
pub struct Object {
    /// The numbers of the object itself and of every object that descends
    /// from it.
    pub children: Vec<i32>,
}

/// A script and its compiled code.
#[derive(Debug)]
pub struct Script {
    pub compiled: Rc<Vec<Instruction>>,
}

/// A point of a path.
#[derive(Clone, Copy, Debug, PartialEq, Eq, Structural)]
pub struct PathPoint {
    pub x: Real,
    pub y: Real,
    pub speed: Real,
}

/// A path that instances can follow.
#[derive(Debug)]
pub struct Path {
    pub points: Vec<PathPoint>,
}

/// All assets of a game. A slot is empty where an asset was deleted.
#[derive(Debug)]
pub struct Assets {
    pub sprites: Vec<Option<Sprite>>,
    pub backgrounds: Vec<Option<Background>>,
    pub objects: Vec<Option<Object>>,
    pub scripts: Vec<Option<Script>>,
    pub paths: Vec<Option<Path>>,
}

/// `Rc::clone`: another handle on the same value.
#[verifier::external_body]
pub(crate) fn share_code(code: &Rc<Vec<Instruction>>) -> (r: Rc<Vec<Instruction>>)
    ensures
        r == *code,
{
    Rc::clone(code)
}

impl Assets {
    /// The sprite with a number, if there is one.
    pub open spec fn sprite(self, index: int) -> Option<Sprite> {
        if 0 <= index < self.sprites@.len() {
            self.sprites@[index]
        } else {
            None
        }
    }

    /// The background image with a number, if there is one.
    pub open spec fn background(self, index: int) -> Option<Background> {
        if 0 <= index < self.backgrounds@.len() {
            self.backgrounds@[index]
        } else {
            None
        }
    }

    /// The numbers of an object and its descendants, if there is such an
    /// object.
    pub open spec fn object_family(self, index: int) -> Option<Seq<i32>> {
        if 0 <= index < self.objects@.len() {
            match self.objects@[index] {
                Some(o) => Some(o.children@),
                None => None,
            }
        } else {
            None
        }
    }

    /// The code of the script with a number, if there is such a script.
    pub open spec fn script_code(self, index: int) -> Option<Seq<Instruction>> {
        if 0 <= index < self.scripts@.len() {
            match self.scripts@[index] {
                Some(s) => Some(s.compiled@),
                None => None,
            }
        } else {
            None
        }
    }

    /// True when a path has the number.
    pub open spec fn has_path(self, index: int) -> bool {
        0 <= index < self.paths@.len() && self.paths@[index] is Some
    }

    /// No assets at all.
    pub fn new() -> (r: Assets)
        ensures
            r.sprites@.len() == 0,
            r.backgrounds@.len() == 0,
            r.objects@.len() == 0,
            r.scripts@.len() == 0,
            r.paths@.len() == 0,
    {
        Assets {
            sprites: Vec::new(),
            backgrounds: Vec::new(),
            objects: Vec::new(),
            scripts: Vec::new(),
            paths: Vec::new(),
        }
    }

    pub fn get_sprite(&self, index: i32) -> (r: Option<Sprite>)
        ensures
            r == self.sprite(index as int),
    {
        if index >= 0 && (index as usize) < self.sprites.len() {
            self.sprites[index as usize]
        } else {
            None
        }
    }

    pub fn get_background(&self, index: i32) -> (r: Option<Background>)
        ensures
            r == self.background(index as int),
    {
        if index >= 0 && (index as usize) < self.backgrounds.len() {
            self.backgrounds[index as usize]
        } else {
            None
        }
    }

    /// A copy of the numbers of an object and its descendants.
    pub fn get_object_family(&self, index: i32) -> (r: Option<Vec<i32>>)
        ensures
            match r {
                Some(v) => self.object_family(index as int) == Some(v@),
                None => self.object_family(index as int) is None,
            },
    {
        if index >= 0 && (index as usize) < self.objects.len() {
            match &self.objects[index as usize] {
                Some(o) => {
                    let mut v: Vec<i32> = Vec::new();
                    let mut i: usize = 0;
                    while i < o.children.len()
                        invariant
                            i <= o.children.len(),
                            v@ == o.children@.take(i as int),
                        decreases o.children.len() - i,
                    {
                        v.push(o.children[i]);
                        i += 1;
                    }
                    assert(o.children@.take(o.children.len() as int) == o.children@);
                    Some(v)
                },
                None => None,
            }
        } else {
            None
        }
    }

    /// A handle on the code of a script.
    pub fn get_script_code(&self, index: usize) -> (r: Option<Rc<Vec<Instruction>>>)
        ensures
            match r {
                Some(c) => self.script_code(index as int) == Some(c@),
                None => self.script_code(index as int) is None,
            },
    {
        if index < self.scripts.len() {
            match &self.scripts[index] {
                Some(s) => Some(share_code(&s.compiled)),
                None => None,
            }
        } else {
            None
        }
    }

    pub fn path_exists(&self, index: i32) -> (r: bool)
        ensures
            r == self.has_path(index as int),
    {
        if index >= 0 && (index as usize) < self.paths.len() {
            self.paths[index as usize].is_some()
        } else {
            false
        }
    }
}

} // verus!
