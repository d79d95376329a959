//! The state that scripts run against: the game, the call frame, and the
//! services that the host provides.

use vstd::prelude::*;
use std::collections::HashSet;
use crate::asset::Assets;
use crate::asset::Path;
use crate::asset::Sprite;
use crate::error::Error;
use crate::field::CellMap;
use crate::field::FieldHolder;
use crate::instance::BoundingBox;
use crate::instance::InstanceList;
use crate::instance::InstanceModel;
use crate::instance::InstanceState;
use crate::number::Real;
use crate::number::ONE_BITS;
use crate::value::Value;
use crate::value::ValueModel;

verus! {

broadcast use vstd::std_specs::hash::group_hash_axioms;

/// The instance that runs the code.
pub const SELF: i32 = -1;

/// The other instance of a collision, or the one that ran the enclosing
/// `with`.
pub const OTHER: i32 = -2;

/// Every instance.
pub const ALL: i32 = -3;

/// Variables of the game as a whole.
pub const GLOBAL: i32 = -5;

/// A second number for the instance that runs the code.
pub const SELF2: i32 = -6;

/// Variables of the running script.
pub const LOCAL: i32 = -7;

/// Numbers from here on name single instances; smaller ones that are not
/// negative name objects.
pub const FIRST_INSTANCE_ID: i32 = 100000;

/// How many views and background layers a room has.
pub const LAYER_COUNT: usize = 8;

/// How many arguments a call can pass.
pub const ARGUMENT_COUNT: usize = 16;

/// The version of the engine that a game was made for.
#[derive(Clone, Copy, Debug, PartialEq, Eq, Structural)]
pub enum Version {
    GameMaker8_0,
    GameMaker8_1,
}

/// What the host is to do once the running event is over.
#[derive(Clone, Copy, Debug, PartialEq, Eq, Structural)]
pub enum SceneChange {
    Room(i32),
    Restart,
    End,
}

/// A view into the room.
#[derive(Clone, Copy, Debug, PartialEq, Eq, Structural)]
pub struct RoomView {
    pub visible: bool,
    pub source_x: i32,
    pub source_y: i32,
    pub source_w: i32,
    pub source_h: i32,
    pub port_x: i32,
    pub port_y: i32,
    pub port_w: i32,
    pub port_h: i32,
    pub angle: Real,
    pub follow_hborder: i32,
    pub follow_vborder: i32,
    pub follow_hspeed: i32,
    pub follow_vspeed: i32,
    pub follow_target: i32,
}

/// A background layer of the room.
#[derive(Clone, Copy, Debug, PartialEq, Eq, Structural)]
pub struct BackgroundLayer {
    pub visible: bool,
    pub is_foreground: bool,
    pub background_id: i32,
    pub x_offset: Real,
    pub y_offset: Real,
    pub tile_horizontal: bool,
    pub tile_vertical: bool,
    pub xscale: Real,
    pub yscale: Real,
    pub hspeed: Real,
    pub vspeed: Real,
    pub blend: i32,
    pub alpha: Real,
}

/// The plain values of the game.
#[derive(Clone, Copy, Debug, PartialEq, Eq, Structural)]
pub struct Status {
    pub room_id: i32,
    pub room_width: i32,
    pub room_height: i32,
    /// Frames per second that the room asks for; never zero once a script has set it.
    pub room_speed: u32,
    pub room_colour: u32,
    pub show_room_colour: bool,
    /// True when the caption was set and the window title does not show it yet.
    pub caption_stale: bool,
    pub transition_kind: i32,
    pub transition_steps: i32,
    pub score: i32,
    pub lives: i32,
    pub health: Real,
    pub game_id: i32,
    pub views_enabled: bool,
    pub view_current: i32,
    /// Where the mouse is in the room, as the host last reported it.
    pub mouse_x: i32,
    pub mouse_y: i32,
    pub mouse_button: i32,
    pub mouse_lastbutton: i32,
    pub keyboard_key: i32,
    pub keyboard_lastkey: i32,
    pub cursor_sprite: i32,
    pub show_score: bool,
    pub show_lives: bool,
    pub show_health: bool,
    pub fps: u32,
    pub error_occurred: bool,
    pub version: Version,
    /// A change of room that a script asked for and the host has yet to make.
    pub scene_change: Option<SceneChange>,
    /// The time that the game is to believe, in nanoseconds, where the host does not use its clock.
    pub spoofed_time_nanos: Option<u128>,
    /// Whether a variable that was never set reads as zero or is an error.
    pub uninit_fields_are_zero: bool,
    /// Whether an argument that was not passed reads as zero or is an error.
    pub uninit_args_are_zero: bool,
}

/// The texts of the game.
pub struct Texts {
    pub caption: Vec<u8>,
    pub score_caption: Vec<u8>,
    pub lives_caption: Vec<u8>,
    pub health_caption: Vec<u8>,
    pub error_last: Vec<u8>,
    pub temp_directory: Vec<u8>,
    pub program_directory: Vec<u8>,
}

/// What `Texts` stands for in contracts.
pub struct TextsModel {
    pub caption: Seq<u8>,
    pub score_caption: Seq<u8>,
    pub lives_caption: Seq<u8>,
    pub health_caption: Seq<u8>,
    pub error_last: Seq<u8>,
    pub temp_directory: Seq<u8>,
    pub program_directory: Seq<u8>,
}

impl View for Texts {
    type V = TextsModel;

    open spec fn view(&self) -> TextsModel {
        TextsModel {
            caption: self.caption@,
            score_caption: self.score_caption@,
            lives_caption: self.lives_caption@,
            health_caption: self.health_caption@,
            error_last: self.error_last@,
            temp_directory: self.temp_directory@,
            program_directory: self.program_directory@,
        }
    }
}

impl Texts {
    /// All texts empty.
    pub fn new() -> (r: Texts)
        ensures
            r@.caption == Seq::<u8>::empty(),
            r@.score_caption == Seq::<u8>::empty(),
            r@.lives_caption == Seq::<u8>::empty(),
            r@.health_caption == Seq::<u8>::empty(),
            r@.error_last == Seq::<u8>::empty(),
            r@.temp_directory == Seq::<u8>::empty(),
            r@.program_directory == Seq::<u8>::empty(),
    {
        Texts {
            caption: Vec::new(),
            score_caption: Vec::new(),
            lives_caption: Vec::new(),
            health_caption: Vec::new(),
            error_last: Vec::new(),
            temp_directory: Vec::new(),
            program_directory: Vec::new(),
        }
    }
}

impl RoomView {
    /// A view that is switched off and follows nothing.
    pub open spec fn blank() -> RoomView {
        RoomView {
            visible: false,
            source_x: 0,
            source_y: 0,
            source_w: 0,
            source_h: 0,
            port_x: 0,
            port_y: 0,
            port_w: 0,
            port_h: 0,
            angle: Real { bits: 0 },
            follow_hborder: 0,
            follow_vborder: 0,
            follow_hspeed: 0,
            follow_vspeed: 0,
            follow_target: -1i32,
        }
    }

    pub fn new() -> (r: RoomView)
        ensures
            r == RoomView::blank(),
    {
        RoomView {
            visible: false,
            source_x: 0,
            source_y: 0,
            source_w: 0,
            source_h: 0,
            port_x: 0,
            port_y: 0,
            port_w: 0,
            port_h: 0,
            angle: Real { bits: 0 },
            follow_hborder: 0,
            follow_vborder: 0,
            follow_hspeed: 0,
            follow_vspeed: 0,
            follow_target: -1i32,
        }
    }
}

impl BackgroundLayer {
    /// A layer that shows nothing: no image, unscaled, opaque.
    pub open spec fn blank() -> BackgroundLayer {
        BackgroundLayer {
            visible: false,
            is_foreground: false,
            background_id: -1i32,
            x_offset: Real { bits: 0 },
            y_offset: Real { bits: 0 },
            tile_horizontal: false,
            tile_vertical: false,
            xscale: Real { bits: ONE_BITS },
            yscale: Real { bits: ONE_BITS },
            hspeed: Real { bits: 0 },
            vspeed: Real { bits: 0 },
            blend: 0xFFFFFF,
            alpha: Real { bits: ONE_BITS },
        }
    }

    pub fn new() -> (r: BackgroundLayer)
        ensures
            r == BackgroundLayer::blank(),
    {
        BackgroundLayer {
            visible: false,
            is_foreground: false,
            background_id: -1i32,
            x_offset: Real { bits: 0 },
            y_offset: Real { bits: 0 },
            tile_horizontal: false,
            tile_vertical: false,
            xscale: Real { bits: ONE_BITS },
            yscale: Real { bits: ONE_BITS },
            hspeed: Real { bits: 0 },
            vspeed: Real { bits: 0 },
            blend: 0xFFFFFF,
            alpha: Real { bits: ONE_BITS },
        }
    }
}

impl Status {
    /// The plain values of a game that has not started: room 0 at 30 frames
    /// per second, three lives, full health, nothing pending, and variables
    /// that were never set are errors.
    pub open spec fn initial(version: Version) -> Status {
        Status {
            room_id: 0,
            room_width: 0,
            room_height: 0,
            room_speed: 30,
            room_colour: 0,
            show_room_colour: false,
            caption_stale: false,
            transition_kind: 0,
            transition_steps: 0,
            score: 0,
            lives: 3,
            health: Real { bits: 0x4059_0000_0000_0000 },
            game_id: 0,
            views_enabled: false,
            view_current: 0,
            mouse_x: 0,
            mouse_y: 0,
            mouse_button: 0,
            mouse_lastbutton: 0,
            keyboard_key: 0,
            keyboard_lastkey: 0,
            cursor_sprite: -1i32,
            show_score: true,
            show_lives: true,
            show_health: true,
            fps: 0,
            error_occurred: false,
            version: version,
            scene_change: None,
            spoofed_time_nanos: None,
            uninit_fields_are_zero: false,
            uninit_args_are_zero: false,
        }
    }

    pub fn new(version: Version) -> (r: Status)
        ensures
            r == Status::initial(version),
    {
        Status {
            room_id: 0,
            room_width: 0,
            room_height: 0,
            room_speed: 30,
            room_colour: 0,
            show_room_colour: false,
            caption_stale: false,
            transition_kind: 0,
            transition_steps: 0,
            score: 0,
            lives: 3,
            health: Real { bits: 0x4059_0000_0000_0000 },
            game_id: 0,
            views_enabled: false,
            view_current: 0,
            mouse_x: 0,
            mouse_y: 0,
            mouse_button: 0,
            mouse_lastbutton: 0,
            keyboard_key: 0,
            keyboard_lastkey: 0,
            cursor_sprite: -1i32,
            show_score: true,
            show_lives: true,
            show_health: true,
            fps: 0,
            error_occurred: false,
            version: version,
            scene_change: None,
            spoofed_time_nanos: None,
            uninit_fields_are_zero: false,
            uninit_args_are_zero: false,
        }
    }
}

/// Variables that belong to no instance: those of the game, or those of one
/// running script.
pub struct Scope {
    /// User variables.
    pub fields: FieldHolder,
    /// Built-in variables that were set in this scope, keyed by the number
    /// of the variable.
    pub vars: FieldHolder,
}

impl Scope {
    pub fn new() -> (r: Scope)
        ensures
            r.fields@ == CellMap::empty(),
            r.vars@ == CellMap::empty(),
    {
        Scope { fields: FieldHolder::new(), vars: FieldHolder::new() }
    }
}

/// The frame of one call: who runs the code, what was passed, and what the
/// code has of its own.
pub struct Context {
    /// The handle of the instance that runs the code.
    pub this: usize,
    /// The handle of the other instance.
    pub other: usize,
    pub event_action: usize,
    pub relative: bool,
    pub event_type: usize,
    pub event_number: usize,
    pub event_object: i32,
    /// The arguments of the call. A frame that the runtime makes has
    /// `ARGUMENT_COUNT` of them, those that were not passed being zero.
    pub arguments: Vec<Value>,
    /// How many arguments were passed.
    pub argument_count: usize,
    pub locals: Scope,
    pub return_value: Value,
}

/// What a `Context` stands for in contracts.
pub struct ContextModel {
    pub this: usize,
    pub other: usize,
    pub event_action: usize,
    pub relative: bool,
    pub event_type: usize,
    pub event_number: usize,
    pub event_object: i32,
    pub arguments: Seq<ValueModel>,
    pub argument_count: usize,
    pub local_fields: CellMap,
    pub local_vars: CellMap,
    pub return_value: ValueModel,
}

/// The views of a list of values.
pub open spec fn values_view(v: Seq<Value>) -> Seq<ValueModel> {
    Seq::new(v.len(), |i: int| v[i]@)
}

impl View for Context {
    type V = ContextModel;

    open spec fn view(&self) -> ContextModel {
        ContextModel {
            this: self.this,
            other: self.other,
            event_action: self.event_action,
            relative: self.relative,
            event_type: self.event_type,
            event_number: self.event_number,
            event_object: self.event_object,
            arguments: values_view(self.arguments@),
            argument_count: self.argument_count,
            local_fields: self.locals.fields@,
            local_vars: self.locals.vars@,
            return_value: self.return_value@,
        }
    }
}

impl ContextModel {
    /// The frame of an event that an instance runs for itself: no arguments,
    /// no locals, and zero as the value returned so far.
    pub open spec fn for_instance(this: usize) -> ContextModel {
        ContextModel {
            this,
            other: this,
            event_action: 0,
            relative: false,
            event_type: 0,
            event_number: 0,
            event_object: 0,
            arguments: Seq::new(ARGUMENT_COUNT as nat, |i: int| ValueModel::zero()),
            argument_count: 0,
            local_fields: CellMap::empty(),
            local_vars: CellMap::empty(),
            return_value: ValueModel::zero(),
        }
    }

    /// The frame in which a script runs that was called from this one: the
    /// same instances and event, the arguments of the call, locals of its
    /// own, and zero as the value returned so far.
    pub open spec fn for_call(self, arguments: Seq<ValueModel>, argument_count: usize)
        -> ContextModel {
        ContextModel {
            arguments,
            argument_count,
            local_fields: CellMap::empty(),
            local_vars: CellMap::empty(),
            return_value: ValueModel::zero(),
            ..self
        }
    }
}

/// `ARGUMENT_COUNT` zeros.
pub fn zero_arguments() -> (r: Vec<Value>)
    ensures
        values_view(r@) == Seq::new(ARGUMENT_COUNT as nat, |i: int| ValueModel::zero()),
{
    let mut r: Vec<Value> = Vec::new();
    let mut i: usize = 0;
    while i < ARGUMENT_COUNT
        invariant
            i <= ARGUMENT_COUNT,
            r@.len() == i,
            forall|j: int| 0 <= j < i ==> r@[j]@ == ValueModel::zero(),
        decreases ARGUMENT_COUNT - i,
    {
        r.push(Value::zero());
        i += 1;
    }
    assert(values_view(r@) =~= Seq::new(ARGUMENT_COUNT as nat, |i: int| ValueModel::zero()));
    r
}

impl Context {
    /// The frame of an event that an instance runs for itself.
    pub fn new(this: usize) -> (r: Context)
        ensures
            r@ == ContextModel::for_instance(this),
    {
        Context {
            this,
            other: this,
            event_action: 0,
            relative: false,
            event_type: 0,
            event_number: 0,
            event_object: 0,
            arguments: zero_arguments(),
            argument_count: 0,
            locals: Scope::new(),
            return_value: Value::zero(),
        }
    }
}

/// The whole state of a game as scripts see it.
pub struct Game {
    pub instance_list: InstanceList,
    pub assets: Assets,
    /// The values of the constants that the game defines, by number.
    pub constants: Vec<Value>,
    /// The names of the user variables, by field id.
    pub field_names: Vec<String>,
    pub globals: Scope,
    /// The field ids that scripts have declared global.
    pub globalvars: HashSet<usize>,
    pub status: Status,
    pub texts: Texts,
    /// The numbers of the rooms in the order in which they are played.
    pub room_order: Vec<i32>,
    pub backgrounds: [BackgroundLayer; 8],
    pub views: [RoomView; 8],
}

/// What a `Game` stands for in contracts. Assets, constants, field names and
/// the order of rooms are kept as they are: scripts only read them.
pub struct GameModel {
    pub instances: Seq<InstanceModel>,
    pub assets: Assets,
    pub constants: Vec<Value>,
    pub field_names: Vec<String>,
    pub global_fields: CellMap,
    pub global_vars: CellMap,
    pub globalvars: Set<usize>,
    pub status: Status,
    pub texts: TextsModel,
    pub room_order: Vec<i32>,
    pub backgrounds: Seq<BackgroundLayer>,
    pub views: Seq<RoomView>,
}

impl View for Game {
    type V = GameModel;

    open spec fn view(&self) -> GameModel {
        GameModel {
            instances: self.instance_list@,
            assets: self.assets,
            constants: self.constants,
            field_names: self.field_names,
            global_fields: self.globals.fields@,
            global_vars: self.globals.vars@,
            globalvars: self.globalvars@,
            status: self.status,
            texts: self.texts@,
            room_order: self.room_order,
            backgrounds: self.backgrounds@,
            views: self.views@,
        }
    }
}

impl GameModel {
    /// The name of a user variable, or the empty text where it has none.
    pub open spec fn field_name(self, field: usize) -> Seq<char> {
        if field < self.field_names@.len() {
            self.field_names@[field as int]@
        } else {
            Seq::empty()
        }
    }

    /// The instance behind a handle, if the list holds one there.
    pub open spec fn instance(self, handle: usize) -> Option<InstanceModel> {
        if handle < self.instances.len() {
            Some(self.instances[handle as int])
        } else {
            None
        }
    }

    /// The game with the instance behind a handle replaced.
    pub open spec fn with_instance(self, handle: usize, instance: InstanceModel) -> GameModel {
        GameModel { instances: self.instances.update(handle as int, instance), ..self }
    }

    /// The game with other plain values.
    pub open spec fn with_status(self, status: Status) -> GameModel {
        GameModel { status, ..self }
    }
}

impl Game {
    /// A game with nothing in it.
    pub fn new(version: Version) -> (r: Game)
        ensures
            r@.instances == Seq::<InstanceModel>::empty(),
            r@.global_fields == CellMap::empty(),
            r@.global_vars == CellMap::empty(),
            r@.globalvars == Set::<usize>::empty(),
            r@.status == Status::initial(version),
            r@.constants@.len() == 0,
            r@.field_names@.len() == 0,
            r@.room_order@.len() == 0,
            r@.backgrounds == Seq::new(LAYER_COUNT as nat, |i: int| BackgroundLayer::blank()),
            r@.views == Seq::new(LAYER_COUNT as nat, |i: int| RoomView::blank()),
    {
        let b = BackgroundLayer::new();
        let v = RoomView::new();
        let r = Game {
            instance_list: InstanceList::new(),
            assets: Assets::new(),
            constants: Vec::new(),
            field_names: Vec::new(),
            globals: Scope::new(),
            globalvars: HashSet::new(),
            status: Status::new(version),
            texts: Texts::new(),
            room_order: Vec::new(),
            backgrounds: [b, b, b, b, b, b, b, b],
            views: [v, v, v, v, v, v, v, v],
        };
        assert(r@.backgrounds =~= Seq::new(LAYER_COUNT as nat, |i: int| BackgroundLayer::blank()));
        assert(r@.views =~= Seq::new(LAYER_COUNT as nat, |i: int| RoomView::blank()));
        assert(r@.globalvars =~= Set::<usize>::empty());
        r
    }

    /// The name of a user variable, or the empty text where it has none.
    pub fn field_name(&self, field: usize) -> (r: String)
        ensures
            r@ == self@.field_name(field),
    {
        if field < self.field_names.len() {
            self.field_names[field].clone()
        } else {
            String::new()
        }
    }
}

/// The calendar date and time of day.
#[derive(Clone, Copy, Debug, PartialEq, Eq, Structural)]
pub struct Calendar {
    pub year: i32,
    pub month: i32,
    pub day: i32,
    pub weekday: i32,
    pub hour: i32,
    pub minute: i32,
    pub second: i32,
}

/// What the runtime asks of the program around it. Nothing is assumed of
/// what an implementation does or returns: whatever the runtime proves, it
/// proves for every host.
pub trait Host {
    /// Calls the built-in function with a number on the arguments given.
    /// The function may read and change the game and the calling frame, and
    /// may run scripts, for which it is handed the budget that is left.
    fn call_function(
        &mut self,
        game: &mut Game,
        context: &mut Context,
        function: usize,
        arguments: &Vec<Value>,
        budget: u64,
    ) -> Result<Value, Error>;

    /// Runs an event of the given type and number for every instance that
    /// has one.
    fn run_object_event(
        &mut self,
        game: &mut Game,
        event_type: usize,
        event_number: usize,
        budget: u64,
    ) -> Result<(), Error>;

    /// Computes the bounding box of an instance from its mask.
    fn bounding_box(&mut self, state: &InstanceState, mask: Option<Sprite>) -> BoundingBox;

    /// Speed and direction for a horizontal and a vertical speed.
    fn polar(&mut self, hspeed: Real, vspeed: Real) -> (Real, Real);

    /// Horizontal and vertical speed for a speed and a direction.
    fn cartesian(&mut self, speed: Real, direction: Real) -> (Real, Real);

    /// The speed factor of a path at a position between 0 and 1.
    fn path_point_speed(&mut self, path: &Path, position: Real) -> Real;

    /// Milliseconds on the host's clock.
    fn clock_millis(&mut self) -> u64;

    /// The date and time of the moment given in nanoseconds, or of now.
    fn calendar(&mut self, spoofed_nanos: Option<u128>) -> Calendar;

    /// The working directory in the encoding of the game, or, where it has
    /// no such encoding, the path as text.
    fn working_directory(&mut self) -> Result<Vec<u8>, String>;
}

/// A host that knows no function, runs no event and measures nothing.
pub struct Headless {}

impl Host for Headless {
    fn call_function(
        &mut self,
        game: &mut Game,
        context: &mut Context,
        function: usize,
        arguments: &Vec<Value>,
        budget: u64,
    ) -> (r: Result<Value, Error>)
        ensures
            r is Err,
            *final(game) == *old(game),
            *final(context) == *old(context),
    {
        Err(Error::UnknownFunction(String::new()))
    }

    fn run_object_event(
        &mut self,
        game: &mut Game,
        event_type: usize,
        event_number: usize,
        budget: u64,
    ) -> (r: Result<(), Error>)
        ensures
            r is Ok,
            *final(game) == *old(game),
    {
        Ok(())
    }

    fn bounding_box(&mut self, state: &InstanceState, mask: Option<Sprite>) -> (r: BoundingBox)
        ensures
            r == (BoundingBox { left: 0, right: 0, top: 0, bottom: 0 }),
    {
        BoundingBox { left: 0, right: 0, top: 0, bottom: 0 }
    }

    fn polar(&mut self, hspeed: Real, vspeed: Real) -> (r: (Real, Real))
        ensures
            r == (Real { bits: 0 }, Real { bits: 0 }),
    {
        (Real { bits: 0 }, Real { bits: 0 })
    }

    fn cartesian(&mut self, speed: Real, direction: Real) -> (r: (Real, Real))
        ensures
            r == (Real { bits: 0 }, Real { bits: 0 }),
    {
        (Real { bits: 0 }, Real { bits: 0 })
    }

    fn path_point_speed(&mut self, path: &Path, position: Real) -> (r: Real)
        ensures
            r.bits == 0,
    {
        Real { bits: 0 }
    }

    fn clock_millis(&mut self) -> (r: u64)
        ensures
            r == 0,
    {
        0
    }

    fn calendar(&mut self, spoofed_nanos: Option<u128>) -> (r: Calendar)
        ensures
            r == (Calendar { year: 0, month: 0, day: 0, weekday: 0, hour: 0, minute: 0, second: 0 }),
    {
        Calendar { year: 0, month: 0, day: 0, weekday: 0, hour: 0, minute: 0, second: 0 }
    }

    fn working_directory(&mut self) -> (r: Result<Vec<u8>, String>)
        ensures
            r is Ok,
    {
        Ok(Vec::new())
    }
}

} // verus!
