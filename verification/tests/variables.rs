use gml_runtime::asset::Background;
use gml_runtime::asset::Path;
use gml_runtime::asset::PathPoint;
use gml_runtime::asset::Sprite;
use gml_runtime::error::Error;
use gml_runtime::game::Calendar;
use gml_runtime::game::Context;
use gml_runtime::game::Game;
use gml_runtime::game::Headless;
use gml_runtime::game::Host;
use gml_runtime::game::SceneChange;
use gml_runtime::game::Version;
use gml_runtime::instance::BoundingBox;
use gml_runtime::instance::Instance;
use gml_runtime::instance::InstanceState;
use gml_runtime::number::Real;
use gml_runtime::operator::BinaryOperator;
use gml_runtime::tree::ArrayAccessor;
use gml_runtime::tree::InstanceIdentifier;
use gml_runtime::tree::Instruction;
use gml_runtime::tree::Node;
use gml_runtime::tree::VariableAccessor;
use gml_runtime::value::Value;
use gml_runtime::variable::InstanceVariable;

const BUDGET: u64 = 100_000;

fn re(x: f64) -> Real {
    Real::from_bits(x.to_bits())
}

fn num(x: f64) -> Value {
    Value::Real(re(x))
}

fn text(s: &str) -> Value {
    Value::Str(s.as_bytes().to_vec())
}

fn as_f64(v: &Value) -> f64 {
    match v {
        Value::Real(x) => f64::from_bits(x.to_bits()),
        Value::Str(_) => panic!("not a number"),
    }
}

fn as_text(v: &Value) -> String {
    match v {
        Value::Real(_) => panic!("not a string"),
        Value::Str(s) => String::from_utf8(s.clone()).unwrap(),
    }
}

/// A host whose bounding boxes start at the place of the instance and have
/// the size of the mask, and which notes the events that it is asked to run.
struct Recorder {
    events: Vec<(usize, usize)>,
    boxes: usize,
}

impl Recorder {
    fn new() -> Recorder {
        Recorder { events: vec![], boxes: 0 }
    }
}

impl Host for Recorder {
    fn call_function(
        &mut self,
        _game: &mut Game,
        _context: &mut Context,
        function: usize,
        _arguments: &Vec<Value>,
        _budget: u64,
    ) -> Result<Value, Error> {
        Err(Error::UnknownFunction(function.to_string()))
    }

    fn run_object_event(
        &mut self,
        _game: &mut Game,
        event_type: usize,
        event_number: usize,
        _budget: u64,
    ) -> Result<(), Error> {
        self.events.push((event_type, event_number));
        Ok(())
    }

    fn bounding_box(&mut self, state: &InstanceState, mask: Option<Sprite>) -> BoundingBox {
        self.boxes += 1;
        let x = f64::from_bits(state.x.to_bits()) as i32;
        let y = f64::from_bits(state.y.to_bits()) as i32;
        match mask {
            Some(sprite) => BoundingBox {
                left: x,
                right: x + sprite.width as i32 - 1,
                top: y,
                bottom: y + sprite.height as i32 - 1,
            },
            None => BoundingBox { left: -100000, right: -100000, top: -100000, bottom: -100000 },
        }
    }

    fn polar(&mut self, hspeed: Real, vspeed: Real) -> (Real, Real) {
        let h = f64::from_bits(hspeed.to_bits());
        let v = f64::from_bits(vspeed.to_bits());
        (re((h * h + v * v).sqrt()), re((-v).atan2(h).to_degrees()))
    }

    fn cartesian(&mut self, speed: Real, direction: Real) -> (Real, Real) {
        let s = f64::from_bits(speed.to_bits());
        let d = f64::from_bits(direction.to_bits()).to_radians();
        (re(s * d.cos()), re(-s * d.sin()))
    }

    fn path_point_speed(&mut self, path: &Path, _position: Real) -> Real {
        path.points[0].speed
    }

    fn clock_millis(&mut self) -> u64 {
        0x1_0000_0123
    }

    fn calendar(&mut self, _spoofed_nanos: Option<u128>) -> Calendar {
        Calendar { year: 2001, month: 2, day: 3, weekday: 4, hour: 5, minute: 6, second: 7 }
    }

    fn working_directory(&mut self) -> Result<Vec<u8>, String> {
        Err("/nowhere".to_string())
    }
}

/// A game with one sprite of 32 by 16 with three frames and two instances,
/// the first of which shows the sprite.
fn game() -> Game {
    let mut game = Game::new(Version::GameMaker8_1);
    game.assets.sprites.push(Some(Sprite {
        frame_count: 3,
        width: 32,
        height: 16,
        origin_x: 4,
        origin_y: 5,
    }));
    game.assets.sprites.push(None);
    game.assets.sprites.push(Some(Sprite {
        frame_count: 1,
        width: 8,
        height: 8,
        origin_x: 0,
        origin_y: 0,
    }));
    let mut first = Instance::new(100001, 0, re(10.0), re(20.0));
    first.state.sprite_index = 0;
    game.instance_list.insert(first);
    game.instance_list.insert(Instance::new(100002, 0, re(0.0), re(0.0)));
    game
}

fn get(game: &mut Game, var: InstanceVariable, index: u32) -> Result<Value, Error> {
    let ctx = Context::new(0);
    game.get_instance_var(&mut Recorder::new(), 0, &var, index, &ctx)
}

fn getf(game: &mut Game, var: InstanceVariable) -> f64 {
    as_f64(&get(game, var, 0).unwrap())
}

fn put(game: &mut Game, var: InstanceVariable, index: u32, value: Value) -> Result<(), Error> {
    let mut ctx = Context::new(0);
    game.set_instance_var(&mut Recorder::new(), 0, &var, index, value, &mut ctx, BUDGET)
}

#[test]
fn plain_variables_of_an_instance_read_what_was_set() {
    let mut game = game();
    let reals = [
        InstanceVariable::X,
        InstanceVariable::Y,
        InstanceVariable::Xprevious,
        InstanceVariable::Yprevious,
        InstanceVariable::Xstart,
        InstanceVariable::Ystart,
        InstanceVariable::Friction,
        InstanceVariable::Gravity,
        InstanceVariable::GravityDirection,
        InstanceVariable::Depth,
        InstanceVariable::ImageIndex,
        InstanceVariable::ImageXscale,
        InstanceVariable::ImageYscale,
        InstanceVariable::ImageAngle,
        InstanceVariable::ImageAlpha,
        InstanceVariable::ImageSpeed,
        InstanceVariable::PathPositionprevious,
        InstanceVariable::PathSpeed,
        InstanceVariable::PathScale,
        InstanceVariable::PathOrientation,
        InstanceVariable::TimelinePosition,
        InstanceVariable::TimelineSpeed,
    ];
    for (i, var) in reals.iter().enumerate() {
        let v = 1.25 + i as f64;
        put(&mut game, *var, 0, num(v)).unwrap();
        assert_eq!(getf(&mut game, *var), v, "{:?}", var);
    }
    let ints = [
        InstanceVariable::MaskIndex,
        InstanceVariable::ImageBlend,
        InstanceVariable::PathEndAction,
        InstanceVariable::TimelineIndex,
    ];
    for (i, var) in ints.iter().enumerate() {
        put(&mut game, *var, 0, num(2.6 + i as f64)).unwrap();
        assert_eq!(getf(&mut game, *var), 3.0 + i as f64, "{:?}", var);
    }
    let bools = [
        InstanceVariable::Solid,
        InstanceVariable::Visible,
        InstanceVariable::Persistent,
        InstanceVariable::TimelineRunning,
        InstanceVariable::TimelineLoop,
    ];
    for var in bools {
        put(&mut game, var, 0, num(0.7)).unwrap();
        assert_eq!(getf(&mut game, var), 1.0, "{:?}", var);
        put(&mut game, var, 0, num(0.2)).unwrap();
        assert_eq!(getf(&mut game, var), 0.0, "{:?}", var);
    }
    assert_eq!(getf(&mut game, InstanceVariable::Id), 100001.0);
    assert_eq!(getf(&mut game, InstanceVariable::ObjectIndex), 0.0);
    assert_eq!(getf(&mut game, InstanceVariable::PathIndex), -1.0);
}

#[test]
fn variables_without_a_setter_are_read_only() {
    let mut game = game();
    let read_only = [
        InstanceVariable::ObjectIndex,
        InstanceVariable::Id,
        InstanceVariable::BboxLeft,
        InstanceVariable::BboxRight,
        InstanceVariable::BboxTop,
        InstanceVariable::BboxBottom,
        InstanceVariable::ImageNumber,
        InstanceVariable::SpriteWidth,
        InstanceVariable::SpriteHeight,
        InstanceVariable::SpriteXoffset,
        InstanceVariable::SpriteYoffset,
        InstanceVariable::PathIndex,
        InstanceVariable::ArgumentRelative,
        InstanceVariable::ArgumentCount,
        InstanceVariable::RoomFirst,
        InstanceVariable::RoomLast,
        InstanceVariable::GameId,
        InstanceVariable::WorkingDirectory,
        InstanceVariable::TempDirectory,
        InstanceVariable::ProgramDirectory,
        InstanceVariable::InstanceCount,
        InstanceVariable::InstanceId,
        InstanceVariable::RoomWidth,
        InstanceVariable::RoomHeight,
        InstanceVariable::BackgroundWidth,
        InstanceVariable::BackgroundHeight,
        InstanceVariable::ViewCurrent,
        InstanceVariable::MouseX,
        InstanceVariable::MouseY,
        InstanceVariable::Fps,
        InstanceVariable::CurrentTime,
        InstanceVariable::CurrentYear,
        InstanceVariable::CurrentSecond,
        InstanceVariable::EventType,
        InstanceVariable::EventNumber,
        InstanceVariable::EventObject,
        InstanceVariable::EventAction,
        InstanceVariable::SecureMode,
        InstanceVariable::DebugMode,
        InstanceVariable::GamemakerRegistered,
        InstanceVariable::GamemakerPro,
        InstanceVariable::GamemakerVersion,
        InstanceVariable::OsType,
        InstanceVariable::OsDevice,
        InstanceVariable::OsBrowser,
        InstanceVariable::OsVersion,
        InstanceVariable::BrowserWidth,
        InstanceVariable::BrowserHeight,
        InstanceVariable::DisplayAa,
        InstanceVariable::AsyncLoad,
        InstanceVariable::RoomPersistent,
        InstanceVariable::KeyboardLastchar,
        InstanceVariable::KeyboardString,
    ];
    for var in read_only {
        match put(&mut game, var, 0, num(1.0)) {
            Err(Error::ReadOnlyVariable(v)) => assert_eq!(v, var),
            other => panic!("{:?}: expected ReadOnlyVariable, got {:?}", var, other),
        }
    }
}

#[test]
fn variables_that_the_runtime_does_not_hold_read_as_never_set() {
    let mut game = game();
    for var in [
        InstanceVariable::RoomPersistent,
        InstanceVariable::KeyboardLastchar,
        InstanceVariable::KeyboardString,
    ] {
        match get(&mut game, var, 2) {
            Err(Error::UninitializedVariable(name, 2)) => assert_eq!(name, var.name()),
            other => panic!("expected UninitializedVariable, got {:?}", other),
        }
    }
}

#[test]
fn constants_of_the_engine() {
    let mut game = game();
    assert_eq!(getf(&mut game, InstanceVariable::GamemakerRegistered), 1.0);
    assert_eq!(getf(&mut game, InstanceVariable::GamemakerPro), 1.0);
    assert_eq!(getf(&mut game, InstanceVariable::GamemakerVersion), 810.0);
    game.status.version = Version::GameMaker8_0;
    assert_eq!(getf(&mut game, InstanceVariable::GamemakerVersion), 800.0);
    assert_eq!(getf(&mut game, InstanceVariable::SecureMode), 0.0);
    assert_eq!(getf(&mut game, InstanceVariable::DebugMode), 0.0);
    assert_eq!(getf(&mut game, InstanceVariable::OsType), 0.0);
    for var in [
        InstanceVariable::OsBrowser,
        InstanceVariable::OsVersion,
        InstanceVariable::BrowserWidth,
        InstanceVariable::BrowserHeight,
        InstanceVariable::AsyncLoad,
    ] {
        assert_eq!(getf(&mut game, var), -1.0);
    }
    assert_eq!(getf(&mut game, InstanceVariable::DisplayAa), 14.0);
}

#[test]
fn assignments_that_move_or_reshape_mark_the_bbox_stale() {
    let changes = [
        (InstanceVariable::X, 11.0),
        (InstanceVariable::Y, 21.0),
        (InstanceVariable::SpriteIndex, 2.0),
        (InstanceVariable::MaskIndex, 2.0),
        (InstanceVariable::ImageXscale, 2.0),
        (InstanceVariable::ImageYscale, 2.0),
        (InstanceVariable::ImageAngle, 90.0),
    ];
    for (var, value) in changes {
        let mut game = game();
        game.instance_list.instances[0].state.bbox_is_stale = false;
        let before = getf(&mut game, var);
        put(&mut game, var, 0, num(before)).unwrap();
        assert!(!game.instance_list.instances[0].state.bbox_is_stale, "{:?} unchanged", var);
        put(&mut game, var, 0, num(value)).unwrap();
        assert!(game.instance_list.instances[0].state.bbox_is_stale, "{:?} changed", var);
        assert_eq!(getf(&mut game, var), value);
    }
    let mut game = game();
    game.instance_list.instances[0].state.bbox_is_stale = false;
    for var in [InstanceVariable::ImageAlpha, InstanceVariable::Depth, InstanceVariable::Xstart] {
        put(&mut game, var, 0, num(0.3)).unwrap();
    }
    assert!(!game.instance_list.instances[0].state.bbox_is_stale);
}

#[test]
fn reading_the_bbox_refreshes_it_once() {
    let mut game = game();
    let mut host = Recorder::new();
    let ctx = Context::new(0);
    assert!(game.instance_list.instances[0].state.bbox_is_stale);
    let left = game.get_instance_var(&mut host, 0, &InstanceVariable::BboxLeft, 0, &ctx).unwrap();
    assert_eq!(as_f64(&left), 10.0);
    assert!(!game.instance_list.instances[0].state.bbox_is_stale);
    let right = game.get_instance_var(&mut host, 0, &InstanceVariable::BboxRight, 0, &ctx).unwrap();
    let top = game.get_instance_var(&mut host, 0, &InstanceVariable::BboxTop, 0, &ctx).unwrap();
    let bottom = game.get_instance_var(&mut host, 0, &InstanceVariable::BboxBottom, 0, &ctx).unwrap();
    assert_eq!((as_f64(&right), as_f64(&top), as_f64(&bottom)), (41.0, 20.0, 35.0));
    assert_eq!(host.boxes, 1);
}

#[test]
fn bbox_left_follows_a_move() {
    let mut game = game();
    let mut host = Recorder::new();
    let mut ctx = Context::new(0);
    let bbox_left = Node::Variable {
        accessor: VariableAccessor {
            var: InstanceVariable::BboxLeft,
            array: ArrayAccessor::NoIndex,
            owner: InstanceIdentifier::Own,
        },
    };
    let x = || VariableAccessor {
        var: InstanceVariable::X,
        array: ArrayAccessor::NoIndex,
        owner: InstanceIdentifier::Own,
    };
    let before = as_f64(&game.eval(&mut host, &bbox_left, &mut ctx, BUDGET).unwrap());
    let code = vec![Instruction::SetVariable {
        accessor: x(),
        value: Node::Binary {
            left: Box::new(Node::Variable { accessor: x() }),
            right: Box::new(Node::Literal { value: num(5.0) }),
            operator: BinaryOperator::Add,
        },
    }];
    game.execute(&mut host, &code, &mut ctx, BUDGET).unwrap();
    let after = as_f64(&game.eval(&mut host, &bbox_left, &mut ctx, BUDGET).unwrap());
    assert_eq!(after, before + 5.0);
}

#[test]
fn the_mask_sprite_is_the_mask_or_else_the_sprite() {
    let mut game = game();
    assert_eq!(game.get_instance_sprite(0).unwrap().width, 32);
    assert_eq!(game.get_instance_mask_sprite(0).unwrap().width, 32);
    game.instance_list.instances[0].state.mask_index = 2;
    assert_eq!(game.get_instance_sprite(0).unwrap().width, 32);
    assert_eq!(game.get_instance_mask_sprite(0).unwrap().width, 8);
    game.instance_list.instances[0].state.mask_index = 1;
    assert!(game.get_instance_mask_sprite(0).is_none());
    game.instance_list.instances[0].state.mask_index = 9;
    assert!(game.get_instance_mask_sprite(0).is_none());
    assert!(game.get_instance_sprite(1).is_none());
    assert!(game.get_instance_mask_sprite(1).is_none());
    assert!(game.get_instance_sprite(7).is_none());
}

#[test]
fn sprite_geometry_comes_from_the_sprite() {
    let mut game = game();
    assert_eq!(getf(&mut game, InstanceVariable::ImageNumber), 3.0);
    assert_eq!(getf(&mut game, InstanceVariable::SpriteWidth), 32.0);
    assert_eq!(getf(&mut game, InstanceVariable::SpriteHeight), 16.0);
    assert_eq!(getf(&mut game, InstanceVariable::SpriteXoffset), 4.0);
    assert_eq!(getf(&mut game, InstanceVariable::SpriteYoffset), 5.0);
    put(&mut game, InstanceVariable::ImageXscale, 0, num(1.5)).unwrap();
    put(&mut game, InstanceVariable::ImageYscale, 0, num(-2.0)).unwrap();
    assert_eq!(getf(&mut game, InstanceVariable::SpriteWidth), 48.0);
    assert_eq!(getf(&mut game, InstanceVariable::SpriteHeight), -32.0);
    put(&mut game, InstanceVariable::SpriteIndex, 0, num(-1.0)).unwrap();
    for var in [
        InstanceVariable::ImageNumber,
        InstanceVariable::SpriteWidth,
        InstanceVariable::SpriteHeight,
        InstanceVariable::SpriteXoffset,
        InstanceVariable::SpriteYoffset,
    ] {
        assert_eq!(getf(&mut game, var), 0.0);
    }
}

#[test]
fn a_new_sprite_resets_a_frame_that_it_does_not_have() {
    let mut game = game();
    put(&mut game, InstanceVariable::ImageIndex, 0, num(2.5)).unwrap();
    put(&mut game, InstanceVariable::SpriteIndex, 0, num(0.0)).unwrap();
    assert_eq!(getf(&mut game, InstanceVariable::ImageIndex), 2.5);
    put(&mut game, InstanceVariable::SpriteIndex, 0, num(2.0)).unwrap();
    assert_eq!(getf(&mut game, InstanceVariable::ImageIndex), 0.0);
    assert_eq!(getf(&mut game, InstanceVariable::SpriteIndex), 2.0);
}

#[test]
fn alarms_default_to_minus_one() {
    let mut game = game();
    assert_eq!(as_f64(&get(&mut game, InstanceVariable::Alarm, 3).unwrap()), -1.0);
    put(&mut game, InstanceVariable::Alarm, 3, num(30.0)).unwrap();
    assert_eq!(as_f64(&get(&mut game, InstanceVariable::Alarm, 3).unwrap()), 30.0);
    assert_eq!(as_f64(&get(&mut game, InstanceVariable::Alarm, 4).unwrap()), -1.0);
}

#[test]
fn image_single_freezes_the_animation() {
    let mut game = game();
    assert_eq!(getf(&mut game, InstanceVariable::ImageSingle), -1.0);
    put(&mut game, InstanceVariable::ImageSingle, 0, num(2.0)).unwrap();
    assert_eq!(getf(&mut game, InstanceVariable::ImageSingle), 2.0);
    assert_eq!(getf(&mut game, InstanceVariable::ImageIndex), 2.0);
    assert_eq!(getf(&mut game, InstanceVariable::ImageSpeed), 0.0);
    put(&mut game, InstanceVariable::ImageSingle, 0, num(-1.0)).unwrap();
    assert_eq!(getf(&mut game, InstanceVariable::ImageSpeed), 1.0);
    assert_eq!(getf(&mut game, InstanceVariable::ImageIndex), 2.0);
    assert_eq!(getf(&mut game, InstanceVariable::ImageSingle), -1.0);
}

#[test]
fn arguments_map_to_the_frame() {
    let mut game = game();
    let mut ctx = Context::new(0);
    ctx.arguments[0] = num(5.0);
    ctx.arguments[15] = text("last");
    ctx.argument_count = 1;
    let mut host = Headless {};
    let read = |game: &mut Game, ctx: &Context, var: InstanceVariable, i: u32| {
        game.get_instance_var(&mut Headless {}, 0, &var, i, ctx)
    };
    assert_eq!(as_f64(&read(&mut game, &ctx, InstanceVariable::Argument0, 0).unwrap()), 5.0);
    assert_eq!(as_text(&read(&mut game, &ctx, InstanceVariable::Argument15, 0).unwrap()), "last");
    assert_eq!(as_f64(&read(&mut game, &ctx, InstanceVariable::Argument, 0).unwrap()), 5.0);
    assert_eq!(as_f64(&read(&mut game, &ctx, InstanceVariable::Argument3, 0).unwrap()), 0.0);
    assert_eq!(as_f64(&read(&mut game, &ctx, InstanceVariable::ArgumentCount, 0).unwrap()), 1.0);
    assert_eq!(as_f64(&read(&mut game, &ctx, InstanceVariable::ArgumentRelative, 0).unwrap()), 0.0);
    // reading beyond the frame
    game.status.uninit_args_are_zero = false;
    assert!(matches!(
        read(&mut game, &ctx, InstanceVariable::Argument, 16),
        Err(Error::UninitializedArgument(16))
    ));
    game.status.uninit_args_are_zero = true;
    assert_eq!(as_f64(&read(&mut game, &ctx, InstanceVariable::Argument, 16).unwrap()), 0.0);
    // writing a slot that was passed
    game.status.uninit_args_are_zero = false;
    game.set_instance_var(&mut host, 0, &InstanceVariable::Argument0, 0, num(6.0), &mut ctx, BUDGET)
        .unwrap();
    assert_eq!(as_f64(&ctx.arguments[0]), 6.0);
    // writing a slot that was not passed
    assert!(matches!(
        game.set_instance_var(&mut host, 0, &InstanceVariable::Argument2, 0, num(6.0), &mut ctx, BUDGET),
        Err(Error::UninitializedArgument(2))
    ));
    assert!(matches!(
        game.set_instance_var(&mut host, 0, &InstanceVariable::Argument, 20, num(6.0), &mut ctx, BUDGET),
        Err(Error::UninitializedArgument(20))
    ));
    game.status.uninit_args_are_zero = true;
    game.set_instance_var(&mut host, 0, &InstanceVariable::Argument, 2, num(7.0), &mut ctx, BUDGET)
        .unwrap();
    assert_eq!(as_f64(&ctx.arguments[2]), 7.0);
    game.set_instance_var(&mut host, 0, &InstanceVariable::Argument, 20, num(6.0), &mut ctx, BUDGET)
        .unwrap();
    assert_eq!(ctx.arguments.len(), 16);
}

#[test]
fn event_variables_come_from_the_frame() {
    let mut game = game();
    let mut ctx = Context::new(0);
    ctx.event_type = 3;
    ctx.event_number = 4;
    ctx.event_object = 5;
    ctx.event_action = 6;
    ctx.relative = true;
    let mut read = |var: InstanceVariable| {
        as_f64(&game.get_instance_var(&mut Headless {}, 0, &var, 0, &ctx).unwrap())
    };
    assert_eq!(read(InstanceVariable::EventType), 3.0);
    assert_eq!(read(InstanceVariable::EventNumber), 4.0);
    assert_eq!(read(InstanceVariable::EventObject), 5.0);
    assert_eq!(read(InstanceVariable::EventAction), 6.0);
    assert_eq!(read(InstanceVariable::ArgumentRelative), 1.0);
}

#[test]
fn room_speed_rejects_zero_and_negatives() {
    let mut game = game();
    put(&mut game, InstanceVariable::RoomSpeed, 0, num(60.0)).unwrap();
    assert_eq!(getf(&mut game, InstanceVariable::RoomSpeed), 60.0);
    for (v, rounded) in [(0.0, 0), (-5.0, -5), (0.4, 0), (-0.6, -1)] {
        match put(&mut game, InstanceVariable::RoomSpeed, 0, num(v)) {
            Err(Error::InvalidRoomSpeed(n)) => assert_eq!(n, rounded),
            other => panic!("expected InvalidRoomSpeed, got {:?}", other),
        }
        assert_eq!(getf(&mut game, InstanceVariable::RoomSpeed), 60.0);
    }
    put(&mut game, InstanceVariable::RoomSpeed, 0, num(0.6)).unwrap();
    assert_eq!(getf(&mut game, InstanceVariable::RoomSpeed), 1.0);
}

#[test]
fn running_out_of_lives_runs_the_event_once() {
    let mut game = game();
    let mut host = Recorder::new();
    let mut ctx = Context::new(0);
    let mut set_lives = |game: &mut Game, host: &mut Recorder, v: f64| {
        game.set_instance_var(host, 0, &InstanceVariable::Lives, 0, num(v), &mut ctx, BUDGET).unwrap();
    };
    set_lives(&mut game, &mut host, 1.0);
    assert_eq!(host.events.len(), 0);
    set_lives(&mut game, &mut host, 0.0);
    assert_eq!(host.events, vec![(7, 6)]);
    set_lives(&mut game, &mut host, -1.0);
    assert_eq!(host.events.len(), 1);
    set_lives(&mut game, &mut host, 3.0);
    assert_eq!(host.events.len(), 1);
    set_lives(&mut game, &mut host, -1.0);
    assert_eq!(host.events, vec![(7, 6), (7, 6)]);
    assert_eq!(game.status.lives, -1);
}

#[test]
fn running_out_of_health_runs_the_event_once() {
    let mut game = game();
    let mut host = Recorder::new();
    let mut ctx = Context::new(0);
    let mut set_health = |game: &mut Game, host: &mut Recorder, v: f64| {
        game.set_instance_var(host, 0, &InstanceVariable::Health, 0, num(v), &mut ctx, BUDGET).unwrap();
    };
    assert_eq!(f64::from_bits(game.status.health.to_bits()), 100.0);
    set_health(&mut game, &mut host, 50.0);
    assert_eq!(host.events.len(), 0);
    set_health(&mut game, &mut host, 0.0);
    assert_eq!(host.events, vec![(7, 9)]);
    set_health(&mut game, &mut host, -10.0);
    assert_eq!(host.events.len(), 1);
    set_health(&mut game, &mut host, 0.5);
    set_health(&mut game, &mut host, -0.5);
    assert_eq!(host.events, vec![(7, 9), (7, 9)]);
}

#[test]
fn an_error_of_the_event_is_the_error_of_the_assignment() {
    struct Failing;
    impl Host for Failing {
        fn call_function(
            &mut self,
            _game: &mut Game,
            _context: &mut Context,
            _function: usize,
            _arguments: &Vec<Value>,
            _budget: u64,
        ) -> Result<Value, Error> {
            Ok(Value::zero())
        }
        fn run_object_event(
            &mut self,
            _game: &mut Game,
            _event_type: usize,
            _event_number: usize,
            _budget: u64,
        ) -> Result<(), Error> {
            Err(Error::EndOfRoomOrder)
        }
        fn bounding_box(&mut self, _state: &InstanceState, _mask: Option<Sprite>) -> BoundingBox {
            BoundingBox { left: 0, right: 0, top: 0, bottom: 0 }
        }
        fn polar(&mut self, h: Real, _v: Real) -> (Real, Real) {
            (h, h)
        }
        fn cartesian(&mut self, s: Real, _d: Real) -> (Real, Real) {
            (s, s)
        }
        fn path_point_speed(&mut self, _path: &Path, position: Real) -> Real {
            position
        }
        fn clock_millis(&mut self) -> u64 {
            0
        }
        fn calendar(&mut self, _spoofed_nanos: Option<u128>) -> Calendar {
            Calendar { year: 0, month: 0, day: 0, weekday: 0, hour: 0, minute: 0, second: 0 }
        }
        fn working_directory(&mut self) -> Result<Vec<u8>, String> {
            Ok(vec![])
        }
    }
    let mut game = game();
    let mut ctx = Context::new(0);
    let r = game.set_instance_var(
        &mut Failing,
        0,
        &InstanceVariable::Lives,
        0,
        num(0.0),
        &mut ctx,
        BUDGET,
    );
    assert!(matches!(r, Err(Error::EndOfRoomOrder)));
    assert_eq!(game.status.lives, 0);
}

#[test]
fn assigning_room_schedules_a_scene_change() {
    let mut game = game();
    assert_eq!(game.status.scene_change, None);
    put(&mut game, InstanceVariable::Room, 0, num(4.0)).unwrap();
    assert_eq!(game.status.scene_change, Some(SceneChange::Room(4)));
    assert_eq!(getf(&mut game, InstanceVariable::Room), 0.0);
}

#[test]
fn the_caption_is_marked_stale_when_set() {
    let mut game = game();
    assert!(!game.status.caption_stale);
    put(&mut game, InstanceVariable::RoomCaption, 0, text("Level 2")).unwrap();
    assert!(game.status.caption_stale);
    assert_eq!(as_text(&get(&mut game, InstanceVariable::RoomCaption, 0).unwrap()), "Level 2");
    for (var, s) in [
        (InstanceVariable::CaptionScore, "Score: "),
        (InstanceVariable::CaptionLives, "Lives: "),
        (InstanceVariable::CaptionHealth, "Health: "),
        (InstanceVariable::ErrorLast, "oops"),
    ] {
        put(&mut game, var, 0, text(s)).unwrap();
        assert_eq!(as_text(&get(&mut game, var, 0).unwrap()), s);
    }
    game.texts.temp_directory = b"/tmp/game".to_vec();
    game.texts.program_directory = b"/opt/game".to_vec();
    assert_eq!(as_text(&get(&mut game, InstanceVariable::TempDirectory, 0).unwrap()), "/tmp/game");
    assert_eq!(as_text(&get(&mut game, InstanceVariable::ProgramDirectory, 0).unwrap()), "/opt/game");
}

#[test]
fn plain_variables_of_the_game() {
    let mut game = game();
    for (var, v, expected) in [
        (InstanceVariable::Score, 12.4, 12.0),
        (InstanceVariable::TransitionKind, 3.0, 3.0),
        (InstanceVariable::TransitionSteps, 80.0, 80.0),
        (InstanceVariable::CursorSprite, 2.0, 2.0),
        (InstanceVariable::BackgroundColor, 255.0, 255.0),
        (InstanceVariable::BackgroundShowcolor, 1.0, 1.0),
        (InstanceVariable::ViewEnabled, 1.0, 1.0),
        (InstanceVariable::ShowScore, 0.0, 0.0),
        (InstanceVariable::ShowLives, 0.0, 0.0),
        (InstanceVariable::ShowHealth, 0.0, 0.0),
        (InstanceVariable::ErrorOccurred, 1.0, 1.0),
    ] {
        put(&mut game, var, 0, num(v)).unwrap();
        assert_eq!(getf(&mut game, var), expected, "{:?}", var);
    }
    game.status.room_width = 640;
    game.status.room_height = 480;
    game.status.game_id = 77;
    game.status.fps = 29;
    game.status.mouse_x = 5;
    game.status.mouse_y = 6;
    game.status.view_current = 2;
    assert_eq!(getf(&mut game, InstanceVariable::RoomWidth), 640.0);
    assert_eq!(getf(&mut game, InstanceVariable::RoomHeight), 480.0);
    assert_eq!(getf(&mut game, InstanceVariable::GameId), 77.0);
    assert_eq!(getf(&mut game, InstanceVariable::Fps), 29.0);
    assert_eq!(getf(&mut game, InstanceVariable::MouseX), 5.0);
    assert_eq!(getf(&mut game, InstanceVariable::MouseY), 6.0);
    assert_eq!(getf(&mut game, InstanceVariable::ViewCurrent), 2.0);
    assert_eq!(getf(&mut game, InstanceVariable::Lives), 3.0);
    assert_eq!(getf(&mut game, InstanceVariable::Health), 100.0);
}

#[test]
fn input_setters_ignore_values_that_are_not_positive() {
    let mut game = game();
    for var in [
        InstanceVariable::MouseButton,
        InstanceVariable::MouseLastbutton,
        InstanceVariable::KeyboardKey,
        InstanceVariable::KeyboardLastkey,
    ] {
        put(&mut game, var, 0, num(65.0)).unwrap();
        assert_eq!(getf(&mut game, var), 65.0);
        put(&mut game, var, 0, num(0.0)).unwrap();
        assert_eq!(getf(&mut game, var), 65.0);
        put(&mut game, var, 0, num(-3.0)).unwrap();
        assert_eq!(getf(&mut game, var), 65.0);
    }
}

#[test]
fn room_first_and_last() {
    let mut game = game();
    assert!(matches!(get(&mut game, InstanceVariable::RoomFirst, 0), Err(Error::EndOfRoomOrder)));
    assert!(matches!(get(&mut game, InstanceVariable::RoomLast, 0), Err(Error::EndOfRoomOrder)));
    game.room_order = vec![4, 2, 9];
    assert_eq!(getf(&mut game, InstanceVariable::RoomFirst), 4.0);
    assert_eq!(getf(&mut game, InstanceVariable::RoomLast), 9.0);
}

#[test]
fn instance_count_and_ids() {
    let mut game = game();
    game.instance_list.insert(Instance::new(100003, 0, re(0.0), re(0.0)));
    assert_eq!(getf(&mut game, InstanceVariable::InstanceCount), 3.0);
    assert_eq!(as_f64(&get(&mut game, InstanceVariable::InstanceId, 0).unwrap()), 100001.0);
    assert_eq!(as_f64(&get(&mut game, InstanceVariable::InstanceId, 2).unwrap()), 100003.0);
    assert_eq!(as_f64(&get(&mut game, InstanceVariable::InstanceId, 3).unwrap()), -4.0);
    game.instance_list.deactivate(1);
    assert_eq!(getf(&mut game, InstanceVariable::InstanceCount), 2.0);
    assert_eq!(as_f64(&get(&mut game, InstanceVariable::InstanceId, 1).unwrap()), 100003.0);
    assert_eq!(game.instance_list.get_by_instid(100002), None);
    assert_eq!(game.instance_list.get_by_instid(100003), Some(2));
}

#[test]
fn backgrounds_and_views_redirect_an_index_beyond_the_last() {
    let mut game = game();
    put(&mut game, InstanceVariable::BackgroundX, 3, num(12.5)).unwrap();
    assert_eq!(as_f64(&get(&mut game, InstanceVariable::BackgroundX, 3).unwrap()), 12.5);
    assert_eq!(as_f64(&get(&mut game, InstanceVariable::BackgroundX, 0).unwrap()), 0.0);
    put(&mut game, InstanceVariable::BackgroundX, 8, num(7.0)).unwrap();
    assert_eq!(as_f64(&get(&mut game, InstanceVariable::BackgroundX, 0).unwrap()), 7.0);
    assert_eq!(as_f64(&get(&mut game, InstanceVariable::BackgroundX, 100).unwrap()), 7.0);
    put(&mut game, InstanceVariable::ViewXview, 7, num(64.0)).unwrap();
    assert_eq!(as_f64(&get(&mut game, InstanceVariable::ViewXview, 7).unwrap()), 64.0);
    put(&mut game, InstanceVariable::ViewXview, 9, num(32.0)).unwrap();
    assert_eq!(as_f64(&get(&mut game, InstanceVariable::ViewXview, 0).unwrap()), 32.0);
    assert_eq!(as_f64(&get(&mut game, InstanceVariable::ViewXview, 7).unwrap()), 64.0);
}

#[test]
fn every_background_and_view_variable_reads_what_was_set() {
    let mut game = game();
    let vars = [
        InstanceVariable::BackgroundVisible,
        InstanceVariable::BackgroundForeground,
        InstanceVariable::BackgroundIndex,
        InstanceVariable::BackgroundX,
        InstanceVariable::BackgroundY,
        InstanceVariable::BackgroundHtiled,
        InstanceVariable::BackgroundVtiled,
        InstanceVariable::BackgroundXscale,
        InstanceVariable::BackgroundYscale,
        InstanceVariable::BackgroundHspeed,
        InstanceVariable::BackgroundVspeed,
        InstanceVariable::BackgroundBlend,
        InstanceVariable::BackgroundAlpha,
        InstanceVariable::ViewVisible,
        InstanceVariable::ViewXview,
        InstanceVariable::ViewYview,
        InstanceVariable::ViewWview,
        InstanceVariable::ViewHview,
        InstanceVariable::ViewXport,
        InstanceVariable::ViewYport,
        InstanceVariable::ViewWport,
        InstanceVariable::ViewHport,
        InstanceVariable::ViewAngle,
        InstanceVariable::ViewHborder,
        InstanceVariable::ViewVborder,
        InstanceVariable::ViewHspeed,
        InstanceVariable::ViewVspeed,
        InstanceVariable::ViewObject,
    ];
    for var in vars {
        put(&mut game, var, 5, num(1.0)).unwrap();
        assert_eq!(as_f64(&get(&mut game, var, 5).unwrap()), 1.0, "{:?}", var);
        put(&mut game, var, 5, num(0.0)).unwrap();
        assert_eq!(as_f64(&get(&mut game, var, 5).unwrap()), 0.0, "{:?}", var);
    }
}

#[test]
fn background_size_comes_from_the_image() {
    let mut game = game();
    game.assets.backgrounds.push(Some(Background { width: 320, height: 200 }));
    assert_eq!(as_f64(&get(&mut game, InstanceVariable::BackgroundWidth, 1).unwrap()), 0.0);
    put(&mut game, InstanceVariable::BackgroundIndex, 1, num(0.0)).unwrap();
    assert_eq!(as_f64(&get(&mut game, InstanceVariable::BackgroundWidth, 1).unwrap()), 320.0);
    assert_eq!(as_f64(&get(&mut game, InstanceVariable::BackgroundHeight, 1).unwrap()), 200.0);
    assert_eq!(as_f64(&get(&mut game, InstanceVariable::BackgroundHeight, 2).unwrap()), 0.0);
}

#[test]
fn current_time_is_the_spoofed_time_or_the_hosts_clock() {
    let mut game = game();
    game.status.spoofed_time_nanos = Some(5_123_456_789);
    assert_eq!(getf(&mut game, InstanceVariable::CurrentTime), 5123.0);
    game.status.spoofed_time_nanos = Some((1u128 << 32) * 1_000_000 + 7_000_000);
    assert_eq!(getf(&mut game, InstanceVariable::CurrentTime), 7.0);
    game.status.spoofed_time_nanos = None;
    assert_eq!(getf(&mut game, InstanceVariable::CurrentTime), 0x120 as f64);
    assert_eq!(getf(&mut game, InstanceVariable::CurrentYear), 2001.0);
    assert_eq!(getf(&mut game, InstanceVariable::CurrentMonth), 2.0);
    assert_eq!(getf(&mut game, InstanceVariable::CurrentDay), 3.0);
    assert_eq!(getf(&mut game, InstanceVariable::CurrentWeekday), 4.0);
    assert_eq!(getf(&mut game, InstanceVariable::CurrentHour), 5.0);
    assert_eq!(getf(&mut game, InstanceVariable::CurrentMinute), 6.0);
    assert_eq!(getf(&mut game, InstanceVariable::CurrentSecond), 7.0);
}

#[test]
fn a_working_directory_that_cannot_be_encoded_is_an_error() {
    let mut game = game();
    match get(&mut game, InstanceVariable::WorkingDirectory, 0) {
        Err(Error::BadDirectoryError(path)) => assert_eq!(path, "/nowhere"),
        other => panic!("expected BadDirectoryError, got {:?}", other),
    }
    let ctx = Context::new(0);
    let r = game.get_instance_var(&mut Headless {}, 0, &InstanceVariable::WorkingDirectory, 0, &ctx);
    assert_eq!(as_text(&r.unwrap()), "");
}

#[test]
fn motion_is_reconciled_by_the_host() {
    let mut game = game();
    put(&mut game, InstanceVariable::Hspeed, 0, num(3.0)).unwrap();
    put(&mut game, InstanceVariable::Vspeed, 0, num(4.0)).unwrap();
    assert_eq!(getf(&mut game, InstanceVariable::Hspeed), 3.0);
    assert_eq!(getf(&mut game, InstanceVariable::Vspeed), 4.0);
    assert_eq!(getf(&mut game, InstanceVariable::Speed), 5.0);
    put(&mut game, InstanceVariable::Speed, 0, num(10.0)).unwrap();
    assert!((getf(&mut game, InstanceVariable::Hspeed) - 6.0).abs() < 1e-9);
    assert!((getf(&mut game, InstanceVariable::Vspeed) - 8.0).abs() < 1e-9);
    put(&mut game, InstanceVariable::Direction, 0, num(0.0)).unwrap();
    assert!((getf(&mut game, InstanceVariable::Hspeed) - 10.0).abs() < 1e-9);
    assert!(getf(&mut game, InstanceVariable::Vspeed).abs() < 1e-9);
}

#[test]
fn path_position_is_held_between_zero_and_one() {
    let mut game = game();
    put(&mut game, InstanceVariable::PathPosition, 0, num(1.5)).unwrap();
    assert_eq!(getf(&mut game, InstanceVariable::PathPosition), 1.0);
    put(&mut game, InstanceVariable::PathPosition, 0, num(-1.5)).unwrap();
    assert_eq!(getf(&mut game, InstanceVariable::PathPosition), 0.0);
    assert_eq!(f64::from_bits(game.instance_list.instances[0].state.path_pointspeed.to_bits()), 0.0);
    game.assets.paths.push(Some(Path {
        points: vec![PathPoint { x: re(0.0), y: re(0.0), speed: re(75.0) }],
    }));
    game.instance_list.instances[0].state.path_index = 0;
    put(&mut game, InstanceVariable::PathPosition, 0, num(0.25)).unwrap();
    assert_eq!(getf(&mut game, InstanceVariable::PathPosition), 0.25);
    assert_eq!(f64::from_bits(game.instance_list.instances[0].state.path_pointspeed.to_bits()), 75.0);
}

#[test]
fn a_handle_without_an_instance_reads_as_unset_and_ignores_writes() {
    let mut game = game();
    let ctx = Context::new(0);
    game.status.uninit_fields_are_zero = false;
    match game.get_instance_var(&mut Headless {}, 9, &InstanceVariable::X, 0, &ctx) {
        Err(Error::UninitializedVariable(name, 0)) => assert_eq!(name, "x"),
        other => panic!("expected UninitializedVariable, got {:?}", other),
    }
    game.status.uninit_fields_are_zero = true;
    let v = game.get_instance_var(&mut Headless {}, 9, &InstanceVariable::X, 0, &ctx).unwrap();
    assert_eq!(as_f64(&v), 0.0);
    let mut ctx = Context::new(0);
    game.set_instance_var(&mut Headless {}, 9, &InstanceVariable::Score, 0, num(5.0), &mut ctx, BUDGET)
        .unwrap();
    assert_eq!(game.status.score, 0);
    game.set_instance_field(9, 0, 0, num(1.0));
    assert_eq!(game.instance_list.len(), 2);
}

#[test]
fn built_in_variables_can_be_kept_globally_and_locally() {
    let mut game = game();
    let mut ctx = Context::new(0);
    let acc = |owner: InstanceIdentifier| VariableAccessor {
        var: InstanceVariable::Score,
        array: ArrayAccessor::NoIndex,
        owner,
    };
    let code = vec![
        Instruction::SetVariable {
            accessor: acc(InstanceIdentifier::Global),
            value: Node::Literal { value: num(11.0) },
        },
        Instruction::SetVariable {
            accessor: acc(InstanceIdentifier::Local),
            value: Node::Literal { value: num(22.0) },
        },
        Instruction::SetVariable {
            accessor: acc(InstanceIdentifier::Own),
            value: Node::Literal { value: num(33.0) },
        },
    ];
    game.execute(&mut Headless {}, &code, &mut ctx, BUDGET).unwrap();
    let mut read = |owner: InstanceIdentifier| {
        let node = Node::Variable { accessor: acc(owner) };
        as_f64(&game.eval(&mut Headless {}, &node, &mut ctx, BUDGET).unwrap())
    };
    assert_eq!(read(InstanceIdentifier::Global), 11.0);
    assert_eq!(read(InstanceIdentifier::Local), 22.0);
    assert_eq!(read(InstanceIdentifier::Own), 33.0);
}

#[test]
fn setting_a_variable_through_all_sets_it_for_every_instance() {
    let mut game = game();
    let mut ctx = Context::new(0);
    let code = vec![Instruction::SetVariable {
        accessor: VariableAccessor {
            var: InstanceVariable::Xstart,
            array: ArrayAccessor::NoIndex,
            owner: InstanceIdentifier::Expression(Box::new(Node::Literal { value: num(-3.0) })),
        },
        value: Node::Literal { value: num(9.0) },
    }];
    game.execute(&mut Headless {}, &code, &mut ctx, BUDGET).unwrap();
    for h in 0..2 {
        assert_eq!(f64::from_bits(game.instance_list.instances[h].state.xstart.to_bits()), 9.0);
    }
    let read_only = vec![Instruction::SetVariable {
        accessor: VariableAccessor {
            var: InstanceVariable::Id,
            array: ArrayAccessor::NoIndex,
            owner: InstanceIdentifier::Expression(Box::new(Node::Literal { value: num(0.0) })),
        },
        value: Node::Literal { value: num(9.0) },
    }];
    game.assets.objects.push(Some(gml_runtime::asset::Object { children: vec![0] }));
    assert!(matches!(
        game.execute(&mut Headless {}, &read_only, &mut ctx, BUDGET),
        Err(Error::ReadOnlyVariable(InstanceVariable::Id))
    ));
}

#[test]
fn every_variable_has_its_own_name_and_number() {
    assert_eq!(InstanceVariable::X.name(), "x");
    assert_eq!(InstanceVariable::GravityDirection.name(), "gravity_direction");
    assert_eq!(InstanceVariable::PathEndAction.name(), "path_endaction");
    assert_eq!(InstanceVariable::PathPositionprevious.name(), "path_positionprevious");
    assert_eq!(InstanceVariable::Argument10.name(), "argument10");
    assert_eq!(InstanceVariable::BboxLeft.name(), "bbox_left");
    assert_eq!(InstanceVariable::AsyncLoad.name(), "async_load");
    assert_eq!(InstanceVariable::X.code(), 0);
    assert_eq!(InstanceVariable::AsyncLoad.code(), 165);
    assert_eq!(InstanceVariable::Argument7.argument_slot(), Some(7));
    assert_eq!(InstanceVariable::Argument.argument_slot(), None);
    assert_eq!(InstanceVariable::X.argument_slot(), None);
}
