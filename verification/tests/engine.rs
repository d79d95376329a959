use gml_runtime::asset::Object;
use gml_runtime::asset::Path;
use gml_runtime::asset::Script;
use gml_runtime::asset::Sprite;
use gml_runtime::error::AssetType;
use gml_runtime::error::Error;
use gml_runtime::game::Calendar;
use gml_runtime::game::Context;
use gml_runtime::game::Game;
use gml_runtime::game::Headless;
use gml_runtime::game::Host;
use gml_runtime::game::Version;
use gml_runtime::instance::BoundingBox;
use gml_runtime::instance::Instance;
use gml_runtime::instance::InstanceState;
use gml_runtime::number::Real;
use gml_runtime::operator::BinaryOperator;
use gml_runtime::operator::UnaryOperator;
use gml_runtime::semantics::Target;
use gml_runtime::tree::ArrayAccessor;
use gml_runtime::tree::FieldAccessor;
use gml_runtime::tree::InstanceIdentifier;
use gml_runtime::tree::Instruction;
use gml_runtime::tree::Node;
use gml_runtime::tree::ReturnType;
use gml_runtime::tree::VariableAccessor;
use gml_runtime::value::Value;
use gml_runtime::variable::InstanceVariable;
use std::rc::Rc;

const BUDGET: u64 = 100_000;

fn r(x: f64) -> Real {
    Real::from_bits(x.to_bits())
}

fn num(x: f64) -> Value {
    Value::Real(r(x))
}

fn text(s: &str) -> Value {
    Value::Str(s.as_bytes().to_vec())
}

fn as_f64(v: &Value) -> f64 {
    match v {
        Value::Real(x) => f64::from_bits(x.to_bits()),
        Value::Str(_) => panic!("not a number"),
    }
}

fn lit(x: f64) -> Node {
    Node::Literal { value: num(x) }
}

fn lit_text(s: &str) -> Node {
    Node::Literal { value: text(s) }
}

fn field_of(owner: InstanceIdentifier, index: usize) -> FieldAccessor {
    FieldAccessor { index, array: ArrayAccessor::NoIndex, owner }
}

fn own(index: usize) -> FieldAccessor {
    field_of(InstanceIdentifier::Own, index)
}

fn read(accessor: FieldAccessor) -> Node {
    Node::Field { accessor }
}

fn set(accessor: FieldAccessor, value: Node) -> Instruction {
    Instruction::SetField { accessor, value }
}

fn var_of(owner: InstanceIdentifier, var: InstanceVariable) -> VariableAccessor {
    VariableAccessor { var, array: ArrayAccessor::NoIndex, owner }
}

fn binary(op: BinaryOperator, left: Node, right: Node) -> Node {
    Node::Binary { left: Box::new(left), right: Box::new(right), operator: op }
}

/// `field += amount` for a field of the running instance.
fn add_to(index: usize, amount: f64) -> Instruction {
    set(own(index), binary(BinaryOperator::Add, read(own(index)), lit(amount)))
}

fn expr(id: f64) -> InstanceIdentifier {
    InstanceIdentifier::Expression(Box::new(lit(id)))
}

/// A game with a number of instances of object 0, numbered from 100001,
/// each with the fields 0 to 3 set to zero.
fn game_with(instances: usize) -> Game {
    let mut game = Game::new(Version::GameMaker8_0);
    game.field_names = vec!["a".to_string(), "b".to_string(), "c".to_string(), "n".to_string()];
    game.assets.objects.push(Some(Object { children: vec![0] }));
    for i in 0..instances {
        let h = game.instance_list.insert(Instance::new(100001 + i as i32, 0, r(0.0), r(0.0)));
        for f in 0..4 {
            game.set_instance_field(h, f, 0, num(0.0));
        }
    }
    game
}

fn field(game: &Game, handle: usize, index: usize) -> f64 {
    as_f64(&game.get_instance_field(handle, index, 0).unwrap())
}

fn run(game: &mut Game, code: &Vec<Instruction>) -> Result<ReturnType, Error> {
    let mut ctx = Context::new(0);
    game.execute(&mut Headless {}, code, &mut ctx, BUDGET)
}

fn eval(game: &mut Game, node: &Node) -> Result<Value, Error> {
    let mut ctx = Context::new(0);
    game.eval(&mut Headless {}, node, &mut ctx, BUDGET)
}

#[test]
fn switch_falls_through_from_the_matching_case() {
    let mut game = game_with(1);
    let code = vec![Instruction::Switch {
        input: lit(2.0),
        cases: vec![(lit(1.0), 0), (lit(2.0), 1), (lit(3.0), 2)],
        default: None,
        body: vec![set(own(0), lit(1.0)), set(own(1), lit(1.0)), set(own(2), lit(1.0))],
    }];
    assert_eq!(run(&mut game, &code).unwrap(), ReturnType::Normal);
    assert_eq!(field(&game, 0, 0), 0.0);
    assert_eq!(field(&game, 0, 1), 1.0);
    assert_eq!(field(&game, 0, 2), 1.0);
}

#[test]
fn switch_break_ends_the_switch_only() {
    let mut game = game_with(1);
    let code = vec![
        Instruction::Switch {
            input: lit(1.0),
            cases: vec![(lit(1.0), 0), (lit(2.0), 2)],
            default: None,
            body: vec![
                set(own(0), lit(1.0)),
                Instruction::Return { return_type: ReturnType::Break },
                set(own(1), lit(1.0)),
            ],
        },
        set(own(2), lit(1.0)),
    ];
    assert_eq!(run(&mut game, &code).unwrap(), ReturnType::Normal);
    assert_eq!(field(&game, 0, 0), 1.0);
    assert_eq!(field(&game, 0, 1), 0.0);
    assert_eq!(field(&game, 0, 2), 1.0);
}

#[test]
fn switch_takes_the_default_without_a_match() {
    let mut game = game_with(1);
    let code = vec![Instruction::Switch {
        input: lit(9.0),
        cases: vec![(lit(1.0), 0)],
        default: Some(1),
        body: vec![set(own(0), lit(1.0)), set(own(1), lit(1.0))],
    }];
    run(&mut game, &code).unwrap();
    assert_eq!(field(&game, 0, 0), 0.0);
    assert_eq!(field(&game, 0, 1), 1.0);
    let none = vec![Instruction::Switch {
        input: lit(9.0),
        cases: vec![(lit(1.0), 0)],
        default: None,
        body: vec![set(own(2), lit(1.0))],
    }];
    run(&mut game, &none).unwrap();
    assert_eq!(field(&game, 0, 2), 0.0);
}

#[test]
fn switch_evaluates_cases_only_up_to_the_match() {
    let mut game = game_with(1);
    let failing = Node::RuntimeError { error: Error::EndOfRoomOrder };
    let code = vec![Instruction::Switch {
        input: lit(1.0),
        cases: vec![(lit(1.0), 0), (failing, 0)],
        default: None,
        body: vec![set(own(0), lit(1.0))],
    }];
    assert_eq!(run(&mut game, &code).unwrap(), ReturnType::Normal);
    let failing = Node::RuntimeError { error: Error::EndOfRoomOrder };
    let code = vec![Instruction::Switch {
        input: lit(2.0),
        cases: vec![(lit(1.0), 0), (failing, 0)],
        default: None,
        body: vec![],
    }];
    assert!(matches!(run(&mut game, &code), Err(Error::EndOfRoomOrder)));
}

#[test]
fn repeat_rounds_its_count() {
    let mut game = game_with(1);
    let code = vec![Instruction::Repeat { count: lit(2.6), body: vec![add_to(0, 1.0)] }];
    assert_eq!(run(&mut game, &code).unwrap(), ReturnType::Normal);
    assert_eq!(field(&game, 0, 0), 3.0);
}

#[test]
fn repeat_with_a_count_below_one_runs_nothing() {
    let mut game = game_with(1);
    let code = vec![
        Instruction::Repeat { count: lit(0.4), body: vec![add_to(0, 1.0)] },
        Instruction::Repeat { count: lit(-3.0), body: vec![add_to(0, 1.0)] },
    ];
    run(&mut game, &code).unwrap();
    assert_eq!(field(&game, 0, 0), 0.0);
}

#[test]
fn assigning_a_joined_string() {
    let mut game = game_with(1);
    let code = vec![set(own(0), binary(BinaryOperator::Add, lit_text("hi"), lit_text("!")))];
    run(&mut game, &code).unwrap();
    match game.get_instance_field(0, 0, 0).unwrap() {
        Value::Str(s) => assert_eq!(s, b"hi!".to_vec()),
        other => panic!("expected a string, got {:?}", other),
    }
    let bad = vec![set(own(0), binary(BinaryOperator::Add, lit_text("hi"), lit(1.0)))];
    assert!(matches!(run(&mut game, &bad), Err(Error::InvalidOperandsBinary(_, _, _))));
}

#[test]
fn with_all_runs_the_body_for_every_instance() {
    let mut game = game_with(3);
    let code = vec![Instruction::With { target: lit(-3.0), body: vec![add_to(3, 1.0)] }];
    assert_eq!(run(&mut game, &code).unwrap(), ReturnType::Normal);
    for h in 0..3 {
        assert_eq!(field(&game, h, 3), 1.0);
    }
}

/// Hosts one function, number 0, which destroys the instance whose handle
/// is its argument, and counts the events that it is asked to run.
struct TestHost {
    events: Vec<(usize, usize)>,
}

impl Host for TestHost {
    fn call_function(
        &mut self,
        game: &mut Game,
        _context: &mut Context,
        function: usize,
        arguments: &Vec<Value>,
        _budget: u64,
    ) -> Result<Value, Error> {
        if function == 0 {
            game.instance_list.deactivate(arguments[0].round() as usize);
            Ok(Value::zero())
        } else {
            Err(Error::UnknownFunction(function.to_string()))
        }
    }

    fn run_object_event(
        &mut self,
        _game: &mut Game,
        event_type: usize,
        event_number: usize,
        _budget: u64,
    ) -> Result<(), Error> {
        self.events.push((event_type, event_number));
        Ok(())
    }

    fn bounding_box(&mut self, state: &InstanceState, mask: Option<Sprite>) -> BoundingBox {
        let x = f64::from_bits(state.x.to_bits()) as i32;
        let y = f64::from_bits(state.y.to_bits()) as i32;
        match mask {
            Some(sprite) => BoundingBox {
                left: x,
                right: x + sprite.width as i32 - 1,
                top: y,
                bottom: y + sprite.height as i32 - 1,
            },
            None => BoundingBox { left: -100000, right: -100000, top: -100000, bottom: -100000 },
        }
    }

    fn polar(&mut self, hspeed: Real, vspeed: Real) -> (Real, Real) {
        let h = f64::from_bits(hspeed.to_bits());
        let v = f64::from_bits(vspeed.to_bits());
        (r((h * h + v * v).sqrt()), r((-v).atan2(h).to_degrees()))
    }

    fn cartesian(&mut self, speed: Real, direction: Real) -> (Real, Real) {
        let s = f64::from_bits(speed.to_bits());
        let d = f64::from_bits(direction.to_bits()).to_radians();
        (r(s * d.cos()), r(-s * d.sin()))
    }

    fn path_point_speed(&mut self, path: &Path, _position: Real) -> Real {
        path.points[0].speed
    }

    fn clock_millis(&mut self) -> u64 {
        0x1_0000_0123
    }

    fn calendar(&mut self, _spoofed_nanos: Option<u128>) -> Calendar {
        Calendar { year: 2001, month: 2, day: 3, weekday: 4, hour: 5, minute: 6, second: 7 }
    }

    fn working_directory(&mut self) -> Result<Vec<u8>, String> {
        Err("/nowhere".to_string())
    }
}

#[test]
fn with_all_visits_in_insertion_order() {
    let mut game = game_with(3);
    for h in 0..3 {
        game.set_instance_field(h, 0, 0, num(h as f64 + 1.0));
    }
    // global.b = global.b * 10 + a
    let global_b = || field_of(InstanceIdentifier::Global, 1);
    let code = vec![
        set(global_b(), lit(0.0)),
        Instruction::With {
            target: lit(-3.0),
            body: vec![set(
                global_b(),
                binary(
                    BinaryOperator::Add,
                    binary(BinaryOperator::Multiply, read(global_b()), lit(10.0)),
                    read(own(0)),
                ),
            )],
        },
    ];
    run(&mut game, &code).unwrap();
    assert_eq!(as_f64(&eval(&mut game, &read(global_b())).unwrap()), 123.0);
}

#[test]
fn with_all_passes_over_an_instance_destroyed_in_the_body() {
    let mut game = game_with(3);
    for h in 0..3 {
        game.set_instance_field(h, 0, 0, num(h as f64 + 1.0));
    }
    let global_b = || field_of(InstanceIdentifier::Global, 1);
    let destroy_second =
        Instruction::EvalExpression { node: Node::Function { args: vec![lit(1.0)], function: 0 } };
    let code = vec![
        set(global_b(), lit(0.0)),
        Instruction::With {
            target: lit(-3.0),
            body: vec![
                destroy_second,
                set(
                    global_b(),
                    binary(
                        BinaryOperator::Add,
                        binary(BinaryOperator::Multiply, read(global_b()), lit(10.0)),
                        read(own(0)),
                    ),
                ),
            ],
        },
    ];
    let mut host = TestHost { events: vec![] };
    let mut ctx = Context::new(0);
    assert_eq!(game.execute(&mut host, &code, &mut ctx, BUDGET).unwrap(), ReturnType::Normal);
    assert_eq!(as_f64(&eval(&mut game, &read(global_b())).unwrap()), 13.0);
    assert_eq!(game.instance_list.count_all(), 2);
}

#[test]
fn with_restores_self_and_other() {
    let mut game = game_with(3);
    let targets = [-1.0, -6.0, -2.0, -3.0, -4.0, -5.0, -7.0, -20.0, 0.0, 5.0, 100002.0, 100009.0];
    for t in targets {
        for exit in [false, true] {
            let mut body = vec![add_to(3, 1.0)];
            if exit {
                body.push(Instruction::Return { return_type: ReturnType::Exit });
            }
            let code = vec![Instruction::With { target: lit(t), body }];
            let mut ctx = Context::new(1);
            ctx.other = 2;
            game.execute(&mut Headless {}, &code, &mut ctx, BUDGET).unwrap();
            assert_eq!(ctx.this, 1);
            assert_eq!(ctx.other, 2);
        }
    }
    let failing = vec![Instruction::With {
        target: lit(-3.0),
        body: vec![Instruction::RuntimeError { error: Error::EndOfRoomOrder }],
    }];
    let mut ctx = Context::new(1);
    ctx.other = 2;
    assert!(game.execute(&mut Headless {}, &failing, &mut ctx, BUDGET).is_err());
    assert_eq!(ctx.this, 1);
    assert_eq!(ctx.other, 2);
}

#[test]
fn with_binds_other_to_the_caller() {
    let mut game = game_with(3);
    // with (100003) { other.a = 7 }
    let code = vec![Instruction::With {
        target: lit(100003.0),
        body: vec![set(field_of(InstanceIdentifier::Other, 0), lit(7.0)), set(own(1), lit(8.0))],
    }];
    let mut ctx = Context::new(1);
    ctx.other = 0;
    game.execute(&mut Headless {}, &code, &mut ctx, BUDGET).unwrap();
    assert_eq!(field(&game, 1, 0), 7.0);
    assert_eq!(field(&game, 2, 1), 8.0);
    assert_eq!(field(&game, 0, 0), 0.0);
    // with (other) { a = 9 } runs for what was `other`
    let code = vec![Instruction::With { target: lit(-2.0), body: vec![set(own(0), lit(9.0))] }];
    let mut ctx = Context::new(1);
    ctx.other = 0;
    game.execute(&mut Headless {}, &code, &mut ctx, BUDGET).unwrap();
    assert_eq!(field(&game, 0, 0), 9.0);
}

#[test]
fn with_an_object_runs_for_its_instances_and_those_of_its_children() {
    let mut game = game_with(2);
    game.assets.objects.push(Some(Object { children: vec![1, 2] }));
    game.assets.objects.push(Some(Object { children: vec![2] }));
    let a = game.instance_list.insert(Instance::new(100010, 1, r(0.0), r(0.0)));
    let b = game.instance_list.insert(Instance::new(100011, 2, r(0.0), r(0.0)));
    for h in [a, b] {
        game.set_instance_field(h, 3, 0, num(0.0));
    }
    let code = vec![Instruction::With { target: lit(1.0), body: vec![add_to(3, 1.0)] }];
    run(&mut game, &code).unwrap();
    assert_eq!(field(&game, 0, 3), 0.0);
    assert_eq!(field(&game, 1, 3), 0.0);
    assert_eq!(field(&game, a, 3), 1.0);
    assert_eq!(field(&game, b, 3), 1.0);
    let code = vec![Instruction::With { target: lit(2.0), body: vec![add_to(3, 1.0)] }];
    run(&mut game, &code).unwrap();
    assert_eq!(field(&game, a, 3), 1.0);
    assert_eq!(field(&game, b, 3), 2.0);
    // an object that does not exist names nothing
    let code = vec![Instruction::With { target: lit(7.0), body: vec![add_to(3, 1.0)] }];
    run(&mut game, &code).unwrap();
    assert_eq!(field(&game, b, 3), 2.0);
}

#[test]
fn with_break_and_continue() {
    let mut game = game_with(3);
    let code = vec![Instruction::With {
        target: lit(-3.0),
        body: vec![add_to(3, 1.0), Instruction::Return { return_type: ReturnType::Break }],
    }];
    assert_eq!(run(&mut game, &code).unwrap(), ReturnType::Normal);
    assert_eq!(field(&game, 0, 3), 1.0);
    assert_eq!(field(&game, 1, 3), 0.0);
    let code = vec![Instruction::With {
        target: lit(-3.0),
        body: vec![
            add_to(0, 1.0),
            Instruction::Return { return_type: ReturnType::Continue },
            add_to(1, 1.0),
        ],
    }];
    assert_eq!(run(&mut game, &code).unwrap(), ReturnType::Normal);
    for h in 0..3 {
        assert_eq!(field(&game, h, 0), 1.0);
        assert_eq!(field(&game, h, 1), 0.0);
    }
    let code = vec![
        Instruction::With {
            target: lit(-3.0),
            body: vec![Instruction::Return { return_type: ReturnType::Exit }],
        },
        add_to(2, 1.0),
    ];
    assert_eq!(run(&mut game, &code).unwrap(), ReturnType::Exit);
    assert_eq!(field(&game, 0, 2), 0.0);
}

#[test]
fn blocks_stop_at_the_first_instruction_that_does_not_end_normally() {
    let mut game = game_with(1);
    for kind in [ReturnType::Continue, ReturnType::Break, ReturnType::Exit] {
        let code =
            vec![add_to(0, 1.0), Instruction::Return { return_type: kind }, add_to(1, 1.0)];
        assert_eq!(run(&mut game, &code).unwrap(), kind);
    }
    assert_eq!(field(&game, 0, 0), 3.0);
    assert_eq!(field(&game, 0, 1), 0.0);
    assert_eq!(run(&mut game, &vec![]).unwrap(), ReturnType::Normal);
}

#[test]
fn if_else_takes_one_branch() {
    let mut game = game_with(1);
    let make = |c: f64| {
        vec![Instruction::IfElse {
            cond: lit(c),
            if_body: vec![add_to(0, 1.0)],
            else_body: vec![add_to(1, 1.0)],
        }]
    };
    run(&mut game, &make(1.0)).unwrap();
    run(&mut game, &make(0.5)).unwrap();
    run(&mut game, &make(0.4)).unwrap();
    assert_eq!(field(&game, 0, 0), 2.0);
    assert_eq!(field(&game, 0, 1), 1.0);
    let exits = vec![Instruction::IfElse {
        cond: lit(1.0),
        if_body: vec![Instruction::Return { return_type: ReturnType::Exit }],
        else_body: vec![],
    }];
    assert_eq!(run(&mut game, &exits).unwrap(), ReturnType::Exit);
}

fn less_than_field(index: usize, limit: f64) -> Node {
    binary(BinaryOperator::LessThan, read(own(index)), lit(limit))
}

#[test]
fn while_loop_counts_up() {
    let mut game = game_with(1);
    let code =
        vec![Instruction::LoopWhile { cond: less_than_field(0, 5.0), body: vec![add_to(0, 1.0)] }];
    assert_eq!(run(&mut game, &code).unwrap(), ReturnType::Normal);
    assert_eq!(field(&game, 0, 0), 5.0);
}

#[test]
fn while_loop_break_continue_exit() {
    let mut game = game_with(1);
    let code = vec![Instruction::LoopWhile {
        cond: lit(1.0),
        body: vec![
            add_to(0, 1.0),
            Instruction::IfElse {
                cond: less_than_field(0, 3.0),
                if_body: vec![Instruction::Return { return_type: ReturnType::Continue }],
                else_body: vec![],
            },
            add_to(1, 1.0),
            Instruction::Return { return_type: ReturnType::Break },
        ],
    }];
    assert_eq!(run(&mut game, &code).unwrap(), ReturnType::Normal);
    assert_eq!(field(&game, 0, 0), 3.0);
    assert_eq!(field(&game, 0, 1), 1.0);
    let code = vec![Instruction::LoopWhile {
        cond: lit(1.0),
        body: vec![Instruction::Return { return_type: ReturnType::Exit }],
    }];
    assert_eq!(run(&mut game, &code).unwrap(), ReturnType::Exit);
}

#[test]
fn until_loop_runs_its_body_first() {
    let mut game = game_with(1);
    let code = vec![Instruction::LoopUntil { cond: lit(1.0), body: vec![add_to(0, 1.0)] }];
    assert_eq!(run(&mut game, &code).unwrap(), ReturnType::Normal);
    assert_eq!(field(&game, 0, 0), 1.0);
    let code = vec![Instruction::LoopUntil {
        cond: binary(BinaryOperator::GreaterThanOrEqual, read(own(1)), lit(4.0)),
        body: vec![add_to(1, 1.0)],
    }];
    run(&mut game, &code).unwrap();
    assert_eq!(field(&game, 0, 1), 4.0);
}

#[test]
fn for_loop_runs_the_step_after_continue() {
    let mut game = game_with(1);
    let code = vec![Instruction::LoopFor {
        cond: less_than_field(0, 4.0),
        body: vec![Instruction::Return { return_type: ReturnType::Continue }, add_to(1, 1.0)],
        step: vec![add_to(0, 1.0)],
    }];
    assert_eq!(run(&mut game, &code).unwrap(), ReturnType::Normal);
    assert_eq!(field(&game, 0, 0), 4.0);
    assert_eq!(field(&game, 0, 1), 0.0);
    let code = vec![Instruction::LoopFor {
        cond: lit(1.0),
        body: vec![add_to(2, 1.0), Instruction::Return { return_type: ReturnType::Break }],
        step: vec![add_to(0, 1.0)],
    }];
    assert_eq!(run(&mut game, &code).unwrap(), ReturnType::Normal);
    assert_eq!(field(&game, 0, 2), 1.0);
    assert_eq!(field(&game, 0, 0), 4.0);
}

#[test]
fn repeat_break_and_exit() {
    let mut game = game_with(1);
    let code = vec![Instruction::Repeat {
        count: lit(5.0),
        body: vec![add_to(0, 1.0), Instruction::Return { return_type: ReturnType::Break }],
    }];
    assert_eq!(run(&mut game, &code).unwrap(), ReturnType::Normal);
    assert_eq!(field(&game, 0, 0), 1.0);
    let code = vec![Instruction::Repeat {
        count: lit(5.0),
        body: vec![add_to(1, 1.0), Instruction::Return { return_type: ReturnType::Continue }],
    }];
    assert_eq!(run(&mut game, &code).unwrap(), ReturnType::Normal);
    assert_eq!(field(&game, 0, 1), 5.0);
    let code = vec![Instruction::Repeat {
        count: lit(5.0),
        body: vec![Instruction::Return { return_type: ReturnType::Exit }],
    }];
    assert_eq!(run(&mut game, &code).unwrap(), ReturnType::Exit);
}

#[test]
fn a_loop_without_end_uses_up_the_budget() {
    let mut game = game_with(1);
    let code = vec![Instruction::LoopWhile { cond: lit(1.0), body: vec![add_to(0, 1.0)] }];
    let mut ctx = Context::new(0);
    assert!(matches!(
        game.execute(&mut Headless {}, &code, &mut ctx, 50),
        Err(Error::BudgetExhausted)
    ));
    let mut ctx = Context::new(0);
    assert!(matches!(
        game.execute(&mut Headless {}, &vec![add_to(0, 1.0)], &mut ctx, 0),
        Err(Error::BudgetExhausted)
    ));
    let mut ctx = Context::new(0);
    assert!(matches!(game.eval(&mut Headless {}, &lit(1.0), &mut ctx, 0), Err(Error::BudgetExhausted)));
}

#[test]
fn array_indices_have_bounds() {
    let mut game = game_with(1);
    let at = |i: f64| FieldAccessor {
        index: 0,
        array: ArrayAccessor::Single(Box::new(lit(i))),
        owner: InstanceIdentifier::Own,
    };
    for i in [0.0, 31999.0] {
        run(&mut game, &vec![set(at(i), lit(5.0))]).unwrap();
        assert_eq!(as_f64(&eval(&mut game, &read(at(i))).unwrap()), 5.0);
    }
    for (i, rounded) in [(32000.0, 32000), (-1.0, -1)] {
        match run(&mut game, &vec![set(at(i), lit(5.0))]) {
            Err(Error::InvalidArrayIndex(n)) => assert_eq!(n, rounded),
            other => panic!("expected InvalidArrayIndex, got {:?}", other),
        }
        match eval(&mut game, &read(at(i))) {
            Err(Error::InvalidArrayIndex(n)) => assert_eq!(n, rounded),
            other => panic!("expected InvalidArrayIndex, got {:?}", other),
        }
    }
}

#[test]
fn double_indices_are_one_index() {
    let mut game = game_with(1);
    let at = |i: f64, j: f64| FieldAccessor {
        index: 0,
        array: ArrayAccessor::Double(Box::new(lit(i)), Box::new(lit(j))),
        owner: InstanceIdentifier::Own,
    };
    run(&mut game, &vec![set(at(2.0, 3.0), lit(5.0))]).unwrap();
    assert_eq!(as_f64(&game.get_instance_field(0, 0, 2 * 32000 + 3).unwrap()), 5.0);
    run(&mut game, &vec![set(at(31999.0, 31999.0), lit(6.0))]).unwrap();
    assert_eq!(as_f64(&game.get_instance_field(0, 0, 31999 * 32000 + 31999).unwrap()), 6.0);
    assert!(matches!(eval(&mut game, &read(at(32000.0, 0.0))), Err(Error::InvalidArrayIndex(32000))));
    assert!(matches!(eval(&mut game, &read(at(0.0, -1.0))), Err(Error::InvalidArrayIndex(-1))));
    assert!(matches!(eval(&mut game, &read(at(-2.0, 40000.0))), Err(Error::InvalidArrayIndex(-2))));
}

#[test]
fn a_field_never_written_follows_the_setting() {
    let mut game = game_with(1);
    game.field_names.push("ghost".to_string());
    let owners: Vec<Box<dyn Fn() -> InstanceIdentifier>> = vec![
        Box::new(|| InstanceIdentifier::Own),
        Box::new(|| InstanceIdentifier::Other),
        Box::new(|| InstanceIdentifier::Global),
        Box::new(|| InstanceIdentifier::Local),
        Box::new(|| InstanceIdentifier::Unknown),
        Box::new(|| expr(-3.0)),
        Box::new(|| expr(-4.0)),
        Box::new(|| expr(0.0)),
        Box::new(|| expr(55.0)),
        Box::new(|| expr(100001.0)),
        Box::new(|| expr(100999.0)),
    ];
    for owner in owners.iter() {
        game.status.uninit_fields_are_zero = false;
        match eval(&mut game, &read(field_of(owner(), 4))) {
            Err(Error::UninitializedVariable(name, 0)) => assert_eq!(name, "ghost"),
            other => panic!("expected UninitializedVariable, got {:?}", other),
        }
        game.status.uninit_fields_are_zero = true;
        assert_eq!(as_f64(&eval(&mut game, &read(field_of(owner(), 4))).unwrap()), 0.0);
    }
}

#[test]
fn targets_of_an_expression() {
    let mut game = game_with(3);
    let mut ctx = Context::new(1);
    ctx.other = 2;
    let mut resolve = |id: f64| {
        game.get_target(&mut Headless {}, &mut ctx, &expr(id), false, BUDGET).unwrap()
    };
    assert_eq!(resolve(-1.0), Target::Single(Some(1)));
    assert_eq!(resolve(-6.0), Target::Single(Some(1)));
    assert_eq!(resolve(-2.0), Target::Single(Some(2)));
    assert_eq!(resolve(-3.0), Target::All);
    assert_eq!(resolve(-4.0), Target::Single(None));
    assert_eq!(resolve(-5.0), Target::Global);
    assert_eq!(resolve(-7.0), Target::Local);
    assert_eq!(resolve(-8.0), Target::Single(None));
    assert_eq!(resolve(0.0), Target::Objects(0));
    assert_eq!(resolve(99999.0), Target::Objects(99999));
    assert_eq!(resolve(100000.0), Target::Single(None));
    assert_eq!(resolve(100003.0), Target::Single(Some(2)));
}

#[test]
fn targets_known_at_compile_time() {
    let mut game = game_with(3);
    let mut ctx = Context::new(1);
    ctx.other = 2;
    let mut resolve = |owner: InstanceIdentifier, global: bool| {
        game.get_target(&mut Headless {}, &mut ctx, &owner, global, BUDGET).unwrap()
    };
    assert_eq!(resolve(InstanceIdentifier::Own, false), Target::Single(Some(1)));
    assert_eq!(resolve(InstanceIdentifier::Other, false), Target::Single(Some(2)));
    assert_eq!(resolve(InstanceIdentifier::Global, false), Target::Global);
    assert_eq!(resolve(InstanceIdentifier::Local, false), Target::Local);
    assert_eq!(resolve(InstanceIdentifier::Unknown, false), Target::Single(Some(1)));
    assert_eq!(resolve(InstanceIdentifier::Unknown, true), Target::Global);
}

#[test]
fn globalvar_redirects_unqualified_access() {
    let mut game = game_with(1);
    let unknown = || field_of(InstanceIdentifier::Unknown, 2);
    let code = vec![
        set(unknown(), lit(1.0)),
        Instruction::GlobalVar { fields: vec![2, 3] },
        set(unknown(), lit(2.0)),
    ];
    run(&mut game, &code).unwrap();
    assert_eq!(field(&game, 0, 2), 1.0);
    assert_eq!(as_f64(&eval(&mut game, &read(field_of(InstanceIdentifier::Global, 2))).unwrap()), 2.0);
    assert_eq!(as_f64(&eval(&mut game, &read(unknown())).unwrap()), 2.0);
    assert!(game.globalvars.contains(&3));
    assert!(!game.globalvars.contains(&1));
}

#[test]
fn setting_through_an_object_or_all() {
    let mut game = game_with(3);
    game.instance_list.deactivate(1);
    run(&mut game, &vec![set(field_of(expr(-3.0), 0), lit(4.0))]).unwrap();
    assert_eq!(field(&game, 0, 0), 4.0);
    assert_eq!(field(&game, 1, 0), 0.0);
    assert_eq!(field(&game, 2, 0), 4.0);
    run(&mut game, &vec![set(field_of(expr(0.0), 1), lit(5.0))]).unwrap();
    assert_eq!(field(&game, 0, 1), 5.0);
    assert_eq!(field(&game, 1, 1), 0.0);
    assert_eq!(field(&game, 2, 1), 5.0);
    run(&mut game, &vec![set(field_of(expr(-4.0), 2), lit(6.0))]).unwrap();
    for h in 0..3 {
        assert_eq!(field(&game, h, 2), 0.0);
    }
    // reading through all or an object reads the first active instance
    game.set_instance_field(0, 3, 0, num(10.0));
    game.set_instance_field(2, 3, 0, num(30.0));
    assert_eq!(as_f64(&eval(&mut game, &read(field_of(expr(-3.0), 3))).unwrap()), 10.0);
    game.instance_list.deactivate(0);
    assert_eq!(as_f64(&eval(&mut game, &read(field_of(expr(0.0), 3))).unwrap()), 30.0);
}

#[test]
fn assignments_keep_the_value_as_returned() {
    let mut game = game_with(1);
    let mut ctx = Context::new(0);
    game.execute(&mut Headless {}, &vec![set(own(0), lit(4.5))], &mut ctx, BUDGET).unwrap();
    assert_eq!(as_f64(&ctx.return_value), 4.5);
    let code = vec![Instruction::EvalExpression { node: lit(2.0) }];
    game.execute(&mut Headless {}, &code, &mut ctx, BUDGET).unwrap();
    assert_eq!(as_f64(&ctx.return_value), 2.0);
    let code = vec![Instruction::SetReturnValue { value: lit(3.0) }];
    game.execute(&mut Headless {}, &code, &mut ctx, BUDGET).unwrap();
    assert_eq!(as_f64(&ctx.return_value), 3.0);
}

fn script(code: Vec<Instruction>) -> Option<Script> {
    Some(Script { compiled: Rc::new(code) })
}

fn call(script_id: usize, args: Vec<Node>) -> Node {
    Node::Script { args, script_id }
}

fn argument(n: InstanceVariable) -> Node {
    Node::Variable { accessor: var_of(InstanceIdentifier::Own, n) }
}

#[test]
fn a_script_returns_a_value_computed_from_its_arguments() {
    let mut game = game_with(1);
    game.assets.scripts.push(script(vec![Instruction::SetReturnValue {
        value: binary(
            BinaryOperator::Multiply,
            argument(InstanceVariable::Argument0),
            argument(InstanceVariable::Argument1),
        ),
    }]));
    assert_eq!(as_f64(&eval(&mut game, &call(0, vec![lit(6.0), lit(7.0)])).unwrap()), 42.0);
    // a script that sets no value returns zero
    game.assets.scripts.push(script(vec![]));
    assert_eq!(as_f64(&eval(&mut game, &call(1, vec![])).unwrap()), 0.0);
}

#[test]
fn a_script_sees_how_many_arguments_it_got() {
    let mut game = game_with(1);
    game.assets.scripts.push(script(vec![Instruction::SetReturnValue {
        value: argument(InstanceVariable::ArgumentCount),
    }]));
    assert_eq!(as_f64(&eval(&mut game, &call(0, vec![lit(6.0), lit(7.0), lit(8.0)])).unwrap()), 3.0);
    game.assets.scripts.push(script(vec![Instruction::SetReturnValue {
        value: argument(InstanceVariable::Argument15),
    }]));
    assert_eq!(as_f64(&eval(&mut game, &call(1, vec![lit(6.0)])).unwrap()), 0.0);
}

#[test]
fn exit_ends_the_script_and_not_its_caller() {
    let mut game = game_with(1);
    game.assets.scripts.push(script(vec![
        Instruction::SetReturnValue { value: lit(5.0) },
        Instruction::Return { return_type: ReturnType::Exit },
        Instruction::SetReturnValue { value: lit(6.0) },
    ]));
    let code = vec![set(own(0), call(0, vec![])), set(own(1), lit(1.0))];
    assert_eq!(run(&mut game, &code).unwrap(), ReturnType::Normal);
    assert_eq!(field(&game, 0, 0), 5.0);
    assert_eq!(field(&game, 0, 1), 1.0);
}

#[test]
fn locals_of_a_script_are_invisible_to_the_caller() {
    let mut game = game_with(1);
    game.status.uninit_fields_are_zero = false;
    let local = || field_of(InstanceIdentifier::Local, 1);
    game.assets.scripts.push(script(vec![set(local(), lit(9.0))]));
    let mut ctx = Context::new(0);
    let code = vec![
        set(field_of(InstanceIdentifier::Local, 0), lit(1.0)),
        Instruction::EvalExpression { node: call(0, vec![]) },
    ];
    game.execute(&mut Headless {}, &code, &mut ctx, BUDGET).unwrap();
    assert!(matches!(
        game.eval(&mut Headless {}, &read(local()), &mut ctx, BUDGET),
        Err(Error::UninitializedVariable(_, 0))
    ));
    let own_local = read(field_of(InstanceIdentifier::Local, 0));
    assert_eq!(as_f64(&game.eval(&mut Headless {}, &own_local, &mut ctx, BUDGET).unwrap()), 1.0);
    // and those of the caller are invisible to the script
    game.assets.scripts.push(script(vec![Instruction::SetReturnValue {
        value: read(field_of(InstanceIdentifier::Local, 0)),
    }]));
    assert!(matches!(
        game.eval(&mut Headless {}, &call(1, vec![]), &mut ctx, BUDGET),
        Err(Error::UninitializedVariable(_, 0))
    ));
}

#[test]
fn a_missing_script_or_constant_is_an_error() {
    let mut game = game_with(1);
    game.assets.scripts.push(None);
    assert!(matches!(
        eval(&mut game, &call(0, vec![])),
        Err(Error::NonexistentAsset(AssetType::Script, 0))
    ));
    assert!(matches!(
        eval(&mut game, &call(3, vec![])),
        Err(Error::NonexistentAsset(AssetType::Script, 3))
    ));
    game.constants.push(num(2.5));
    assert_eq!(as_f64(&eval(&mut game, &Node::Constant { constant_id: 0 }).unwrap()), 2.5);
    assert!(matches!(
        eval(&mut game, &Node::Constant { constant_id: 1 }),
        Err(Error::NonexistentAsset(AssetType::Constant, 1))
    ));
}

#[test]
fn a_recursive_script_ends_on_its_own_or_with_the_budget() {
    let mut game = game_with(1);
    // factorial: if argument0 < 2 return 1 else return argument0 * script0(argument0 - 1)
    game.assets.scripts.push(script(vec![Instruction::IfElse {
        cond: binary(BinaryOperator::LessThan, argument(InstanceVariable::Argument0), lit(2.0)),
        if_body: vec![Instruction::SetReturnValue { value: lit(1.0) }],
        else_body: vec![Instruction::SetReturnValue {
            value: binary(
                BinaryOperator::Multiply,
                argument(InstanceVariable::Argument0),
                call(
                    0,
                    vec![binary(
                        BinaryOperator::Subtract,
                        argument(InstanceVariable::Argument0),
                        lit(1.0),
                    )],
                ),
            ),
        }],
    }]));
    assert_eq!(as_f64(&eval(&mut game, &call(0, vec![lit(5.0)])).unwrap()), 120.0);
    // a script that calls itself without end
    game.assets.scripts.push(script(vec![Instruction::EvalExpression { node: call(1, vec![]) }]));
    let mut ctx = Context::new(0);
    assert!(matches!(
        game.eval(&mut Headless {}, &call(1, vec![]), &mut ctx, 200),
        Err(Error::BudgetExhausted)
    ));
}

#[test]
fn functions_are_the_hosts() {
    let mut game = game_with(2);
    assert!(matches!(
        eval(&mut game, &Node::Function { args: vec![], function: 3 }),
        Err(Error::UnknownFunction(_))
    ));
    let mut host = TestHost { events: vec![] };
    let mut ctx = Context::new(0);
    let node = Node::Function { args: vec![lit(1.0)], function: 0 };
    game.eval(&mut host, &node, &mut ctx, BUDGET).unwrap();
    assert_eq!(game.instance_list.count_all(), 1);
    // an argument that fails is the error of the call, and the host is not asked
    let failing = Node::Function {
        args: vec![Node::RuntimeError { error: Error::EndOfRoomOrder }],
        function: 0,
    };
    assert!(matches!(game.eval(&mut host, &failing, &mut ctx, BUDGET), Err(Error::EndOfRoomOrder)));
}

#[test]
fn errors_embedded_at_compile_time_are_raised_when_reached() {
    let mut game = game_with(1);
    let code = vec![
        Instruction::IfElse {
            cond: lit(0.0),
            if_body: vec![Instruction::RuntimeError {
                error: Error::InvalidAssignment("1 = 2".to_string()),
            }],
            else_body: vec![],
        },
        add_to(0, 1.0),
    ];
    assert_eq!(run(&mut game, &code).unwrap(), ReturnType::Normal);
    let code = vec![
        Instruction::RuntimeError { error: Error::InvalidAssignment("1 = 2".to_string()) },
        add_to(0, 1.0),
    ];
    match run(&mut game, &code) {
        Err(Error::InvalidAssignment(s)) => assert_eq!(s, "1 = 2"),
        other => panic!("expected InvalidAssignment, got {:?}", other),
    }
    assert_eq!(field(&game, 0, 0), 1.0);
}

#[test]
fn unary_nodes() {
    let mut game = game_with(1);
    let node = Node::Unary { child: Box::new(lit(3.0)), operator: UnaryOperator::Neg };
    assert_eq!(as_f64(&eval(&mut game, &node).unwrap()), -3.0);
    let node = Node::Unary { child: Box::new(lit_text("a")), operator: UnaryOperator::Not };
    assert!(matches!(eval(&mut game, &node), Err(Error::InvalidOperandsUnary(_, _))));
}

#[test]
fn two_runs_from_one_state_agree() {
    let build = || {
        let mut game = game_with(3);
        game.assets.scripts.push(script(vec![Instruction::SetReturnValue {
            value: binary(BinaryOperator::Divide, argument(InstanceVariable::Argument0), lit(3.0)),
        }]));
        game
    };
    let code = vec![
        Instruction::With {
            target: lit(-3.0),
            body: vec![
                add_to(0, 0.1),
                set(own(1), call(0, vec![read(own(0))])),
                Instruction::Repeat { count: lit(3.0), body: vec![add_to(2, 0.7)] },
            ],
        },
        set(field_of(InstanceIdentifier::Global, 0), lit_text("done")),
    ];
    let mut first = build();
    let mut second = build();
    let a = run(&mut first, &code);
    let b = run(&mut second, &code);
    assert_eq!(a.unwrap(), b.unwrap());
    for h in 0..3 {
        for f in 0..4 {
            let x = first.get_instance_field(h, f, 0).unwrap();
            let y = second.get_instance_field(h, f, 0).unwrap();
            match (x, y) {
                (Value::Real(x), Value::Real(y)) => assert_eq!(x.to_bits(), y.to_bits()),
                _ => panic!("expected numbers"),
            }
        }
    }
}
