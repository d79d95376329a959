//! What running a script means.
//!
//! The meaning of every node and instruction is given as a function from the
//! state before to the state after and the result. Wherever the host has a
//! say (a built-in function, an event, a computation that the host owns) the
//! function stops and says so: what happens from there on is the host's
//! business, and the runtime promises nothing about it.
//!
//! A run has a budget. Each level of nesting, each iteration of a loop and
//! each call of a script runs on one unit less than what encloses or
//! precedes it, and a run that has no unit left ends with
//! `BudgetExhausted`. So every run ends.

use vstd::prelude::*;
use crate::error::AssetType;
use crate::error::ErrorModel;
use crate::field::lookup;
use crate::field::ARRAY_LIMIT;
use crate::game::ContextModel;
use crate::game::GameModel;
use crate::game::ALL;
use crate::game::ARGUMENT_COUNT;
use crate::game::FIRST_INSTANCE_ID;
use crate::game::GLOBAL;
use crate::game::LOCAL;
use crate::game::OTHER;
use crate::game::SELF;
use crate::game::SELF2;
use crate::instance::find_id;
use crate::instance::next_selected;
use crate::instance::InstanceModel;
use crate::instance::NOONE;
use crate::reading::field_of;
use crate::reading::read_variable;
use crate::reading::unset;
use crate::operator::BinaryOperator;
use crate::operator::UnaryOperator;
use crate::tree::ArrayAccessor;
use crate::tree::FieldAccessor;
use crate::tree::VariableAccessor;
use crate::tree::InstanceIdentifier;
use crate::tree::Instruction;
use crate::tree::Node;
use crate::tree::ReturnType;
use crate::value::ValueModel;
use crate::variable::InstanceVariable;
use crate::writing::write_variable;

verus! {

/// The state that a script runs against: the game and the frame of the call.
pub struct World {
    pub game: GameModel,
    pub ctx: ContextModel,
}

/// How a piece of a run ends: with a state and a result, or in the hands of
/// the host.
pub enum Outcome<T> {
    Done(World, Result<T, ErrorModel>),
    Host,
}

/// Where an accessor points once its owner is known.
#[derive(Clone, Copy, Debug, PartialEq, Eq, Structural)]
pub enum Target {
    /// One instance, by handle, or none at all.
    Single(Option<usize>),
    /// The instances of an object and of its descendants.
    Objects(i32),
    All,
    Global,
    Local,
}

/// True when what a function did is what the meaning of its input says,
/// wherever the meaning says anything.
pub open spec fn agrees<T>(
    outcome: Outcome<T>,
    game: GameModel,
    ctx: ContextModel,
    result: Result<T, ErrorModel>,
) -> bool {
    match outcome {
        Outcome::Host => true,
        Outcome::Done(w, r) => w.game == game && w.ctx == ctx && r == result,
    }
}

/// The handle that a place in the list of instances is.
pub open spec fn handle_at(place: Option<int>) -> Option<usize> {
    match place {
        Some(h) => Some(h as usize),
        None => None,
    }
}

/// Where a number points that an expression gave for an owner.
pub open spec fn target_of_id(game: GameModel, ctx: ContextModel, id: i32) -> Target {
    if id == SELF || id == SELF2 {
        Target::Single(Some(ctx.this))
    } else if id == OTHER {
        Target::Single(Some(ctx.other))
    } else if id == ALL {
        Target::All
    } else if id == NOONE {
        Target::Single(None)
    } else if id == GLOBAL {
        Target::Global
    } else if id == LOCAL {
        Target::Local
    } else if id >= FIRST_INSTANCE_ID {
        Target::Single(handle_at(find_id(game.instances, 0, id)))
    } else if id >= 0 {
        Target::Objects(id)
    } else {
        Target::Single(None)
    }
}

/// The index that a rounded value is, if it is one.
pub open spec fn index_of(i: i32) -> Result<u32, ErrorModel> {
    if i < 0 || i >= ARRAY_LIMIT {
        Err(ErrorModel::InvalidArrayIndex(i))
    } else {
        Ok(i as u32)
    }
}

/// The index that two rounded values are together: the first picks the row
/// and the second the place in it.
pub open spec fn index_of_pair(i: i32, j: i32) -> Result<u32, ErrorModel> {
    if i < 0 || i >= ARRAY_LIMIT {
        Err(ErrorModel::InvalidArrayIndex(i))
    } else if j < 0 || j >= ARRAY_LIMIT {
        Err(ErrorModel::InvalidArrayIndex(j))
    } else {
        Ok((i * ARRAY_LIMIT + j) as u32)
    }
}

/// The first instance that iteration over a family of objects stops at.
pub open spec fn first_selected(game: GameModel, family: Option<Seq<i32>>) -> Option<usize> {
    handle_at(next_selected(game.instances, 0, family))
}

/// What a user variable reads as through a target. Of several instances
/// the first in insertion order is read.
pub open spec fn read_field(
    game: GameModel,
    ctx: ContextModel,
    target: Target,
    field: usize,
    index: u32,
) -> Result<ValueModel, ErrorModel> {
    let missing = unset(game, game.field_name(field), index);
    match target {
        Target::Single(None) => missing,
        Target::Single(Some(h)) => field_of(game, h, field, index),
        Target::Objects(class) => match game.assets.object_family(class as int) {
            Some(family) => match first_selected(game, Some(family)) {
                Some(h) => field_of(game, h, field, index),
                None => missing,
            },
            None => missing,
        },
        Target::All => match first_selected(game, None) {
            Some(h) => field_of(game, h, field, index),
            None => missing,
        },
        Target::Global => match lookup(game.global_fields, field, index) {
            Some(v) => Ok(v),
            None => missing,
        },
        Target::Local => match lookup(ctx.local_fields, field, index) {
            Some(v) => Ok(v),
            None => missing,
        },
    }
}

/// What a built-in variable reads as through a target, or `None` where the
/// host has a say.
pub open spec fn read_var(
    game: GameModel,
    ctx: ContextModel,
    target: Target,
    var: InstanceVariable,
    index: u32,
) -> Option<Result<ValueModel, ErrorModel>> {
    let missing = Some(unset(game, var.spec_name(), index));
    match target {
        Target::Single(None) => missing,
        Target::Single(Some(h)) => read_variable(game, ctx, h, var, index),
        Target::Objects(class) => match game.assets.object_family(class as int) {
            Some(family) => match first_selected(game, Some(family)) {
                Some(h) => read_variable(game, ctx, h, var, index),
                None => missing,
            },
            None => missing,
        },
        Target::All => match first_selected(game, None) {
            Some(h) => read_variable(game, ctx, h, var, index),
            None => missing,
        },
        Target::Global => match lookup(game.global_vars, var.spec_code(), index) {
            Some(v) => Some(Ok(v)),
            None => missing,
        },
        Target::Local => match lookup(ctx.local_vars, var.spec_code(), index) {
            Some(v) => Some(Ok(v)),
            None => missing,
        },
    }
}

/// The game after a cell of a user variable of an instance was written.
pub open spec fn write_cell(game: GameModel, handle: usize, field: usize, index: u32, value: ValueModel)
    -> GameModel {
    match game.instance(handle) {
        Some(inst) => game.with_instance(
            handle,
            InstanceModel { fields: inst.fields.insert((field, index), value), ..inst },
        ),
        None => game,
    }
}

/// The game after a cell of a user variable was written in every instance
/// from a place on that iteration over a family stops at.
pub open spec fn write_cell_each(
    game: GameModel,
    pos: int,
    family: Option<Seq<i32>>,
    field: usize,
    index: u32,
    value: ValueModel,
) -> GameModel
    decreases game.instances.len() - pos,
{
    match next_selected(game.instances, pos, family) {
        Some(h) => if pos <= h < game.instances.len() {
            write_cell_each(
                write_cell(game, h as usize, field, index, value),
                h + 1,
                family,
                field,
                index,
                value,
            )
        } else {
            game
        },
        None => game,
    }
}

/// The state after a user variable was written through a target.
pub open spec fn write_field(w: World, target: Target, field: usize, index: u32, value: ValueModel)
    -> World {
    match target {
        Target::Single(None) => w,
        Target::Single(Some(h)) => World { game: write_cell(w.game, h, field, index, value), ..w },
        Target::Objects(class) => match w.game.assets.object_family(class as int) {
            Some(family) => World {
                game: write_cell_each(w.game, 0, Some(family), field, index, value),
                ..w
            },
            None => w,
        },
        Target::All => World { game: write_cell_each(w.game, 0, None, field, index, value), ..w },
        Target::Global => World {
            game: GameModel {
                global_fields: w.game.global_fields.insert((field, index), value),
                ..w.game
            },
            ..w
        },
        Target::Local => World {
            ctx: ContextModel {
                local_fields: w.ctx.local_fields.insert((field, index), value),
                ..w.ctx
            },
            ..w
        },
    }
}

/// What the assignment of a built-in variable to one instance does.
pub open spec fn write_var_one(
    w: World,
    handle: usize,
    var: InstanceVariable,
    index: u32,
    value: ValueModel,
) -> Outcome<()> {
    match write_variable(w.game, w.ctx, handle, var, index, value) {
        Some((game, ctx, res)) => Outcome::Done(World { game, ctx }, res),
        None => Outcome::Host,
    }
}

/// What the assignment of a built-in variable does to every instance from
/// a place on that iteration over a family stops at. The first error ends
/// it.
pub open spec fn write_var_each(
    w: World,
    pos: int,
    family: Option<Seq<i32>>,
    var: InstanceVariable,
    index: u32,
    value: ValueModel,
    fuel: nat,
) -> Outcome<()>
    decreases fuel,
{
    match next_selected(w.game.instances, pos, family) {
        None => Outcome::Done(w, Ok(())),
        Some(h) => if fuel == 0 {
            Outcome::Done(w, Err(ErrorModel::BudgetExhausted))
        } else {
            match write_var_one(w, h as usize, var, index, value) {
                Outcome::Host => Outcome::Host,
                Outcome::Done(w1, Err(e)) => Outcome::Done(w1, Err(e)),
                Outcome::Done(w1, Ok(_)) => write_var_each(
                    w1,
                    h + 1,
                    family,
                    var,
                    index,
                    value,
                    (fuel - 1) as nat,
                ),
            }
        },
    }
}

/// What the assignment of a built-in variable through a target does.
pub open spec fn write_var(
    w: World,
    target: Target,
    var: InstanceVariable,
    index: u32,
    value: ValueModel,
    fuel: nat,
) -> Outcome<()> {
    match target {
        Target::Single(None) => Outcome::Done(w, Ok(())),
        Target::Single(Some(h)) => write_var_one(w, h, var, index, value),
        Target::Objects(class) => match w.game.assets.object_family(class as int) {
            Some(family) => write_var_each(w, 0, Some(family), var, index, value, fuel),
            None => Outcome::Done(w, Ok(())),
        },
        Target::All => write_var_each(w, 0, None, var, index, value, fuel),
        Target::Global => Outcome::Done(
            World {
                game: GameModel {
                    global_vars: w.game.global_vars.insert((var.spec_code(), index), value),
                    ..w.game
                },
                ..w
            },
            Ok(()),
        ),
        Target::Local => Outcome::Done(
            World {
                ctx: ContextModel {
                    local_vars: w.ctx.local_vars.insert((var.spec_code(), index), value),
                    ..w.ctx
                },
                ..w
            },
            Ok(()),
        ),
    }
}

/// The arguments of a call as the called frame holds them: those that were
/// evaluated, then zeros up to `ARGUMENT_COUNT`.
pub open spec fn padded(values: Seq<ValueModel>) -> Seq<ValueModel> {
    Seq::new(
        ARGUMENT_COUNT as nat,
        |i: int|
            if i < values.len() {
                values[i]
            } else {
                ValueModel::zero()
            },
    )
}

/// The state with another value returned so far.
pub open spec fn returning(w: World, value: ValueModel) -> World {
    World { ctx: ContextModel { return_value: value, ..w.ctx }, ..w }
}

/// The state with other instances in the roles of `self` and `other`.
pub open spec fn rebound(w: World, this: usize, other: usize) -> World {
    World { ctx: ContextModel { this, other, ..w.ctx }, ..w }
}

/// An outcome with `self` and `other` put back.
pub open spec fn restored(o: Outcome<ReturnType>, this: usize, other: usize) -> Outcome<
    ReturnType,
> {
    match o {
        Outcome::Host => Outcome::Host,
        Outcome::Done(w, r) => Outcome::Done(rebound(w, this, other), r),
    }
}

/// What a loop or a `with` makes of how its body ended for good: `exit`
/// goes on to the caller, everything else ends here.
pub open spec fn settled(r: ReturnType) -> ReturnType {
    if r == ReturnType::Exit {
        ReturnType::Exit
    } else {
        ReturnType::Normal
    }
}

/// An outcome in which `break` has become a normal end.
pub open spec fn break_swallowed(o: Outcome<ReturnType>) -> Outcome<ReturnType> {
    match o {
        Outcome::Done(w, Ok(ReturnType::Break)) => Outcome::Done(w, Ok(ReturnType::Normal)),
        _ => o,
    }
}

/// An outcome of a body that ran once, as a `with` passes it on.
pub open spec fn settled_outcome(o: Outcome<ReturnType>) -> Outcome<ReturnType> {
    match o {
        Outcome::Done(w, Ok(r)) => Outcome::Done(w, Ok(settled(r))),
        _ => o,
    }
}

/// The field ids that are declared global after more were declared.
pub open spec fn declared(before: Set<usize>, fields: Seq<usize>) -> Set<usize> {
    Set::new(|f: usize| before.contains(f) || fields.contains(f))
}

/// What it means to find the instances that an owner names.
pub open spec fn sem_target(w: World, owner: InstanceIdentifier, in_globalvars: bool, fuel: nat)
    -> Outcome<Target>
    decreases fuel, 1int, 0int,
{
    match owner {
        InstanceIdentifier::Own => Outcome::Done(w, Ok(Target::Single(Some(w.ctx.this)))),
        InstanceIdentifier::Other => Outcome::Done(w, Ok(Target::Single(Some(w.ctx.other)))),
        InstanceIdentifier::Global => Outcome::Done(w, Ok(Target::Global)),
        InstanceIdentifier::Local => Outcome::Done(w, Ok(Target::Local)),
        InstanceIdentifier::Unknown => if in_globalvars {
            Outcome::Done(w, Ok(Target::Global))
        } else {
            Outcome::Done(w, Ok(Target::Single(Some(w.ctx.this))))
        },
        InstanceIdentifier::Expression(node) => match sem_eval(w, *node, fuel) {
            Outcome::Host => Outcome::Host,
            Outcome::Done(w1, Err(e)) => Outcome::Done(w1, Err(e)),
            Outcome::Done(w1, Ok(v)) => Outcome::Done(
                w1,
                Ok(target_of_id(w1.game, w1.ctx, v.to_i32())),
            ),
        },
    }
}

/// What it means to find the index that an accessor names. Both parts of a
/// double index are evaluated before either is checked.
pub open spec fn sem_index(w: World, array: ArrayAccessor, fuel: nat) -> Outcome<u32>
    decreases fuel, 1int, 0int,
{
    match array {
        ArrayAccessor::NoIndex => Outcome::Done(w, Ok(0u32)),
        ArrayAccessor::Single(node) => match sem_eval(w, *node, fuel) {
            Outcome::Host => Outcome::Host,
            Outcome::Done(w1, Err(e)) => Outcome::Done(w1, Err(e)),
            Outcome::Done(w1, Ok(v)) => Outcome::Done(w1, index_of(v.to_i32())),
        },
        ArrayAccessor::Double(first, second) => match sem_eval(w, *first, fuel) {
            Outcome::Host => Outcome::Host,
            Outcome::Done(w1, Err(e)) => Outcome::Done(w1, Err(e)),
            Outcome::Done(w1, Ok(v1)) => match sem_eval(w1, *second, fuel) {
                Outcome::Host => Outcome::Host,
                Outcome::Done(w2, Err(e)) => Outcome::Done(w2, Err(e)),
                Outcome::Done(w2, Ok(v2)) => Outcome::Done(
                    w2,
                    index_of_pair(v1.to_i32(), v2.to_i32()),
                ),
            },
        },
    }
}

/// What it means to evaluate the arguments of a call from a place on, in
/// order, after those in `done`. At most `ARGUMENT_COUNT` are evaluated.
pub open spec fn sem_args(w: World, args: Seq<Node>, from: int, done: Seq<ValueModel>, fuel: nat)
    -> Outcome<Seq<ValueModel>>
    decreases fuel, 1int, args.len() - from,
{
    if from < 0 || from >= args.len() || from >= ARGUMENT_COUNT {
        Outcome::Done(w, Ok(done))
    } else {
        match sem_eval(w, args[from], fuel) {
            Outcome::Host => Outcome::Host,
            Outcome::Done(w1, Err(e)) => Outcome::Done(w1, Err(e)),
            Outcome::Done(w1, Ok(v)) => sem_args(w1, args, from + 1, done.push(v), fuel),
        }
    }
}

/// What it means to call a built-in function: the arguments are evaluated,
/// and the rest is the host's.
pub open spec fn sem_function(w: World, args: Seq<Node>, fuel: nat) -> Outcome<ValueModel>
    decreases fuel, 2int, 0int,
{
    match sem_args(w, args, 0, Seq::empty(), fuel) {
        Outcome::Done(w1, Err(e)) => Outcome::Done(w1, Err(e)),
        _ => Outcome::Host,
    }
}

/// What it means to call a script: the arguments are evaluated in the frame
/// of the caller, the code of the script runs in a frame of its own, and
/// the value of the call is what that frame holds as returned in the end.
/// The frame of the caller is after the call what it was after the
/// arguments.
pub open spec fn sem_script(w: World, args: Seq<Node>, script_id: usize, fuel: nat) -> Outcome<
    ValueModel,
>
    decreases fuel, 2int, 0int,
{
    match w.game.assets.script_code(script_id as int) {
        None => Outcome::Done(
            w,
            Err(ErrorModel::NonexistentAsset(AssetType::Script, script_id as i32)),
        ),
        Some(code) => match sem_args(w, args, 0, Seq::empty(), fuel) {
            Outcome::Host => Outcome::Host,
            Outcome::Done(w1, Err(e)) => Outcome::Done(w1, Err(e)),
            Outcome::Done(w1, Ok(values)) => {
                let callee = World {
                    game: w1.game,
                    ctx: w1.ctx.for_call(padded(values), args.len() as usize),
                };
                match sem_block(callee, code, 0, fuel) {
                    Outcome::Host => Outcome::Host,
                    Outcome::Done(w2, Err(e)) => Outcome::Done(
                        World { game: w2.game, ctx: w1.ctx },
                        Err(e),
                    ),
                    Outcome::Done(w2, Ok(_)) => Outcome::Done(
                        World { game: w2.game, ctx: w1.ctx },
                        Ok(w2.ctx.return_value),
                    ),
                }
            },
        },
    }
}

/// What it means to read the user variable that an accessor names.
pub open spec fn sem_field(w: World, accessor: FieldAccessor, fuel: nat) -> Outcome<ValueModel>
    decreases fuel, 2int, 0int,
{
    match sem_target(w, accessor.owner, w.game.globalvars.contains(accessor.index), fuel) {
        Outcome::Host => Outcome::Host,
        Outcome::Done(w1, Err(e)) => Outcome::Done(w1, Err(e)),
        Outcome::Done(w1, Ok(target)) => match sem_index(w1, accessor.array, fuel) {
            Outcome::Host => Outcome::Host,
            Outcome::Done(w2, Err(e)) => Outcome::Done(w2, Err(e)),
            Outcome::Done(w2, Ok(index)) => Outcome::Done(
                w2,
                read_field(w2.game, w2.ctx, target, accessor.index, index),
            ),
        },
    }
}

/// What it means to read the built-in variable that an accessor names.
pub open spec fn sem_variable(w: World, accessor: VariableAccessor, fuel: nat) -> Outcome<
    ValueModel,
>
    decreases fuel, 2int, 0int,
{
    match sem_target(w, accessor.owner, false, fuel) {
        Outcome::Host => Outcome::Host,
        Outcome::Done(w1, Err(e)) => Outcome::Done(w1, Err(e)),
        Outcome::Done(w1, Ok(target)) => match sem_index(w1, accessor.array, fuel) {
            Outcome::Host => Outcome::Host,
            Outcome::Done(w2, Err(e)) => Outcome::Done(w2, Err(e)),
            Outcome::Done(w2, Ok(index)) => match read_var(
                w2.game,
                w2.ctx,
                target,
                accessor.var,
                index,
            ) {
                Some(res) => Outcome::Done(w2, res),
                None => Outcome::Host,
            },
        },
    }
}

/// What it means to apply a binary operator: the left operand is
/// evaluated, then the right, then the operator is applied.
pub open spec fn sem_binary(w: World, left: Node, right: Node, operator: BinaryOperator, fuel: nat)
    -> Outcome<ValueModel>
    decreases fuel, 1int, 0int,
{
    match sem_eval(w, left, fuel) {
        Outcome::Host => Outcome::Host,
        Outcome::Done(w1, Err(e)) => Outcome::Done(w1, Err(e)),
        Outcome::Done(w1, Ok(a)) => match sem_eval(w1, right, fuel) {
            Outcome::Host => Outcome::Host,
            Outcome::Done(w2, Err(e)) => Outcome::Done(w2, Err(e)),
            Outcome::Done(w2, Ok(b)) => Outcome::Done(w2, operator.apply(a, b)),
        },
    }
}

/// What it means to apply a unary operator.
pub open spec fn sem_unary(w: World, child: Node, operator: UnaryOperator, fuel: nat) -> Outcome<
    ValueModel,
>
    decreases fuel, 1int, 0int,
{
    match sem_eval(w, child, fuel) {
        Outcome::Host => Outcome::Host,
        Outcome::Done(w1, Err(e)) => Outcome::Done(w1, Err(e)),
        Outcome::Done(w1, Ok(a)) => Outcome::Done(w1, operator.apply(a)),
    }
}

/// What it means to evaluate a node.
pub open spec fn sem_eval(w: World, node: Node, fuel: nat) -> Outcome<ValueModel>
    decreases fuel, 0int, 0int,
{
    if fuel == 0 {
        Outcome::Done(w, Err(ErrorModel::BudgetExhausted))
    } else {
        let f = (fuel - 1) as nat;
        match node {
            Node::Literal { value } => Outcome::Done(w, Ok(value@)),
            Node::Constant { constant_id } => if constant_id < w.game.constants@.len() {
                Outcome::Done(w, Ok(w.game.constants@[constant_id as int]@))
            } else {
                Outcome::Done(
                    w,
                    Err(ErrorModel::NonexistentAsset(AssetType::Constant, constant_id as i32)),
                )
            },
            Node::Function { args, function } => sem_function(w, args@, f),
            Node::Script { args, script_id } => sem_script(w, args@, script_id, f),
            Node::Field { accessor } => sem_field(w, accessor, f),
            Node::Variable { accessor } => sem_variable(w, accessor, f),
            Node::Binary { left, right, operator } => sem_binary(w, *left, *right, operator, f),
            Node::Unary { child, operator } => sem_unary(w, *child, operator, f),
            Node::RuntimeError { error } => Outcome::Done(w, Err(error@)),
        }
    }
}

/// What it means to run a block from a place on: the instructions in
/// order, up to the first that does not end normally.
pub open spec fn sem_block(w: World, block: Seq<Instruction>, from: int, fuel: nat) -> Outcome<
    ReturnType,
>
    decreases fuel, 1int, block.len() - from,
{
    if from < 0 || from >= block.len() {
        Outcome::Done(w, Ok(ReturnType::Normal))
    } else {
        match sem_instr(w, block[from], fuel) {
            Outcome::Done(w1, Ok(ReturnType::Normal)) => sem_block(w1, block, from + 1, fuel),
            o => o,
        }
    }
}

/// What it means to run `do body until cond`. After `continue` the body
/// runs again without the condition being asked.
pub open spec fn sem_until(w: World, cond: Node, body: Seq<Instruction>, fuel: nat) -> Outcome<
    ReturnType,
>
    decreases fuel, 0int, 0int,
{
    if fuel == 0 {
        Outcome::Done(w, Err(ErrorModel::BudgetExhausted))
    } else {
        let f = (fuel - 1) as nat;
        match sem_block(w, body, 0, f) {
            Outcome::Host => Outcome::Host,
            Outcome::Done(w1, Err(e)) => Outcome::Done(w1, Err(e)),
            Outcome::Done(w1, Ok(ReturnType::Continue)) => sem_until(w1, cond, body, f),
            Outcome::Done(w1, Ok(ReturnType::Normal)) => match sem_eval(w1, cond, f) {
                Outcome::Host => Outcome::Host,
                Outcome::Done(w2, Err(e)) => Outcome::Done(w2, Err(e)),
                Outcome::Done(w2, Ok(c)) => if c.truthy() {
                    Outcome::Done(w2, Ok(ReturnType::Normal))
                } else {
                    sem_until(w2, cond, body, f)
                },
            },
            Outcome::Done(w1, Ok(r)) => Outcome::Done(w1, Ok(settled(r))),
        }
    }
}

/// What it means to run `while cond body`.
pub open spec fn sem_while(w: World, cond: Node, body: Seq<Instruction>, fuel: nat) -> Outcome<
    ReturnType,
>
    decreases fuel, 0int, 0int,
{
    if fuel == 0 {
        Outcome::Done(w, Err(ErrorModel::BudgetExhausted))
    } else {
        let f = (fuel - 1) as nat;
        match sem_eval(w, cond, f) {
            Outcome::Host => Outcome::Host,
            Outcome::Done(w1, Err(e)) => Outcome::Done(w1, Err(e)),
            Outcome::Done(w1, Ok(c)) => if !c.truthy() {
                Outcome::Done(w1, Ok(ReturnType::Normal))
            } else {
                match sem_block(w1, body, 0, f) {
                    Outcome::Host => Outcome::Host,
                    Outcome::Done(w2, Err(e)) => Outcome::Done(w2, Err(e)),
                    Outcome::Done(w2, Ok(ReturnType::Normal))
                    | Outcome::Done(w2, Ok(ReturnType::Continue)) => sem_while(w2, cond, body, f),
                    Outcome::Done(w2, Ok(r)) => Outcome::Done(w2, Ok(settled(r))),
                }
            },
        }
    }
}

/// What it means to run `for (; cond; step) body`. The step runs after a
/// body that ended normally or with `continue`; how the step ends, short of
/// an error, does not matter.
pub open spec fn sem_for(
    w: World,
    cond: Node,
    body: Seq<Instruction>,
    step: Seq<Instruction>,
    fuel: nat,
) -> Outcome<ReturnType>
    decreases fuel, 0int, 0int,
{
    if fuel == 0 {
        Outcome::Done(w, Err(ErrorModel::BudgetExhausted))
    } else {
        let f = (fuel - 1) as nat;
        match sem_eval(w, cond, f) {
            Outcome::Host => Outcome::Host,
            Outcome::Done(w1, Err(e)) => Outcome::Done(w1, Err(e)),
            Outcome::Done(w1, Ok(c)) => if !c.truthy() {
                Outcome::Done(w1, Ok(ReturnType::Normal))
            } else {
                match sem_block(w1, body, 0, f) {
                    Outcome::Host => Outcome::Host,
                    Outcome::Done(w2, Err(e)) => Outcome::Done(w2, Err(e)),
                    Outcome::Done(w2, Ok(ReturnType::Normal))
                    | Outcome::Done(w2, Ok(ReturnType::Continue)) => match sem_block(
                        w2,
                        step,
                        0,
                        f,
                    ) {
                        Outcome::Host => Outcome::Host,
                        Outcome::Done(w3, Err(e)) => Outcome::Done(w3, Err(e)),
                        Outcome::Done(w3, Ok(_)) => sem_for(w3, cond, body, step, f),
                    },
                    Outcome::Done(w2, Ok(r)) => Outcome::Done(w2, Ok(settled(r))),
                }
            },
        }
    }
}

/// What it means to run a body a number of times.
pub open spec fn sem_repeat(w: World, times: i32, body: Seq<Instruction>, fuel: nat) -> Outcome<
    ReturnType,
>
    decreases fuel, 0int, 0int,
{
    if times <= 0 {
        Outcome::Done(w, Ok(ReturnType::Normal))
    } else if fuel == 0 {
        Outcome::Done(w, Err(ErrorModel::BudgetExhausted))
    } else {
        let f = (fuel - 1) as nat;
        match sem_block(w, body, 0, f) {
            Outcome::Host => Outcome::Host,
            Outcome::Done(w1, Err(e)) => Outcome::Done(w1, Err(e)),
            Outcome::Done(w1, Ok(ReturnType::Normal))
            | Outcome::Done(w1, Ok(ReturnType::Continue)) => sem_repeat(
                w1,
                (times - 1) as i32,
                body,
                f,
            ),
            Outcome::Done(w1, Ok(r)) => Outcome::Done(w1, Ok(settled(r))),
        }
    }
}

/// What it means to run the body of a `switch` from a place on: to the end
/// of the body, or to the first `break`, which ends the `switch` normally.
pub open spec fn sem_case(w: World, body: Seq<Instruction>, start: usize, fuel: nat) -> Outcome<
    ReturnType,
>
    decreases fuel, 2int, 0int,
{
    break_swallowed(sem_block(w, body, start as int, fuel))
}

/// What it means to pick the case of a `switch`: the values of the cases
/// are evaluated in order, up to the first that equals the input; without
/// one, the default is taken if there is one.
pub open spec fn sem_switch(
    w: World,
    input: ValueModel,
    cases: Seq<(Node, usize)>,
    from: int,
    default: Option<usize>,
    body: Seq<Instruction>,
    fuel: nat,
) -> Outcome<ReturnType>
    decreases fuel, 3int, cases.len() - from,
{
    if from < 0 || from >= cases.len() {
        match default {
            Some(start) => sem_case(w, body, start, fuel),
            None => Outcome::Done(w, Ok(ReturnType::Normal)),
        }
    } else {
        match sem_eval(w, cases[from].0, fuel) {
            Outcome::Host => Outcome::Host,
            Outcome::Done(w1, Err(e)) => Outcome::Done(w1, Err(e)),
            Outcome::Done(w1, Ok(v)) => if v.almost_equals(input) {
                sem_case(w1, body, cases[from].1, fuel)
            } else {
                sem_switch(w1, input, cases, from + 1, default, body, fuel)
            },
        }
    }
}

/// What it means to run the body of a `with` for every instance from a
/// place on that iteration over a family stops at. `continue` goes on with
/// the next instance, `break` ends the iteration.
pub open spec fn sem_with_each(
    w: World,
    pos: int,
    family: Option<Seq<i32>>,
    body: Seq<Instruction>,
    fuel: nat,
) -> Outcome<ReturnType>
    decreases fuel, 0int, 0int,
{
    match next_selected(w.game.instances, pos, family) {
        None => Outcome::Done(w, Ok(ReturnType::Normal)),
        Some(h) => if fuel == 0 {
            Outcome::Done(w, Err(ErrorModel::BudgetExhausted))
        } else {
            let f = (fuel - 1) as nat;
            match sem_block(rebound(w, h as usize, w.ctx.other), body, 0, f) {
                Outcome::Host => Outcome::Host,
                Outcome::Done(w1, Err(e)) => Outcome::Done(w1, Err(e)),
                Outcome::Done(w1, Ok(ReturnType::Normal))
                | Outcome::Done(w1, Ok(ReturnType::Continue)) => sem_with_each(
                    w1,
                    h + 1,
                    family,
                    body,
                    f,
                ),
                Outcome::Done(w1, Ok(r)) => Outcome::Done(w1, Ok(settled(r))),
            }
        },
    }
}

/// What it means to run the body of a `with` for what a number names. The
/// instance that ran the `with` is `other` in the body. Whatever happens,
/// `self` and `other` are afterwards what they were before the `with`,
/// which the caller hands in.
pub open spec fn sem_with(
    w: World,
    this: usize,
    other: usize,
    id: i32,
    body: Seq<Instruction>,
    fuel: nat,
) -> Outcome<ReturnType>
    decreases fuel, 2int, 0int,
{
    let inside = rebound(w, w.ctx.this, w.ctx.this);
    let skip = Outcome::Done(rebound(w, this, other), Ok(ReturnType::Normal));
    if id == SELF || id == SELF2 {
        restored(settled_outcome(sem_block(inside, body, 0, fuel)), this, other)
    } else if id == OTHER {
        restored(
            settled_outcome(sem_block(rebound(w, other, w.ctx.this), body, 0, fuel)),
            this,
            other,
        )
    } else if id == ALL {
        restored(sem_with_each(inside, 0, None, body, fuel), this, other)
    } else if id < 0 {
        skip
    } else if id < FIRST_INSTANCE_ID {
        match w.game.assets.object_family(id as int) {
            Some(family) => restored(sem_with_each(inside, 0, Some(family), body, fuel), this, other),
            None => skip,
        }
    } else {
        match handle_at(find_id(w.game.instances, 0, id)) {
            Some(h) => restored(
                settled_outcome(sem_block(rebound(w, h, w.ctx.this), body, 0, fuel)),
                this,
                other,
            ),
            None => skip,
        }
    }
}

/// What it means to assign a user variable: owner, index and value are
/// evaluated in that order, the value is kept as the value returned so far,
/// and then it is written.
pub open spec fn sem_set_field(w: World, accessor: FieldAccessor, value: Node, fuel: nat)
    -> Outcome<ReturnType>
    decreases fuel, 2int, 0int,
{
    match sem_target(w, accessor.owner, w.game.globalvars.contains(accessor.index), fuel) {
        Outcome::Host => Outcome::Host,
        Outcome::Done(w1, Err(e)) => Outcome::Done(w1, Err(e)),
        Outcome::Done(w1, Ok(target)) => match sem_index(w1, accessor.array, fuel) {
            Outcome::Host => Outcome::Host,
            Outcome::Done(w2, Err(e)) => Outcome::Done(w2, Err(e)),
            Outcome::Done(w2, Ok(index)) => match sem_eval(w2, value, fuel) {
                Outcome::Host => Outcome::Host,
                Outcome::Done(w3, Err(e)) => Outcome::Done(w3, Err(e)),
                Outcome::Done(w3, Ok(v)) => Outcome::Done(
                    write_field(returning(w3, v), target, accessor.index, index, v),
                    Ok(ReturnType::Normal),
                ),
            },
        },
    }
}

/// What it means to assign a built-in variable: as for a user variable,
/// but the assignment itself may be an error or the host's.
pub open spec fn sem_set_variable(w: World, accessor: VariableAccessor, value: Node, fuel: nat)
    -> Outcome<ReturnType>
    decreases fuel, 2int, 0int,
{
    match sem_target(w, accessor.owner, false, fuel) {
        Outcome::Host => Outcome::Host,
        Outcome::Done(w1, Err(e)) => Outcome::Done(w1, Err(e)),
        Outcome::Done(w1, Ok(target)) => match sem_index(w1, accessor.array, fuel) {
            Outcome::Host => Outcome::Host,
            Outcome::Done(w2, Err(e)) => Outcome::Done(w2, Err(e)),
            Outcome::Done(w2, Ok(index)) => match sem_eval(w2, value, fuel) {
                Outcome::Host => Outcome::Host,
                Outcome::Done(w3, Err(e)) => Outcome::Done(w3, Err(e)),
                Outcome::Done(w3, Ok(v)) => match write_var(
                    returning(w3, v),
                    target,
                    accessor.var,
                    index,
                    v,
                    fuel,
                ) {
                    Outcome::Host => Outcome::Host,
                    Outcome::Done(w4, Err(e)) => Outcome::Done(w4, Err(e)),
                    Outcome::Done(w4, Ok(_)) => Outcome::Done(w4, Ok(ReturnType::Normal)),
                },
            },
        },
    }
}

/// What it means to evaluate a node for its value: the value becomes the
/// value returned so far.
pub open spec fn sem_expression(w: World, node: Node, fuel: nat) -> Outcome<ReturnType>
    decreases fuel, 1int, 0int,
{
    match sem_eval(w, node, fuel) {
        Outcome::Host => Outcome::Host,
        Outcome::Done(w1, Err(e)) => Outcome::Done(w1, Err(e)),
        Outcome::Done(w1, Ok(v)) => Outcome::Done(returning(w1, v), Ok(ReturnType::Normal)),
    }
}

/// What it means to run one of two blocks, as a condition says. How the
/// block ends is how the instruction ends.
pub open spec fn sem_if(
    w: World,
    cond: Node,
    if_body: Seq<Instruction>,
    else_body: Seq<Instruction>,
    fuel: nat,
) -> Outcome<ReturnType>
    decreases fuel, 2int, 0int,
{
    match sem_eval(w, cond, fuel) {
        Outcome::Host => Outcome::Host,
        Outcome::Done(w1, Err(e)) => Outcome::Done(w1, Err(e)),
        Outcome::Done(w1, Ok(c)) => if c.truthy() {
            sem_block(w1, if_body, 0, fuel)
        } else {
            sem_block(w1, else_body, 0, fuel)
        },
    }
}

/// What it means to run `repeat`: the count is evaluated and rounded, and
/// the body runs that many times.
pub open spec fn sem_repeat_count(w: World, count: Node, body: Seq<Instruction>, fuel: nat)
    -> Outcome<ReturnType>
    decreases fuel, 1int, 0int,
{
    match sem_eval(w, count, fuel) {
        Outcome::Host => Outcome::Host,
        Outcome::Done(w1, Err(e)) => Outcome::Done(w1, Err(e)),
        Outcome::Done(w1, Ok(n)) => sem_repeat(w1, n.to_i32(), body, fuel),
    }
}

/// What it means to run `switch`: the input is evaluated, then the case is
/// picked.
pub open spec fn sem_switch_on(
    w: World,
    input: Node,
    cases: Seq<(Node, usize)>,
    default: Option<usize>,
    body: Seq<Instruction>,
    fuel: nat,
) -> Outcome<ReturnType>
    decreases fuel, 4int, 0int,
{
    match sem_eval(w, input, fuel) {
        Outcome::Host => Outcome::Host,
        Outcome::Done(w1, Err(e)) => Outcome::Done(w1, Err(e)),
        Outcome::Done(w1, Ok(v)) => sem_switch(w1, v, cases, 0, default, body, fuel),
    }
}

/// What it means to run `with`: the target is evaluated and rounded, and
/// the body runs for what the number names. `self` and `other` are
/// afterwards what they were before, also where the target is an error.
pub open spec fn sem_with_target(w: World, target: Node, body: Seq<Instruction>, fuel: nat)
    -> Outcome<ReturnType>
    decreases fuel, 3int, 0int,
{
    match sem_eval(w, target, fuel) {
        Outcome::Host => Outcome::Host,
        Outcome::Done(w1, Err(e)) => Outcome::Done(rebound(w1, w.ctx.this, w.ctx.other), Err(e)),
        Outcome::Done(w1, Ok(v)) => sem_with(w1, w.ctx.this, w.ctx.other, v.to_i32(), body, fuel),
    }
}

/// What it means to run an instruction.
pub open spec fn sem_instr(w: World, instr: Instruction, fuel: nat) -> Outcome<ReturnType>
    decreases fuel, 0int, 0int,
{
    if fuel == 0 {
        Outcome::Done(w, Err(ErrorModel::BudgetExhausted))
    } else {
        let f = (fuel - 1) as nat;
        match instr {
            Instruction::SetField { accessor, value } => sem_set_field(w, accessor, value, f),
            Instruction::SetVariable { accessor, value } => sem_set_variable(w, accessor, value, f),
            Instruction::EvalExpression { node } => sem_expression(w, node, f),
            Instruction::SetReturnValue { value } => sem_expression(w, value, f),
            Instruction::IfElse { cond, if_body, else_body } => sem_if(
                w,
                cond,
                if_body@,
                else_body@,
                f,
            ),
            Instruction::LoopUntil { cond, body } => sem_until(w, cond, body@, f),
            Instruction::LoopWhile { cond, body } => sem_while(w, cond, body@, f),
            Instruction::LoopFor { cond, body, step } => sem_for(w, cond, body@, step@, f),
            Instruction::Return { return_type } => Outcome::Done(w, Ok(return_type)),
            Instruction::Repeat { count, body } => sem_repeat_count(w, count, body@, f),
            Instruction::Switch { input, cases, default, body } => sem_switch_on(
                w,
                input,
                cases@,
                default,
                body@,
                f,
            ),
            Instruction::With { target, body } => sem_with_target(w, target, body@, f),
            Instruction::GlobalVar { fields } => Outcome::Done(
                World {
                    game: GameModel { globalvars: declared(w.game.globalvars, fields@), ..w.game },
                    ..w
                },
                Ok(ReturnType::Normal),
            ),
            Instruction::RuntimeError { error } => Outcome::Done(w, Err(error@)),
        }
    }
}

} // verus!
