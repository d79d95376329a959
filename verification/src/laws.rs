//! What holds of every run, stated over the meaning of scripts.

use vstd::prelude::*;
use crate::error::ErrorModel;
use crate::field::lookup;
use crate::field::ARRAY_LIMIT;
use crate::game::ContextModel;
use crate::game::GameModel;
use crate::instance::next_selected;
use crate::instance::selects;
use crate::instance::InstanceModel;
use crate::reading::field_of;
use crate::reading::unset;
use crate::semantics::agrees;
use crate::semantics::index_of;
use crate::semantics::index_of_pair;
use crate::semantics::read_field;
use crate::semantics::sem_args;
use crate::semantics::sem_binary;
use crate::semantics::sem_field;
use crate::semantics::sem_script;
use crate::semantics::sem_variable;
use crate::semantics::sem_with_target;
use crate::operator::BinaryOperator;
use crate::tree::FieldAccessor;
use crate::tree::VariableAccessor;
use crate::semantics::sem_eval;
use crate::semantics::sem_index;
use crate::semantics::sem_instr;
use crate::semantics::sem_target;
use crate::semantics::sem_with;
use crate::semantics::Outcome;
use crate::semantics::Target;
use crate::semantics::World;
use crate::tree::ArrayAccessor;
use crate::tree::InstanceIdentifier;
use crate::tree::Instruction;
use crate::tree::Node;
use crate::value::ValueModel;

verus! {

/// A run is decided by where it starts: two runs that do what one meaning
/// says, and in which the host has no say, end in the same game and frame
/// with the same result.
pub proof fn lemma_run_is_determined<T>(
    outcome: Outcome<T>,
    game1: GameModel,
    ctx1: ContextModel,
    result1: Result<T, ErrorModel>,
    game2: GameModel,
    ctx2: ContextModel,
    result2: Result<T, ErrorModel>,
)
    requires
        outcome is Done,
        agrees(outcome, game1, ctx1, result1),
        agrees(outcome, game2, ctx2, result2),
    ensures
        game1 == game2,
        ctx1 == ctx2,
        result1 == result2,
{
}

/// An index is taken exactly if it lies from 0 up to `ARRAY_LIMIT`, itself
/// excluded; any other is the error `InvalidArrayIndex` with that index. Of
/// a pair both parts are held to this, the first being checked first.
pub proof fn lemma_index_bounds(i: i32, j: i32)
    ensures
        0 <= i < ARRAY_LIMIT ==> index_of(i) == Ok::<u32, ErrorModel>(i as u32),
        !(0 <= i < ARRAY_LIMIT) ==> index_of(i) == Err::<u32, ErrorModel>(
            ErrorModel::InvalidArrayIndex(i),
        ),
        index_of_pair(i, j) is Ok <==> 0 <= i < ARRAY_LIMIT && 0 <= j < ARRAY_LIMIT,
        !(0 <= i < ARRAY_LIMIT) ==> index_of_pair(i, j) == Err::<u32, ErrorModel>(
            ErrorModel::InvalidArrayIndex(i),
        ),
        0 <= i < ARRAY_LIMIT && !(0 <= j < ARRAY_LIMIT) ==> index_of_pair(i, j) == Err::<
            u32,
            ErrorModel,
        >(ErrorModel::InvalidArrayIndex(j)),
{
}

/// A user variable that was never written reads, through whatever target,
/// as the game's setting says: as zero where unset variables are zero, and
/// as the error `UninitializedVariable` where they are not.
pub proof fn lemma_unwritten_field_follows_setting(
    game: GameModel,
    ctx: ContextModel,
    target: Target,
    field: usize,
    index: u32,
)
    requires
        forall|h: usize|
            h < game.instances.len() ==> lookup(
                (#[trigger] game.instances[h as int]).fields,
                field,
                index,
            ) is None,
        lookup(game.global_fields, field, index) is None,
        lookup(ctx.local_fields, field, index) is None,
    ensures
        game.status.uninit_fields_are_zero ==> read_field(game, ctx, target, field, index) == Ok::<
            ValueModel,
            ErrorModel,
        >(ValueModel::zero()),
        !game.status.uninit_fields_are_zero ==> read_field(game, ctx, target, field, index)
            == Err::<ValueModel, ErrorModel>(
            ErrorModel::UninitializedVariable(game.field_name(field), index),
        ),
{
    assert forall|h: usize| #[trigger]
        field_of(game, h, field, index) == unset(game, game.field_name(field), index) by {
        if h < game.instances.len() {
            assert(lookup(game.instances[h as int].fields, field, index) is None);
        }
    }
}

/// Iteration stops at the first instance from a place on that is active
/// and of the family, and at no other: none before it is one, and without
/// a stop there is none at all. As iteration goes on from the place after
/// each stop, it visits the instances it stops at in insertion order, each
/// once, and an instance that is no longer active when its turn comes is
/// passed over.
pub proof fn lemma_iteration_stops_at_first(
    list: Seq<InstanceModel>,
    pos: int,
    family: Option<Seq<i32>>,
)
    requires
        0 <= pos,
    ensures
        match next_selected(list, pos, family) {
            Some(h) => {
                &&& pos <= h < list.len()
                &&& selects(list[h].state, family)
                &&& forall|j: int| pos <= j < h ==> !selects(#[trigger] list[j].state, family)
            },
            None => forall|j: int|
                pos <= j < list.len() ==> !selects(#[trigger] list[j].state, family),
        },
    decreases list.len() - pos,
{
    if pos < list.len() && !selects(list[pos].state, family) {
        lemma_iteration_stops_at_first(list, pos + 1, family);
    }
}

/// Whatever a number names, after the body of a `with` has run for it
/// `self` and `other` are what the `with` was told to put back.
pub proof fn lemma_with_puts_back(
    w: World,
    this: usize,
    other: usize,
    id: i32,
    body: Seq<Instruction>,
    fuel: nat,
)
    ensures
        sem_with(w, this, other, id, body, fuel) matches Outcome::Done(after, _) ==> after.ctx.this
            == this && after.ctx.other == other,
{
}

/// After a `with`, however it ends, `self` and `other` are what they were
/// before it.
pub proof fn lemma_with_restores_scope(w: World, instr: Instruction, fuel: nat)
    requires
        instr is With,
    ensures
        sem_instr(w, instr, fuel) matches Outcome::Done(after, _) ==> after.ctx.this == w.ctx.this
            && after.ctx.other == w.ctx.other,
{
    if fuel > 0 {
        let f = (fuel - 1) as nat;
        match instr {
            Instruction::With { target, body } => {
                assert(sem_instr(w, instr, fuel) == sem_with_target(w, target, body@, f));
                match sem_eval(w, target, f) {
                    Outcome::Done(w1, Ok(v)) => {
                        lemma_with_puts_back(w1, w.ctx.this, w.ctx.other, v.to_i32(), body@, f);
                    },
                    _ => {},
                }
            },
            _ => {},
        }
    }
}

/// To find the instances that an owner names leaves the frame as it was.
pub proof fn lemma_target_keeps_frame(
    w: World,
    owner: InstanceIdentifier,
    in_globalvars: bool,
    fuel: nat,
)
    ensures
        sem_target(w, owner, in_globalvars, fuel) matches Outcome::Done(after, _) ==> after.ctx
            == w.ctx,
    decreases fuel, 1int, 0int,
{
    match owner {
        InstanceIdentifier::Expression(node) => {
            lemma_eval_keeps_frame(w, *node, fuel);
        },
        _ => {},
    }
}

/// To find the index that an accessor names leaves the frame as it was.
pub proof fn lemma_index_keeps_frame(w: World, array: ArrayAccessor, fuel: nat)
    ensures
        sem_index(w, array, fuel) matches Outcome::Done(after, _) ==> after.ctx == w.ctx,
    decreases fuel, 1int, 0int,
{
    match array {
        ArrayAccessor::NoIndex => {},
        ArrayAccessor::Single(node) => {
            lemma_eval_keeps_frame(w, *node, fuel);
        },
        ArrayAccessor::Double(first, second) => {
            lemma_eval_keeps_frame(w, *first, fuel);
            match sem_eval(w, *first, fuel) {
                Outcome::Done(w1, Ok(_)) => {
                    lemma_eval_keeps_frame(w1, *second, fuel);
                },
                _ => {},
            }
        },
    }
}

/// To evaluate the arguments of a call leaves the frame as it was.
pub proof fn lemma_args_keep_frame(
    w: World,
    args: Seq<Node>,
    from: int,
    done: Seq<ValueModel>,
    fuel: nat,
)
    ensures
        sem_args(w, args, from, done, fuel) matches Outcome::Done(after, _) ==> after.ctx == w.ctx,
    decreases fuel, 1int, args.len() - from,
{
    if 0 <= from < args.len() && from < crate::game::ARGUMENT_COUNT {
        lemma_eval_keeps_frame(w, args[from], fuel);
        match sem_eval(w, args[from], fuel) {
            Outcome::Done(w1, Ok(v)) => {
                lemma_args_keep_frame(w1, args, from + 1, done.push(v), fuel);
            },
            _ => {},
        }
    }
}

/// A call of a script leaves the frame of the caller as it was: the script
/// runs in a frame of its own, which starts without locals, and what the
/// script does to that frame the caller never sees.
pub proof fn lemma_script_keeps_frame(w: World, args: Seq<Node>, script_id: usize, fuel: nat)
    ensures
        sem_script(w, args, script_id, fuel) matches Outcome::Done(after, _) ==> after.ctx == w.ctx,
    decreases fuel, 2int, 0int,
{
    lemma_args_keep_frame(w, args, 0, Seq::empty(), fuel);
}

/// To read a user variable leaves the frame as it was.
pub proof fn lemma_field_keeps_frame(w: World, accessor: FieldAccessor, fuel: nat)
    ensures
        sem_field(w, accessor, fuel) matches Outcome::Done(after, _) ==> after.ctx == w.ctx,
    decreases fuel, 2int, 0int,
{
    let g = w.game.globalvars.contains(accessor.index);
    lemma_target_keeps_frame(w, accessor.owner, g, fuel);
    match sem_target(w, accessor.owner, g, fuel) {
        Outcome::Done(w1, Ok(_)) => {
            lemma_index_keeps_frame(w1, accessor.array, fuel);
        },
        _ => {},
    }
}

/// To read a built-in variable leaves the frame as it was.
pub proof fn lemma_variable_keeps_frame(w: World, accessor: VariableAccessor, fuel: nat)
    ensures
        sem_variable(w, accessor, fuel) matches Outcome::Done(after, _) ==> after.ctx == w.ctx,
    decreases fuel, 2int, 0int,
{
    lemma_target_keeps_frame(w, accessor.owner, false, fuel);
    match sem_target(w, accessor.owner, false, fuel) {
        Outcome::Done(w1, Ok(_)) => {
            lemma_index_keeps_frame(w1, accessor.array, fuel);
        },
        _ => {},
    }
}

/// To apply a binary operator leaves the frame as it was.
pub proof fn lemma_binary_keeps_frame(
    w: World,
    left: Node,
    right: Node,
    operator: BinaryOperator,
    fuel: nat,
)
    ensures
        sem_binary(w, left, right, operator, fuel) matches Outcome::Done(after, _) ==> after.ctx
            == w.ctx,
    decreases fuel, 1int, 0int,
{
    lemma_eval_keeps_frame(w, left, fuel);
    match sem_eval(w, left, fuel) {
        Outcome::Done(w1, Ok(_)) => {
            lemma_eval_keeps_frame(w1, right, fuel);
        },
        _ => {},
    }
}

/// To evaluate a node leaves the frame of the caller as it was: its locals,
/// its arguments, `self`, `other` and the value returned so far.
pub proof fn lemma_eval_keeps_frame(w: World, node: Node, fuel: nat)
    ensures
        sem_eval(w, node, fuel) matches Outcome::Done(after, _) ==> after.ctx == w.ctx,
    decreases fuel, 0int, 0int,
{
    if fuel > 0 {
        let f = (fuel - 1) as nat;
        match node {
            Node::Function { args, function } => {
                lemma_args_keep_frame(w, args@, 0, Seq::empty(), f);
            },
            Node::Script { args, script_id } => {
                lemma_script_keeps_frame(w, args@, script_id, f);
            },
            Node::Field { accessor } => {
                lemma_field_keeps_frame(w, accessor, f);
            },
            Node::Variable { accessor } => {
                lemma_variable_keeps_frame(w, accessor, f);
            },
            Node::Binary { left, right, operator } => {
                lemma_binary_keeps_frame(w, *left, *right, operator, f);
            },
            Node::Unary { child, operator } => {
                lemma_eval_keeps_frame(w, *child, f);
            },
            _ => {},
        }
    }
}

} // verus!
