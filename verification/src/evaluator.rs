//! The evaluator: it computes the value of a node as `semantics` says.

use vstd::prelude::*;
use crate::error::AssetType;
use crate::error::Error;
use crate::error::plain_result;
use crate::error::value_result;
use crate::game::values_view;
use crate::game::Context;
use crate::game::Game;
use crate::game::Host;
use crate::game::Scope;
use crate::game::ARGUMENT_COUNT;
use crate::semantics::agrees;
use crate::semantics::sem_args;
use crate::semantics::sem_eval;
use crate::semantics::sem_binary;
use crate::semantics::sem_field;
use crate::semantics::sem_function;
use crate::semantics::sem_script;
use crate::semantics::sem_unary;
use crate::semantics::sem_variable;
use crate::operator::BinaryOperator;
use crate::operator::UnaryOperator;
use crate::semantics::sem_index;
use crate::semantics::sem_target;
use crate::semantics::Target;
use crate::access::pad_arguments;
use crate::access::checked_index;
use crate::access::checked_index_pair;
use crate::access::world_of;
use crate::access::values_result;
use crate::tree::ArrayAccessor;
use crate::tree::FieldAccessor;
use crate::tree::InstanceIdentifier;
use crate::tree::Node;
use crate::tree::VariableAccessor;
use crate::value::Value;
use crate::value::ValueModel;

verus! {

broadcast use vstd::std_specs::hash::group_hash_axioms;

impl Game {
    /// Finds the instances that an owner names.
    pub fn get_target<H: Host>(
        &mut self,
        host: &mut H,
        context: &mut Context,
        identifier: &InstanceIdentifier,
        in_globalvars: bool,
        budget: u64,
    ) -> (r: Result<Target, Error>)
        ensures
            agrees(
                sem_target(
                    world_of(old(self)@, old(context)@),
                    *identifier,
                    in_globalvars,
                    budget as nat,
                ),
                final(self)@,
                final(context)@,
                plain_result(r),
            ),
        decreases budget, 1int, 0int,
    {
        match identifier {
            InstanceIdentifier::Own => Ok(Target::Single(Some(context.this))),
            InstanceIdentifier::Other => Ok(Target::Single(Some(context.other))),
            InstanceIdentifier::Global => Ok(Target::Global),
            InstanceIdentifier::Local => Ok(Target::Local),
            InstanceIdentifier::Unknown => {
                if in_globalvars {
                    Ok(Target::Global)
                } else {
                    Ok(Target::Single(Some(context.this)))
                }
            },
            InstanceIdentifier::Expression(node) => match self.eval(host, node, context, budget) {
                Ok(v) => Ok(self.target_for_id(context, v.to_i32())),
                Err(e) => Err(e),
            },
        }
    }

    /// Finds the index that an accessor names.
    pub fn get_array_index<H: Host>(
        &mut self,
        host: &mut H,
        accessor: &ArrayAccessor,
        context: &mut Context,
        budget: u64,
    ) -> (r: Result<u32, Error>)
        ensures
            agrees(
                sem_index(world_of(old(self)@, old(context)@), *accessor, budget as nat),
                final(self)@,
                final(context)@,
                plain_result(r),
            ),
        decreases budget, 1int, 0int,
    {
        match accessor {
            ArrayAccessor::NoIndex => Ok(0),
            ArrayAccessor::Single(node) => match self.eval(host, node, context, budget) {
                Ok(v) => checked_index(v.to_i32()),
                Err(e) => Err(e),
            },
            ArrayAccessor::Double(first, second) => match self.eval(host, first, context, budget) {
                Ok(v1) => match self.eval(host, second, context, budget) {
                    Ok(v2) => checked_index_pair(v1.to_i32(), v2.to_i32()),
                    Err(e) => Err(e),
                },
                Err(e) => Err(e),
            },
        }
    }

    /// Evaluates the arguments of a call in order, at most `ARGUMENT_COUNT`
    /// of them.
    fn eval_args<H: Host>(
        &mut self,
        host: &mut H,
        args: &Vec<Node>,
        context: &mut Context,
        budget: u64,
    ) -> (r: Result<Vec<Value>, Error>)
        ensures
            agrees(
                sem_args(
                    world_of(old(self)@, old(context)@),
                    args@,
                    0,
                    Seq::empty(),
                    budget as nat,
                ),
                final(self)@,
                final(context)@,
                values_result(r),
            ),
            r matches Ok(v) ==> v@.len() <= ARGUMENT_COUNT && v@.len() <= args@.len(),
        decreases budget, 1int, 0int,
    {
        let ghost init = sem_args(
            world_of(old(self)@, old(context)@),
            args@,
            0,
            Seq::empty(),
            budget as nat,
        );
        let mut values: Vec<Value> = Vec::new();
        let mut i: usize = 0;
        assert(values_view(values@) =~= Seq::<ValueModel>::empty());
        while i < args.len() && i < ARGUMENT_COUNT
            invariant
                init == sem_args(
                    world_of(old(self)@, old(context)@),
                    args@,
                    0,
                    Seq::empty(),
                    budget as nat,
                ),
                i <= args@.len(),
                i <= ARGUMENT_COUNT,
                values@.len() == i,
                init is Host || sem_args(
                    world_of(self@, context@),
                    args@,
                    i as int,
                    values_view(values@),
                    budget as nat,
                ) == init,
            decreases args@.len() - i,
        {
            let ghost before = values_view(values@);
            match self.eval(host, &args[i], context, budget) {
                Ok(v) => {
                    let ghost model = v@;
                    values.push(v);
                    assert(values_view(values@) =~= before.push(model));
                },
                Err(e) => {
                    return Err(e);
                },
            }
            i += 1;
        }
        Ok(values)
    }

    /// Evaluates a node.
    pub fn eval<H: Host>(&mut self, host: &mut H, node: &Node, context: &mut Context, budget: u64)
        -> (r: Result<Value, Error>)
        ensures
            agrees(
                sem_eval(world_of(old(self)@, old(context)@), *node, budget as nat),
                final(self)@,
                final(context)@,
                value_result(r),
            ),
        decreases budget, 0int, 0int,
    {
        if budget == 0 {
            return Err(Error::BudgetExhausted);
        }
        let f: u64 = budget - 1;
        match node {
            Node::Literal { value } => Ok(value.duplicate()),
            Node::Constant { constant_id } => {
                if *constant_id < self.constants.len() {
                    Ok(self.constants[*constant_id].duplicate())
                } else {
                    Err(Error::NonexistentAsset(AssetType::Constant, *constant_id as i32))
                }
            },
            Node::Function { args, function } => self.eval_function(host, args, *function, context, f),
            Node::Script { args, script_id } => self.call_script(host, args, *script_id, context, f),
            Node::Field { accessor } => self.eval_field(host, accessor, context, f),
            Node::Variable { accessor } => self.eval_variable(host, accessor, context, f),
            Node::Binary { left, right, operator } => self.eval_binary(
                host,
                left,
                right,
                *operator,
                context,
                f,
            ),
            Node::Unary { child, operator } => self.eval_unary(host, child, *operator, context, f),
            Node::RuntimeError { error } => Err(error.duplicate()),
        }
    }

    /// Calls a built-in function: evaluates the arguments and hands them to
    /// the host.
    fn eval_function<H: Host>(
        &mut self,
        host: &mut H,
        args: &Vec<Node>,
        function: usize,
        context: &mut Context,
        budget: u64,
    ) -> (r: Result<Value, Error>)
        ensures
            agrees(
                sem_function(world_of(old(self)@, old(context)@), args@, budget as nat),
                final(self)@,
                final(context)@,
                value_result(r),
            ),
        decreases budget, 2int, 0int,
    {
        match self.eval_args(host, args, context, budget) {
            Ok(values) => host.call_function(self, context, function, &values, budget),
            Err(e) => Err(e),
        }
    }

    /// Applies a binary operator to the values of two nodes.
    fn eval_binary<H: Host>(
        &mut self,
        host: &mut H,
        left: &Node,
        right: &Node,
        operator: BinaryOperator,
        context: &mut Context,
        budget: u64,
    ) -> (r: Result<Value, Error>)
        ensures
            agrees(
                sem_binary(
                    world_of(old(self)@, old(context)@),
                    *left,
                    *right,
                    operator,
                    budget as nat,
                ),
                final(self)@,
                final(context)@,
                value_result(r),
            ),
        decreases budget, 1int, 0int,
    {
        match self.eval(host, left, context, budget) {
            Ok(a) => match self.eval(host, right, context, budget) {
                Ok(b) => operator.call(a, b),
                Err(e) => Err(e),
            },
            Err(e) => Err(e),
        }
    }

    /// Applies a unary operator to the value of a node.
    fn eval_unary<H: Host>(
        &mut self,
        host: &mut H,
        child: &Node,
        operator: UnaryOperator,
        context: &mut Context,
        budget: u64,
    ) -> (r: Result<Value, Error>)
        ensures
            agrees(
                sem_unary(world_of(old(self)@, old(context)@), *child, operator, budget as nat),
                final(self)@,
                final(context)@,
                value_result(r),
            ),
        decreases budget, 1int, 0int,
    {
        match self.eval(host, child, context, budget) {
            Ok(a) => operator.call(a),
            Err(e) => Err(e),
        }
    }

    /// Calls a script: evaluates the arguments, runs the code of the script
    /// in a frame of its own, and gives what the script returned.
    fn call_script<H: Host>(
        &mut self,
        host: &mut H,
        args: &Vec<Node>,
        script_id: usize,
        context: &mut Context,
        budget: u64,
    ) -> (r: Result<Value, Error>)
        ensures
            agrees(
                sem_script(world_of(old(self)@, old(context)@), args@, script_id, budget as nat),
                final(self)@,
                final(context)@,
                value_result(r),
            ),
        decreases budget, 2int, 0int,
    {
        let code = match self.assets.get_script_code(script_id) {
            Some(c) => c,
            None => {
                return Err(Error::NonexistentAsset(AssetType::Script, script_id as i32));
            },
        };
        let values = match self.eval_args(host, args, context, budget) {
            Ok(v) => v,
            Err(e) => {
                return Err(e);
            },
        };
        let mut callee = Context {
            this: context.this,
            other: context.other,
            event_action: context.event_action,
            relative: context.relative,
            event_type: context.event_type,
            event_number: context.event_number,
            event_object: context.event_object,
            arguments: pad_arguments(values),
            argument_count: args.len(),
            locals: Scope::new(),
            return_value: Value::zero(),
        };
        match self.execute(host, &code, &mut callee, budget) {
            Ok(_) => Ok(callee.return_value),
            Err(e) => Err(e),
        }
    }

    /// Reads the user variable that an accessor names.
    fn eval_field<H: Host>(
        &mut self,
        host: &mut H,
        accessor: &FieldAccessor,
        context: &mut Context,
        budget: u64,
    ) -> (r: Result<Value, Error>)
        ensures
            agrees(
                sem_field(world_of(old(self)@, old(context)@), *accessor, budget as nat),
                final(self)@,
                final(context)@,
                value_result(r),
            ),
        decreases budget, 2int, 0int,
    {
        let in_globalvars = self.globalvars.contains(&accessor.index);
        let target = match self.get_target(host, context, &accessor.owner, in_globalvars, budget) {
            Ok(t) => t,
            Err(e) => {
                return Err(e);
            },
        };
        let index = match self.get_array_index(host, &accessor.array, context, budget) {
            Ok(i) => i,
            Err(e) => {
                return Err(e);
            },
        };
        self.read_field_at(context, target, accessor.index, index)
    }

    /// Reads the built-in variable that an accessor names.
    fn eval_variable<H: Host>(
        &mut self,
        host: &mut H,
        accessor: &VariableAccessor,
        context: &mut Context,
        budget: u64,
    ) -> (r: Result<Value, Error>)
        ensures
            agrees(
                sem_variable(world_of(old(self)@, old(context)@), *accessor, budget as nat),
                final(self)@,
                final(context)@,
                value_result(r),
            ),
        decreases budget, 2int, 0int,
    {
        let target = match self.get_target(host, context, &accessor.owner, false, budget) {
            Ok(t) => t,
            Err(e) => {
                return Err(e);
            },
        };
        let index = match self.get_array_index(host, &accessor.array, context, budget) {
            Ok(i) => i,
            Err(e) => {
                return Err(e);
            },
        };
        self.read_var_at(host, context, target, &accessor.var, index)
    }
}

} // verus!
