//! The executor: it runs instructions as `semantics` says.

use vstd::prelude::*;
use crate::error::Error;
use crate::error::plain_result;
use crate::game::Context;
use crate::game::Game;
use crate::game::GameModel;
use crate::game::Host;
use crate::game::ALL;
use crate::game::FIRST_INSTANCE_ID;
use crate::game::OTHER;
use crate::game::SELF;
use crate::game::SELF2;
use crate::instance::family_view;
use crate::semantics::agrees;
use crate::semantics::declared;
use crate::semantics::sem_block;
use crate::semantics::sem_case;
use crate::semantics::sem_expression;
use crate::semantics::sem_if;
use crate::semantics::sem_repeat_count;
use crate::semantics::sem_set_field;
use crate::semantics::sem_set_variable;
use crate::semantics::sem_switch_on;
use crate::semantics::sem_with_target;
use crate::semantics::sem_for;
use crate::semantics::sem_instr;
use crate::semantics::sem_repeat;
use crate::semantics::sem_switch;
use crate::semantics::sem_until;
use crate::semantics::sem_while;
use crate::semantics::sem_with;
use crate::semantics::sem_with_each;
use crate::access::world_of;
use crate::tree::FieldAccessor;
use crate::tree::Instruction;
use crate::tree::Node;
use crate::tree::ReturnType;
use crate::tree::VariableAccessor;
use crate::value::Value;

verus! {

broadcast use vstd::std_specs::hash::group_hash_axioms;

impl Game {
    /// Runs a block of instructions in order, up to the first that does not
    /// end normally, and says how the block ended.
    pub fn execute<H: Host>(
        &mut self,
        host: &mut H,
        instructions: &Vec<Instruction>,
        context: &mut Context,
        budget: u64,
    ) -> (r: Result<ReturnType, Error>)
        ensures
            agrees(
                sem_block(world_of(old(self)@, old(context)@), instructions@, 0, budget as nat),
                final(self)@,
                final(context)@,
                plain_result(r),
            ),
        decreases budget, 1int, 1int,
    {
        self.execute_from(host, instructions, 0, context, budget)
    }

    /// Runs a block of instructions from a place on.
    pub fn execute_from<H: Host>(
        &mut self,
        host: &mut H,
        instructions: &Vec<Instruction>,
        start: usize,
        context: &mut Context,
        budget: u64,
    ) -> (r: Result<ReturnType, Error>)
        ensures
            agrees(
                sem_block(
                    world_of(old(self)@, old(context)@),
                    instructions@,
                    start as int,
                    budget as nat,
                ),
                final(self)@,
                final(context)@,
                plain_result(r),
            ),
        decreases budget, 1int, 0int,
    {
        let ghost init = sem_block(
            world_of(old(self)@, old(context)@),
            instructions@,
            start as int,
            budget as nat,
        );
        let mut i: usize = start;
        while i < instructions.len()
            invariant
                init == sem_block(
                    world_of(old(self)@, old(context)@),
                    instructions@,
                    start as int,
                    budget as nat,
                ),
                init is Host || sem_block(
                    world_of(self@, context@),
                    instructions@,
                    i as int,
                    budget as nat,
                ) == init,
            decreases instructions@.len() - i,
        {
            match self.exec_instruction(host, &instructions[i], context, budget) {
                Ok(ReturnType::Normal) => {},
                Ok(other) => {
                    return Ok(other);
                },
                Err(e) => {
                    return Err(e);
                },
            }
            i += 1;
        }
        Ok(ReturnType::Normal)
    }

    /// Runs one instruction. After a `with`, however it ends, `self` and
    /// `other` are what they were before it.
    pub fn exec_instruction<H: Host>(
        &mut self,
        host: &mut H,
        instruction: &Instruction,
        context: &mut Context,
        budget: u64,
    ) -> (r: Result<ReturnType, Error>)
        ensures
            agrees(
                sem_instr(world_of(old(self)@, old(context)@), *instruction, budget as nat),
                final(self)@,
                final(context)@,
                plain_result(r),
            ),
            instruction is With ==> final(context).this == old(context).this,
            instruction is With ==> final(context).other == old(context).other,
        decreases budget, 0int, 0int,
    {
        if budget == 0 {
            return Err(Error::BudgetExhausted);
        }
        let f: u64 = budget - 1;
        match instruction {
            Instruction::SetField { accessor, value } => self.run_set_field(
                host,
                accessor,
                value,
                context,
                f,
            ),
            Instruction::SetVariable { accessor, value } => self.run_set_variable(
                host,
                accessor,
                value,
                context,
                f,
            ),
            Instruction::EvalExpression { node } => self.run_expression(host, node, context, f),
            Instruction::SetReturnValue { value } => self.run_expression(host, value, context, f),
            Instruction::IfElse { cond, if_body, else_body } => self.run_if(
                host,
                cond,
                if_body,
                else_body,
                context,
                f,
            ),
            Instruction::LoopUntil { cond, body } => self.run_until(host, cond, body, context, f),
            Instruction::LoopWhile { cond, body } => self.run_while(host, cond, body, context, f),
            Instruction::LoopFor { cond, body, step } => self.run_for(
                host,
                cond,
                body,
                step,
                context,
                f,
            ),
            Instruction::Return { return_type } => Ok(*return_type),
            Instruction::Repeat { count, body } => self.run_repeat_count(
                host,
                count,
                body,
                context,
                f,
            ),
            Instruction::Switch { input, cases, default, body } => self.run_switch_on(
                host,
                input,
                cases,
                *default,
                body,
                context,
                f,
            ),
            Instruction::With { target, body } => self.run_with_target(
                host,
                target,
                body,
                context,
                f,
            ),
            Instruction::GlobalVar { fields } => {
                self.declare_global(fields);
                Ok(ReturnType::Normal)
            },
            Instruction::RuntimeError { error } => Err(error.duplicate()),
        }
    }

    /// Evaluates a node and keeps its value as the value returned so far.
    fn run_expression<H: Host>(
        &mut self,
        host: &mut H,
        node: &Node,
        context: &mut Context,
        budget: u64,
    ) -> (r: Result<ReturnType, Error>)
        ensures
            agrees(
                sem_expression(world_of(old(self)@, old(context)@), *node, budget as nat),
                final(self)@,
                final(context)@,
                plain_result(r),
            ),
        decreases budget, 2int, 0int,
    {
        match self.eval(host, node, context, budget) {
            Ok(v) => {
                context.return_value = v;
                Ok(ReturnType::Normal)
            },
            Err(e) => Err(e),
        }
    }

    /// Runs one of two blocks, as a condition says.
    fn run_if<H: Host>(
        &mut self,
        host: &mut H,
        cond: &Node,
        if_body: &Vec<Instruction>,
        else_body: &Vec<Instruction>,
        context: &mut Context,
        budget: u64,
    ) -> (r: Result<ReturnType, Error>)
        ensures
            agrees(
                sem_if(
                    world_of(old(self)@, old(context)@),
                    *cond,
                    if_body@,
                    else_body@,
                    budget as nat,
                ),
                final(self)@,
                final(context)@,
                plain_result(r),
            ),
        decreases budget, 2int, 0int,
    {
        match self.eval(host, cond, context, budget) {
            Ok(c) => {
                if c.is_truthy() {
                    self.execute(host, if_body, context, budget)
                } else {
                    self.execute(host, else_body, context, budget)
                }
            },
            Err(e) => Err(e),
        }
    }

    /// Evaluates a count and runs a body that many times.
    fn run_repeat_count<H: Host>(
        &mut self,
        host: &mut H,
        count: &Node,
        body: &Vec<Instruction>,
        context: &mut Context,
        budget: u64,
    ) -> (r: Result<ReturnType, Error>)
        ensures
            agrees(
                sem_repeat_count(world_of(old(self)@, old(context)@), *count, body@, budget as nat),
                final(self)@,
                final(context)@,
                plain_result(r),
            ),
        decreases budget, 3int, 0int,
    {
        match self.eval(host, count, context, budget) {
            Ok(n) => self.run_repeat(host, n.to_i32(), body, context, budget),
            Err(e) => Err(e),
        }
    }

    /// Evaluates the input of a `switch` and runs the case that it picks.
    fn run_switch_on<H: Host>(
        &mut self,
        host: &mut H,
        input: &Node,
        cases: &Vec<(Node, usize)>,
        default: Option<usize>,
        body: &Vec<Instruction>,
        context: &mut Context,
        budget: u64,
    ) -> (r: Result<ReturnType, Error>)
        ensures
            agrees(
                sem_switch_on(
                    world_of(old(self)@, old(context)@),
                    *input,
                    cases@,
                    default,
                    body@,
                    budget as nat,
                ),
                final(self)@,
                final(context)@,
                plain_result(r),
            ),
        decreases budget, 4int, 0int,
    {
        match self.eval(host, input, context, budget) {
            Ok(v) => self.run_switch(host, &v, cases, default, body, context, budget),
            Err(e) => Err(e),
        }
    }

    /// Evaluates the target of a `with` and runs the body for what it
    /// names. However that ends, `self` and `other` are afterwards what they
    /// were before.
    fn run_with_target<H: Host>(
        &mut self,
        host: &mut H,
        target: &Node,
        body: &Vec<Instruction>,
        context: &mut Context,
        budget: u64,
    ) -> (r: Result<ReturnType, Error>)
        ensures
            agrees(
                sem_with_target(world_of(old(self)@, old(context)@), *target, body@, budget as nat),
                final(self)@,
                final(context)@,
                plain_result(r),
            ),
            final(context).this == old(context).this,
            final(context).other == old(context).other,
        decreases budget, 4int, 0int,
    {
        let this = context.this;
        let other = context.other;
        match self.eval(host, target, context, budget) {
            Ok(v) => self.run_with(host, this, other, v.to_i32(), body, context, budget),
            Err(e) => {
                context.this = this;
                context.other = other;
                Err(e)
            },
        }
    }

    /// Declares field ids global.
    pub fn declare_global(&mut self, fields: &Vec<usize>)
        ensures
            final(self)@ == (GameModel {
                globalvars: declared(old(self)@.globalvars, fields@),
                ..old(self)@
            }),
    {
        let mut i: usize = 0;
        while i < fields.len()
            invariant
                i <= fields@.len(),
                self@ == (GameModel { globalvars: self@.globalvars, ..old(self)@ }),
                forall|f: usize|
                    self@.globalvars.contains(f) <==> old(self)@.globalvars.contains(f) || exists|
                        j: int,
                    |
                        0 <= j < i && fields@[j] == f,
            decreases fields@.len() - i,
        {
            self.globalvars.insert(fields[i]);
            i += 1;
        }
        assert(self@.globalvars =~= declared(old(self)@.globalvars, fields@));
    }

    /// Assigns a user variable.
    fn run_set_field<H: Host>(
        &mut self,
        host: &mut H,
        accessor: &FieldAccessor,
        value: &Node,
        context: &mut Context,
        budget: u64,
    ) -> (r: Result<ReturnType, Error>)
        ensures
            agrees(
                sem_set_field(world_of(old(self)@, old(context)@), *accessor, *value, budget as nat),
                final(self)@,
                final(context)@,
                plain_result(r),
            ),
        decreases budget, 2int, 0int,
    {
        let in_globalvars = self.globalvars.contains(&accessor.index);
        let target = match self.get_target(host, context, &accessor.owner, in_globalvars, budget) {
            Ok(t) => t,
            Err(e) => {
                return Err(e);
            },
        };
        let index = match self.get_array_index(host, &accessor.array, context, budget) {
            Ok(i) => i,
            Err(e) => {
                return Err(e);
            },
        };
        let v = match self.eval(host, value, context, budget) {
            Ok(v) => v,
            Err(e) => {
                return Err(e);
            },
        };
        context.return_value = v.duplicate();
        self.write_field_at(context, target, accessor.index, index, v);
        Ok(ReturnType::Normal)
    }

    /// Assigns a built-in variable.
    fn run_set_variable<H: Host>(
        &mut self,
        host: &mut H,
        accessor: &VariableAccessor,
        value: &Node,
        context: &mut Context,
        budget: u64,
    ) -> (r: Result<ReturnType, Error>)
        ensures
            agrees(
                sem_set_variable(world_of(old(self)@, old(context)@), *accessor, *value, budget as nat),
                final(self)@,
                final(context)@,
                plain_result(r),
            ),
        decreases budget, 2int, 0int,
    {
        let target = match self.get_target(host, context, &accessor.owner, false, budget) {
            Ok(t) => t,
            Err(e) => {
                return Err(e);
            },
        };
        let index = match self.get_array_index(host, &accessor.array, context, budget) {
            Ok(i) => i,
            Err(e) => {
                return Err(e);
            },
        };
        let v = match self.eval(host, value, context, budget) {
            Ok(v) => v,
            Err(e) => {
                return Err(e);
            },
        };
        context.return_value = v.duplicate();
        match self.write_var_at(host, context, target, &accessor.var, index, v, budget) {
            Ok(_) => Ok(ReturnType::Normal),
            Err(e) => Err(e),
        }
    }

    /// Runs `do body until cond`.
    pub fn run_until<H: Host>(
        &mut self,
        host: &mut H,
        cond: &Node,
        body: &Vec<Instruction>,
        context: &mut Context,
        budget: u64,
    ) -> (r: Result<ReturnType, Error>)
        ensures
            agrees(
                sem_until(world_of(old(self)@, old(context)@), *cond, body@, budget as nat),
                final(self)@,
                final(context)@,
                plain_result(r),
            ),
        decreases budget, 2int, 0int,
    {
        let ghost init = sem_until(
            world_of(old(self)@, old(context)@),
            *cond,
            body@,
            budget as nat,
        );
        let mut fuel: u64 = budget;
        loop
            invariant
                init == sem_until(
                    world_of(old(self)@, old(context)@),
                    *cond,
                    body@,
                    budget as nat,
                ),
                fuel <= budget,
                init is Host || sem_until(world_of(self@, context@), *cond, body@, fuel as nat)
                    == init,
            decreases fuel,
        {
            if fuel == 0 {
                return Err(Error::BudgetExhausted);
            }
            fuel = fuel - 1;
            match self.execute(host, body, context, fuel) {
                Ok(ReturnType::Normal) => {
                    match self.eval(host, cond, context, fuel) {
                        Ok(c) => {
                            if c.is_truthy() {
                                return Ok(ReturnType::Normal);
                            }
                        },
                        Err(e) => {
                            return Err(e);
                        },
                    }
                },
                Ok(ReturnType::Continue) => {},
                Ok(ReturnType::Break) => {
                    return Ok(ReturnType::Normal);
                },
                Ok(ReturnType::Exit) => {
                    return Ok(ReturnType::Exit);
                },
                Err(e) => {
                    return Err(e);
                },
            }
        }
    }

    /// Runs `while cond body`.
    pub fn run_while<H: Host>(
        &mut self,
        host: &mut H,
        cond: &Node,
        body: &Vec<Instruction>,
        context: &mut Context,
        budget: u64,
    ) -> (r: Result<ReturnType, Error>)
        ensures
            agrees(
                sem_while(world_of(old(self)@, old(context)@), *cond, body@, budget as nat),
                final(self)@,
                final(context)@,
                plain_result(r),
            ),
        decreases budget, 2int, 0int,
    {
        let ghost init = sem_while(
            world_of(old(self)@, old(context)@),
            *cond,
            body@,
            budget as nat,
        );
        let mut fuel: u64 = budget;
        loop
            invariant
                init == sem_while(
                    world_of(old(self)@, old(context)@),
                    *cond,
                    body@,
                    budget as nat,
                ),
                fuel <= budget,
                init is Host || sem_while(world_of(self@, context@), *cond, body@, fuel as nat)
                    == init,
            decreases fuel,
        {
            if fuel == 0 {
                return Err(Error::BudgetExhausted);
            }
            fuel = fuel - 1;
            match self.eval(host, cond, context, fuel) {
                Ok(c) => {
                    if !c.is_truthy() {
                        return Ok(ReturnType::Normal);
                    }
                },
                Err(e) => {
                    return Err(e);
                },
            }
            match self.execute(host, body, context, fuel) {
                Ok(ReturnType::Normal) | Ok(ReturnType::Continue) => {},
                Ok(ReturnType::Break) => {
                    return Ok(ReturnType::Normal);
                },
                Ok(ReturnType::Exit) => {
                    return Ok(ReturnType::Exit);
                },
                Err(e) => {
                    return Err(e);
                },
            }
        }
    }

    /// Runs `for (; cond; step) body`.
    pub fn run_for<H: Host>(
        &mut self,
        host: &mut H,
        cond: &Node,
        body: &Vec<Instruction>,
        step: &Vec<Instruction>,
        context: &mut Context,
        budget: u64,
    ) -> (r: Result<ReturnType, Error>)
        ensures
            agrees(
                sem_for(world_of(old(self)@, old(context)@), *cond, body@, step@, budget as nat),
                final(self)@,
                final(context)@,
                plain_result(r),
            ),
        decreases budget, 2int, 0int,
    {
        let ghost init = sem_for(
            world_of(old(self)@, old(context)@),
            *cond,
            body@,
            step@,
            budget as nat,
        );
        let mut fuel: u64 = budget;
        loop
            invariant
                init == sem_for(
                    world_of(old(self)@, old(context)@),
                    *cond,
                    body@,
                    step@,
                    budget as nat,
                ),
                fuel <= budget,
                init is Host || sem_for(
                    world_of(self@, context@),
                    *cond,
                    body@,
                    step@,
                    fuel as nat,
                ) == init,
            decreases fuel,
        {
            if fuel == 0 {
                return Err(Error::BudgetExhausted);
            }
            fuel = fuel - 1;
            match self.eval(host, cond, context, fuel) {
                Ok(c) => {
                    if !c.is_truthy() {
                        return Ok(ReturnType::Normal);
                    }
                },
                Err(e) => {
                    return Err(e);
                },
            }
            match self.execute(host, body, context, fuel) {
                Ok(ReturnType::Normal) | Ok(ReturnType::Continue) => {
                    match self.execute(host, step, context, fuel) {
                        Ok(_) => {},
                        Err(e) => {
                            return Err(e);
                        },
                    }
                },
                Ok(ReturnType::Break) => {
                    return Ok(ReturnType::Normal);
                },
                Ok(ReturnType::Exit) => {
                    return Ok(ReturnType::Exit);
                },
                Err(e) => {
                    return Err(e);
                },
            }
        }
    }

    /// Runs a body a number of times.
    pub fn run_repeat<H: Host>(
        &mut self,
        host: &mut H,
        times: i32,
        body: &Vec<Instruction>,
        context: &mut Context,
        budget: u64,
    ) -> (r: Result<ReturnType, Error>)
        ensures
            agrees(
                sem_repeat(world_of(old(self)@, old(context)@), times, body@, budget as nat),
                final(self)@,
                final(context)@,
                plain_result(r),
            ),
        decreases budget, 2int, 0int,
    {
        let ghost init = sem_repeat(
            world_of(old(self)@, old(context)@),
            times,
            body@,
            budget as nat,
        );
        let mut fuel: u64 = budget;
        let mut left: i32 = times;
        loop
            invariant
                init == sem_repeat(
                    world_of(old(self)@, old(context)@),
                    times,
                    body@,
                    budget as nat,
                ),
                fuel <= budget,
                init is Host || sem_repeat(world_of(self@, context@), left, body@, fuel as nat)
                    == init,
            decreases fuel,
        {
            if left <= 0 {
                return Ok(ReturnType::Normal);
            }
            if fuel == 0 {
                return Err(Error::BudgetExhausted);
            }
            fuel = fuel - 1;
            match self.execute(host, body, context, fuel) {
                Ok(ReturnType::Normal) | Ok(ReturnType::Continue) => {},
                Ok(ReturnType::Break) => {
                    return Ok(ReturnType::Normal);
                },
                Ok(ReturnType::Exit) => {
                    return Ok(ReturnType::Exit);
                },
                Err(e) => {
                    return Err(e);
                },
            }
            left = left - 1;
        }
    }

    /// Runs the body of a `switch` from a place on.
    pub fn run_case<H: Host>(
        &mut self,
        host: &mut H,
        body: &Vec<Instruction>,
        start: usize,
        context: &mut Context,
        budget: u64,
    ) -> (r: Result<ReturnType, Error>)
        ensures
            agrees(
                sem_case(world_of(old(self)@, old(context)@), body@, start, budget as nat),
                final(self)@,
                final(context)@,
                plain_result(r),
            ),
        decreases budget, 2int, 0int,
    {
        match self.execute_from(host, body, start, context, budget) {
            Ok(ReturnType::Break) => Ok(ReturnType::Normal),
            other => other,
        }
    }

    /// Picks the case of a `switch` and runs the body from there.
    pub fn run_switch<H: Host>(
        &mut self,
        host: &mut H,
        input: &Value,
        cases: &Vec<(Node, usize)>,
        default: Option<usize>,
        body: &Vec<Instruction>,
        context: &mut Context,
        budget: u64,
    ) -> (r: Result<ReturnType, Error>)
        ensures
            agrees(
                sem_switch(
                    world_of(old(self)@, old(context)@),
                    input@,
                    cases@,
                    0,
                    default,
                    body@,
                    budget as nat,
                ),
                final(self)@,
                final(context)@,
                plain_result(r),
            ),
        decreases budget, 3int, 0int,
    {
        let ghost init = sem_switch(
            world_of(old(self)@, old(context)@),
            input@,
            cases@,
            0,
            default,
            body@,
            budget as nat,
        );
        let mut i: usize = 0;
        while i < cases.len()
            invariant
                init == sem_switch(
                    world_of(old(self)@, old(context)@),
                    input@,
                    cases@,
                    0,
                    default,
                    body@,
                    budget as nat,
                ),
                init is Host || sem_switch(
                    world_of(self@, context@),
                    input@,
                    cases@,
                    i as int,
                    default,
                    body@,
                    budget as nat,
                ) == init,
            decreases cases@.len() - i,
        {
            match self.eval(host, &cases[i].0, context, budget) {
                Ok(v) => {
                    if v.almost_equals(input) {
                        return self.run_case(host, body, cases[i].1, context, budget);
                    }
                },
                Err(e) => {
                    return Err(e);
                },
            }
            i += 1;
        }
        match default {
            Some(start) => self.run_case(host, body, start, context, budget),
            None => Ok(ReturnType::Normal),
        }
    }

    /// Runs the body of a `with` for every instance that iteration over a
    /// family stops at.
    pub fn run_with_each<H: Host>(
        &mut self,
        host: &mut H,
        family: Option<&Vec<i32>>,
        body: &Vec<Instruction>,
        context: &mut Context,
        budget: u64,
    ) -> (r: Result<ReturnType, Error>)
        ensures
            agrees(
                sem_with_each(
                    world_of(old(self)@, old(context)@),
                    0,
                    family_view(family),
                    body@,
                    budget as nat,
                ),
                final(self)@,
                final(context)@,
                plain_result(r),
            ),
        decreases budget, 2int, 0int,
    {
        let ghost init = sem_with_each(
            world_of(old(self)@, old(context)@),
            0,
            family_view(family),
            body@,
            budget as nat,
        );
        let mut fuel: u64 = budget;
        let mut pos: usize = 0;
        loop
            invariant
                init == sem_with_each(
                    world_of(old(self)@, old(context)@),
                    0,
                    family_view(family),
                    body@,
                    budget as nat,
                ),
                fuel <= budget,
                init is Host || sem_with_each(
                    world_of(self@, context@),
                    pos as int,
                    family_view(family),
                    body@,
                    fuel as nat,
                ) == init,
            decreases fuel,
        {
            let h = match self.instance_list.next(pos, family) {
                Some(h) => h,
                None => {
                    return Ok(ReturnType::Normal);
                },
            };
            if fuel == 0 {
                return Err(Error::BudgetExhausted);
            }
            fuel = fuel - 1;
            context.this = h;
            match self.execute(host, body, context, fuel) {
                Ok(ReturnType::Normal) | Ok(ReturnType::Continue) => {},
                Ok(ReturnType::Break) => {
                    return Ok(ReturnType::Normal);
                },
                Ok(ReturnType::Exit) => {
                    return Ok(ReturnType::Exit);
                },
                Err(e) => {
                    return Err(e);
                },
            }
            pos = h + 1;
        }
    }

    /// Runs the body of a `with` once and says whether the script is to go
    /// on after the `with`.
    pub fn run_with_once<H: Host>(
        &mut self,
        host: &mut H,
        body: &Vec<Instruction>,
        context: &mut Context,
        budget: u64,
    ) -> (r: Result<ReturnType, Error>)
        ensures
            agrees(
                crate::semantics::settled_outcome(
                    sem_block(world_of(old(self)@, old(context)@), body@, 0, budget as nat),
                ),
                final(self)@,
                final(context)@,
                plain_result(r),
            ),
        decreases budget, 2int, 0int,
    {
        match self.execute(host, body, context, budget) {
            Ok(ReturnType::Exit) => Ok(ReturnType::Exit),
            Ok(_) => Ok(ReturnType::Normal),
            Err(e) => Err(e),
        }
    }

    /// Runs the body of a `with` for what a number names, and puts `self`
    /// and `other` back to what the caller hands in.
    pub fn run_with<H: Host>(
        &mut self,
        host: &mut H,
        this: usize,
        other: usize,
        id: i32,
        body: &Vec<Instruction>,
        context: &mut Context,
        budget: u64,
    ) -> (r: Result<ReturnType, Error>)
        ensures
            agrees(
                sem_with(world_of(old(self)@, old(context)@), this, other, id, body@, budget as nat),
                final(self)@,
                final(context)@,
                plain_result(r),
            ),
            final(context).this == this,
            final(context).other == other,
        decreases budget, 3int, 0int,
    {
        context.other = context.this;
        let r = if id == SELF || id == SELF2 {
            self.run_with_once(host, body, context, budget)
        } else if id == OTHER {
            context.this = other;
            self.run_with_once(host, body, context, budget)
        } else if id == ALL {
            self.run_with_each(host, None, body, context, budget)
        } else if id < 0 {
            Ok(ReturnType::Normal)
        } else if id < FIRST_INSTANCE_ID {
            match self.assets.get_object_family(id) {
                Some(family) => self.run_with_each(host, Some(&family), body, context, budget),
                None => Ok(ReturnType::Normal),
            }
        } else {
            match self.instance_list.get_by_instid(id) {
                Some(h) => {
                    context.this = h;
                    self.run_with_once(host, body, context, budget)
                },
                None => Ok(ReturnType::Normal),
            }
        };
        context.this = this;
        context.other = other;
        r
    }
}

} // verus!
