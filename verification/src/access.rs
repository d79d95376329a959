//! Reading and writing variables through a target: one instance, the
//! instances of an object, all instances, the game or the running script.

use vstd::prelude::*;
use crate::error::Error;
use crate::error::ErrorModel;
use crate::error::plain_result;
use crate::error::value_result;
use crate::field::ARRAY_LIMIT;
use crate::game::values_view;
use crate::game::Context;
use crate::game::ContextModel;
use crate::game::Game;
use crate::game::GameModel;
use crate::game::Host;
use crate::game::ALL;
use crate::game::ARGUMENT_COUNT;
use crate::game::FIRST_INSTANCE_ID;
use crate::game::GLOBAL;
use crate::game::LOCAL;
use crate::game::OTHER;
use crate::game::SELF;
use crate::game::SELF2;
use crate::instance::family_view;
use crate::instance::NOONE;
use crate::semantics::agrees;
use crate::semantics::index_of;
use crate::semantics::index_of_pair;
use crate::semantics::padded;
use crate::semantics::read_field;
use crate::semantics::read_var;
use crate::semantics::target_of_id;
use crate::semantics::write_cell_each;
use crate::semantics::write_field;
use crate::semantics::write_var;
use crate::semantics::write_var_each;
use crate::semantics::Target;
use crate::semantics::World;
use crate::value::Value;
use crate::value::ValueModel;
use crate::variable::InstanceVariable;

verus! {

broadcast use vstd::std_specs::hash::group_hash_axioms;




/// The state that a game and a frame stand for together.
pub open spec fn world_of(game: GameModel, ctx: ContextModel) -> World {
    World { game, ctx }
}

/// The view of the values of arguments, or of the error that ended their
/// evaluation.
pub open spec fn values_result(r: Result<Vec<Value>, Error>) -> Result<Seq<ValueModel>, ErrorModel> {
    match r {
        Ok(v) => Ok(values_view(v@)),
        Err(e) => Err(e@),
    }
}

/// The index that a rounded value is: from 0 up to `ARRAY_LIMIT`, itself
/// excluded.
pub fn checked_index(i: i32) -> (r: Result<u32, Error>)
    ensures
        plain_result(r) == index_of(i),
        r is Ok <==> 0 <= i < ARRAY_LIMIT,
{
    if i < 0 || i >= ARRAY_LIMIT {
        Err(Error::InvalidArrayIndex(i))
    } else {
        Ok(i as u32)
    }
}

/// The index that two rounded values are together, each from 0 up to
/// `ARRAY_LIMIT`, itself excluded.
pub fn checked_index_pair(i: i32, j: i32) -> (r: Result<u32, Error>)
    ensures
        plain_result(r) == index_of_pair(i, j),
        r is Ok <==> 0 <= i < ARRAY_LIMIT && 0 <= j < ARRAY_LIMIT,
{
    if i < 0 || i >= ARRAY_LIMIT {
        Err(Error::InvalidArrayIndex(i))
    } else if j < 0 || j >= ARRAY_LIMIT {
        Err(Error::InvalidArrayIndex(j))
    } else {
        Ok((i * ARRAY_LIMIT + j) as u32)
    }
}

/// Fills a list of arguments up with zeros.
pub(crate) fn pad_arguments(values: Vec<Value>) -> (r: Vec<Value>)
    requires
        values@.len() <= ARGUMENT_COUNT,
    ensures
        values_view(r@) == padded(values_view(values@)),
{
    let mut r = values;
    while r.len() < ARGUMENT_COUNT
        invariant
            values@.len() <= r@.len() <= ARGUMENT_COUNT,
            forall|i: int| 0 <= i < values@.len() ==> r@[i]@ == values@[i]@,
            forall|i: int| values@.len() <= i < r@.len() ==> r@[i]@ == ValueModel::zero(),
        decreases ARGUMENT_COUNT - r.len(),
    {
        r.push(Value::zero());
    }
    assert(values_view(r@) =~= padded(values_view(values@)));
    r
}


impl Game {
    /// Where a number points that an expression gave for an owner.
    pub fn target_for_id(&self, context: &Context, id: i32) -> (t: Target)
        ensures
            t == target_of_id(self@, context@, id),
    {
        if id == SELF || id == SELF2 {
            Target::Single(Some(context.this))
        } else if id == OTHER {
            Target::Single(Some(context.other))
        } else if id == ALL {
            Target::All
        } else if id == NOONE {
            Target::Single(None)
        } else if id == GLOBAL {
            Target::Global
        } else if id == LOCAL {
            Target::Local
        } else if id >= FIRST_INSTANCE_ID {
            Target::Single(self.instance_list.get_by_instid(id))
        } else if id >= 0 {
            Target::Objects(id)
        } else {
            Target::Single(None)
        }
    }

    /// Reads a user variable through a target.
    pub fn read_field_at(&self, context: &Context, target: Target, field: usize, index: u32) -> (r:
        Result<Value, Error>)
        ensures
            value_result(r) == read_field(self@, context@, target, field, index),
    {
        match target {
            Target::Single(None) => self.unset_value(self.field_name(field), index),
            Target::Single(Some(h)) => self.get_instance_field(h, field, index),
            Target::Objects(class) => match self.assets.get_object_family(class) {
                Some(family) => match self.instance_list.first(Some(&family)) {
                    Some(h) => self.get_instance_field(h, field, index),
                    None => self.unset_value(self.field_name(field), index),
                },
                None => self.unset_value(self.field_name(field), index),
            },
            Target::All => match self.instance_list.first(None) {
                Some(h) => self.get_instance_field(h, field, index),
                None => self.unset_value(self.field_name(field), index),
            },
            Target::Global => match self.globals.fields.get(field, index) {
                Some(v) => Ok(v),
                None => self.unset_value(self.field_name(field), index),
            },
            Target::Local => match context.locals.fields.get(field, index) {
                Some(v) => Ok(v),
                None => self.unset_value(self.field_name(field), index),
            },
        }
    }

    /// Reads a built-in variable through a target.
    pub fn read_var_at<H: Host>(
        &mut self,
        host: &mut H,
        context: &Context,
        target: Target,
        var: &InstanceVariable,
        index: u32,
    ) -> (r: Result<Value, Error>)
        ensures
            read_var(old(self)@, context@, target, *var, index) matches Some(res) ==> final(self)@
                == old(self)@ && value_result(r) == res,
    {
        match target {
            Target::Single(None) => self.unset_value(String::from_str(var.name()), index),
            Target::Single(Some(h)) => self.get_instance_var(host, h, var, index, context),
            Target::Objects(class) => match self.assets.get_object_family(class) {
                Some(family) => match self.instance_list.first(Some(&family)) {
                    Some(h) => self.get_instance_var(host, h, var, index, context),
                    None => self.unset_value(String::from_str(var.name()), index),
                },
                None => self.unset_value(String::from_str(var.name()), index),
            },
            Target::All => match self.instance_list.first(None) {
                Some(h) => self.get_instance_var(host, h, var, index, context),
                None => self.unset_value(String::from_str(var.name()), index),
            },
            Target::Global => match self.globals.vars.get(var.code(), index) {
                Some(v) => Ok(v),
                None => self.unset_value(String::from_str(var.name()), index),
            },
            Target::Local => match context.locals.vars.get(var.code(), index) {
                Some(v) => Ok(v),
                None => self.unset_value(String::from_str(var.name()), index),
            },
        }
    }

    /// Writes a user variable in every instance that iteration over a family
    /// stops at.
    fn write_field_each(&mut self, family: Option<&Vec<i32>>, field: usize, index: u32, value: &Value)
        ensures
            final(self)@ == write_cell_each(
                old(self)@,
                0,
                family_view(family),
                field,
                index,
                value@,
            ),
    {
        let mut pos: usize = 0;
        loop
            invariant
                self@.instances.len() == old(self)@.instances.len(),
                write_cell_each(self@, pos as int, family_view(family), field, index, value@)
                    == write_cell_each(old(self)@, 0, family_view(family), field, index, value@),
            ensures
                self@ == write_cell_each(old(self)@, 0, family_view(family), field, index, value@),
            decreases self@.instances.len() - pos,
        {
            match self.instance_list.next(pos, family) {
                None => {
                    break ;
                },
                Some(h) => {
                    self.set_instance_field(h, field, index, value.duplicate());
                    pos = h + 1;
                },
            }
        }
    }

    /// Writes a user variable through a target.
    pub fn write_field_at(
        &mut self,
        context: &mut Context,
        target: Target,
        field: usize,
        index: u32,
        value: Value,
    )
        ensures
            world_of(final(self)@, final(context)@) == write_field(
                world_of(old(self)@, old(context)@),
                target,
                field,
                index,
                value@,
            ),
    {
        match target {
            Target::Single(None) => {},
            Target::Single(Some(h)) => {
                self.set_instance_field(h, field, index, value);
            },
            Target::Objects(class) => match self.assets.get_object_family(class) {
                Some(family) => {
                    self.write_field_each(Some(&family), field, index, &value);
                },
                None => {},
            },
            Target::All => {
                self.write_field_each(None, field, index, &value);
            },
            Target::Global => {
                self.globals.fields.set(field, index, value);
            },
            Target::Local => {
                context.locals.fields.set(field, index, value);
            },
        }
    }

    /// Assigns a built-in variable in every instance that iteration over a
    /// family stops at, up to the first error.
    fn write_var_each<H: Host>(
        &mut self,
        host: &mut H,
        context: &mut Context,
        family: Option<&Vec<i32>>,
        var: &InstanceVariable,
        index: u32,
        value: &Value,
        budget: u64,
    ) -> (r: Result<(), Error>)
        ensures
            agrees(
                write_var_each(
                    world_of(old(self)@, old(context)@),
                    0,
                    family_view(family),
                    *var,
                    index,
                    value@,
                    budget as nat,
                ),
                final(self)@,
                final(context)@,
                plain_result(r),
            ),
    {
        let ghost init = write_var_each(
            world_of(old(self)@, old(context)@),
            0,
            family_view(family),
            *var,
            index,
            value@,
            budget as nat,
        );
        let mut pos: usize = 0;
        let mut fuel: u64 = budget;
        loop
            invariant
                init == write_var_each(
                    world_of(old(self)@, old(context)@),
                    0,
                    family_view(family),
                    *var,
                    index,
                    value@,
                    budget as nat,
                ),
                init is Host || write_var_each(
                    world_of(self@, context@),
                    pos as int,
                    family_view(family),
                    *var,
                    index,
                    value@,
                    fuel as nat,
                ) == init,
            decreases fuel,
        {
            match self.instance_list.next(pos, family) {
                None => {
                    return Ok(());
                },
                Some(h) => {
                    if fuel == 0 {
                        return Err(Error::BudgetExhausted);
                    }
                    fuel = fuel - 1;
                    match self.set_instance_var(host, h, var, index, value.duplicate(), context, fuel) {
                        Ok(_) => {},
                        Err(e) => {
                            return Err(e);
                        },
                    }
                    pos = h + 1;
                },
            }
        }
    }

    /// Assigns a built-in variable through a target.
    pub fn write_var_at<H: Host>(
        &mut self,
        host: &mut H,
        context: &mut Context,
        target: Target,
        var: &InstanceVariable,
        index: u32,
        value: Value,
        budget: u64,
    ) -> (r: Result<(), Error>)
        ensures
            agrees(
                write_var(
                    world_of(old(self)@, old(context)@),
                    target,
                    *var,
                    index,
                    value@,
                    budget as nat,
                ),
                final(self)@,
                final(context)@,
                plain_result(r),
            ),
    {
        match target {
            Target::Single(None) => Ok(()),
            Target::Single(Some(h)) => self.set_instance_var(
                host,
                h,
                var,
                index,
                value,
                context,
                budget,
            ),
            Target::Objects(class) => match self.assets.get_object_family(class) {
                Some(family) => self.write_var_each(
                    host,
                    context,
                    Some(&family),
                    var,
                    index,
                    &value,
                    budget,
                ),
                None => Ok(()),
            },
            Target::All => self.write_var_each(host, context, None, var, index, &value, budget),
            Target::Global => {
                self.globals.vars.set(var.code(), index, value);
                Ok(())
            },
            Target::Local => {
                context.locals.vars.set(var.code(), index, value);
                Ok(())
            },
        }
    }
}

} // verus!
