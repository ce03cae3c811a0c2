//! Reading and writing a primitive parameter field that may be bound to a
//! recipe variable: a bound field reads and writes the variable, any other
//! field its own value.
use vstd::prelude::*;
use vstd::string::*;
use crate::name::name_rules;
use crate::primitive_value::{InvalidVariableName, PilatusPrimitiveValue, PilatusPrimitiveValueKind};
use crate::variables::{GetVariableError, VariableStore};

verus! {

/// What a read through a field gives, as a value.
pub enum LeafRead<T> {
    /// The field's own value.
    Local(T),
    /// The value of the variable the field is bound to.
    Variable(serde_json::Value),
    /// The field is bound to a variable that is not known.
    Missing,
}

/// What a read through `field` gives when the variables are `store`.
pub open spec fn leaf_read<T>(field: PilatusPrimitiveValue<T>, store: Map<Seq<char>, serde_json::Value>) -> LeafRead<T> {
    match field.spec_variable() {
        None => LeafRead::Local(field.spec_value()),
        Some(name) => if store.contains_key(name) {
            LeafRead::Variable(store[name])
        } else {
            LeafRead::Missing
        },
    }
}

/// Whether writing `value` (serialized as `serialized`) through the field
/// `before` over the variables `store_before` gives the field `after` and the
/// variables `store_after`: a bound field stays as it is and its variable
/// takes the serialized value, if there is one; any other field becomes the
/// explicit value `value` and the variables stay as they are.
pub open spec fn leaf_written<T>(
    before: PilatusPrimitiveValue<T>,
    after: PilatusPrimitiveValue<T>,
    store_before: Map<Seq<char>, serde_json::Value>,
    store_after: Map<Seq<char>, serde_json::Value>,
    value: T,
    serialized: Result<serde_json::Value, serde_json::Error>,
) -> bool {
    match before.spec_variable() {
        Some(name) => {
            &&& after == before
            &&& store_after == match serialized {
                Ok(json) => store_before.insert(name, json),
                Err(_) => store_before,
            }
        },
        None => {
            &&& after.spec_kind() == PilatusPrimitiveValueKind::Explicit
            &&& after.spec_value() == value
            &&& store_after == store_before
        },
    }
}

/// A read through a field, by reference.
#[derive(Debug)]
pub enum LeafValue<'a, T> {
    /// The field's own value.
    Local(&'a T),
    /// The value of the variable the field is bound to.
    Variable(&'a serde_json::Value),
}

/// Reads through a field: the value of the variable it is bound to, or its
/// own value; `NotFound` for a variable that is not known.
pub fn read_leaf<'a, T>(field: &'a PilatusPrimitiveValue<T>, store: &'a VariableStore) -> (r: Result<
    LeafValue<'a, T>,
    GetVariableError,
>)
    ensures
        match leaf_read(*field, store@) {
            LeafRead::Local(v) => r matches Ok(LeafValue::Local(x)) && *x == v,
            LeafRead::Variable(j) => r matches Ok(LeafValue::Variable(x)) && *x == j,
            LeafRead::Missing => r matches Err(GetVariableError::NotFound),
        },
{
    match field.variable() {
        None => Ok(LeafValue::Local(field.value())),
        Some(name) => match store.get_variable(name) {
            Ok(json) => Ok(LeafValue::Variable(json)),
            Err(e) => Err(e),
        },
    }
}

/// Writes through a field: a bound field's variable takes the serialized
/// value (if the value could be serialized); any other field becomes the
/// explicit value. The answer says whether anything was written.
pub fn write_leaf<T>(
    field: &mut PilatusPrimitiveValue<T>,
    store: &mut VariableStore,
    value: T,
    serialized: Result<serde_json::Value, serde_json::Error>,
) -> (r: bool)
    ensures
        leaf_written(*old(field), *final(field), old(store)@, final(store)@, value, serialized),
        r == (old(field).spec_variable() is None || serialized is Ok),
{
    match field.variable() {
        Some(name) => {
            let name = name.clone();
            store.set_variable(name, serialized)
        },
        None => {
            *field = PilatusPrimitiveValue::new(value);
            true
        },
    }
}

/// Binds a field to the variable `name`; a name that is no valid name is
/// refused with a message, and the field stays as it is.
pub fn convert_to_variable<T>(field: &mut PilatusPrimitiveValue<T>, name: &str) -> (r: Result<
    (),
    String,
>)
    ensures
        final(field).spec_value() == old(field).spec_value(),
        name_rules(name@) ==> r is Ok && final(field).spec_variable() == Some(name@),
        !name_rules(name@) ==> (r matches Err(m) && m@ == "Invalid variable name"@)
            && final(field).spec_kind() == old(field).spec_kind(),
{
    match field.set_kind_to_variable(name) {
        Ok(()) => Ok(()),
        Err(InvalidVariableName) => Err(String::from_str("Invalid variable name")),
    }
}

/// Unbinds a field: it becomes the explicit local value `value`.
pub fn convert_to_local<T>(field: &mut PilatusPrimitiveValue<T>, value: T)
    ensures
        final(field).spec_kind() == PilatusPrimitiveValueKind::Explicit,
        final(field).spec_value() == value,
{
    *field = PilatusPrimitiveValue::new(value);
}

/// A read through a field after a write through it gives back what was
/// written: the serialized value through a bound field, the value itself
/// through any other.
pub proof fn lemma_leaf_read_after_write<T>(
    before: PilatusPrimitiveValue<T>,
    after: PilatusPrimitiveValue<T>,
    store_before: Map<Seq<char>, serde_json::Value>,
    store_after: Map<Seq<char>, serde_json::Value>,
    value: T,
    json: serde_json::Value,
)
    requires
        leaf_written(before, after, store_before, store_after, value, Ok(json)),
    ensures
        leaf_read(after, store_after) == if before.spec_variable() is Some {
            LeafRead::Variable(json)
        } else {
            LeafRead::<T>::Local(value)
        },
{
}

/// A write through a field bound to one variable leaves every other variable
/// as it was.
pub proof fn lemma_leaf_write_keeps_other_variables<T>(
    before: PilatusPrimitiveValue<T>,
    after: PilatusPrimitiveValue<T>,
    store_before: Map<Seq<char>, serde_json::Value>,
    store_after: Map<Seq<char>, serde_json::Value>,
    value: T,
    serialized: Result<serde_json::Value, serde_json::Error>,
    other: Seq<char>,
)
    requires
        leaf_written(before, after, store_before, store_after, value, serialized),
        before.spec_variable() != Some(other),
    ensures
        store_after.contains_key(other) == store_before.contains_key(other),
        store_before.contains_key(other) ==> store_after[other] == store_before[other],
{
}

} // verus!
