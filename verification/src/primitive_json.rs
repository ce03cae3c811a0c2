//! Reading a primitive parameter from the JSON the server sends: a reference
//! `{"__var": name}` binds it to a recipe variable and reads that variable's
//! value; anything else is the parameter's own explicit value.
use vstd::prelude::*;
use crate::name::name_rules;
use crate::primitive_value::{PilatusPrimitiveValue, PilatusPrimitiveValueKind, SerializedForm};
use crate::variables::{GetVariableError, VariableStore};

verus! {

/// Why a primitive parameter could not be read.
#[derive(Debug)]
pub enum PrimitiveReadError<E> {
    /// The reference names no valid variable name.
    InvalidVariableName,
    /// The referenced variable is not known.
    VariableNotFound(String),
    /// The value (the parameter's own, or the variable's) has the wrong
    /// shape for the parameter's type.
    Value(E),
}

/// The key under which a JSON object refers to a recipe variable.
pub const VARIABLE_KEY: &'static str = "__var";

/// The text of the string member `key` of a JSON value, if it is an object
/// with such a member.
pub uninterp spec fn json_member_text_of(value: serde_json::Value, key: Seq<char>) -> Option<Seq<char>>;

/// Looks up the string member `key` of a JSON value, with
/// `serde_json::Value::get` and `Value::as_str`.
///
/// Trusted: `get` finds the member `key` of an object (nothing for any other
/// value) and `as_str` gives the text of a string; the result is a function
/// of the value and the key, named [`json_member_text_of`].
#[verifier::external_body]
fn json_member_text(value: &serde_json::Value, key: &str) -> (r: Option<String>)
    ensures
        match r {
            Some(s) => json_member_text_of(*value, key@) == Some(s@),
            None => json_member_text_of(*value, key@) is None,
        },
{
    match value.get(key) {
        Some(member) => member.as_str().map(String::from),
        None => None,
    }
}

/// The JSON object whose only member is `key`, a string holding `text`.
pub uninterp spec fn json_object_of(key: Seq<char>, text: Seq<char>) -> serde_json::Value;

/// Builds the JSON object `{key: text}` with `serde_json::Value::from_iter`.
///
/// Trusted: `from_iter` collects the one pair into an object, named
/// [`json_object_of`]; looking up `key` in it gives `text`.
#[verifier::external_body]
fn json_object_with_text(key: &str, text: &str) -> (r: serde_json::Value)
    ensures
        r == json_object_of(key@, text@),
        json_member_text_of(r, key@) == Some(text@),
{
    serde_json::Value::from_iter([(key, text)])
}

/// The JSON string holding `text`, or the JSON `null` for no text.
pub uninterp spec fn json_text_or_null(text: Option<Seq<char>>) -> serde_json::Value;

/// Makes a JSON string or `null` with `From<Option<&str>>` of
/// `serde_json::Value`.
///
/// Trusted: `from` gives `Value::Null` for `None` and the string for
/// `Some`, named [`json_text_or_null`]; `null` is no object, so it has no
/// members.
#[verifier::external_body]
fn json_of_text(text: Option<&str>) -> (r: serde_json::Value)
    ensures
        r == json_text_or_null(
            match text {
                Some(t) => Some(t@),
                None => None,
            },
        ),
        text is None ==> forall|key: Seq<char>| json_member_text_of(r, key) is None,
{
    serde_json::Value::from(text)
}

/// Whether `r` is what reading the JSON `value` gives, once its variable
/// reference (if any) is known as `var_ref`, with variables `store` and
/// values read by `read`.
pub open spec fn read_as<T, E, F: Fn(&serde_json::Value) -> Result<T, E>>(
    var_ref: Option<Seq<char>>,
    value: serde_json::Value,
    store: Map<Seq<char>, serde_json::Value>,
    read: F,
    r: Result<PilatusPrimitiveValue<T>, PrimitiveReadError<E>>,
) -> bool {
    match var_ref {
        None => exists|res: Result<T, E>|
            #![trigger call_ensures(read, (&value,), res)]
            call_ensures(read, (&value,), res) && match res {
                Ok(t) => r matches Ok(p) && p.spec_kind() == PilatusPrimitiveValueKind::Explicit
                    && p.spec_value() == t,
                Err(e) => r matches Err(PrimitiveReadError::Value(x)) && x == e,
            },
        Some(name) => if !name_rules(name) {
            r matches Err(PrimitiveReadError::InvalidVariableName)
        } else if !store.contains_key(name) {
            r matches Err(PrimitiveReadError::VariableNotFound(n)) && n@ == name
        } else {
            exists|res: Result<T, E>|
                #![trigger call_ensures(read, (&store[name],), res)]
                call_ensures(read, (&store[name],), res) && match res {
                    Ok(t) => r matches Ok(p) && p.spec_variable() == Some(name) && p.spec_value()
                        == t,
                    Err(e) => r matches Err(PrimitiveReadError::Value(x)) && x == e,
                }
        },
    }
}

impl<T> PilatusPrimitiveValue<T> {
    /// Reads a parameter from JSON whose variable reference, if any, is
    /// `var_ref`: a reference to a valid, known variable reads as bound to
    /// it, with the variable's value; any other JSON is read as the
    /// parameter's own explicit value.
    pub fn from_json_parts<E, F: Fn(&serde_json::Value) -> Result<T, E>>(
        var_ref: Option<&str>,
        value: &serde_json::Value,
        store: &VariableStore,
        read: F,
    ) -> (r: Result<Self, PrimitiveReadError<E>>)
        requires
            forall|v: &serde_json::Value| call_requires(read, (v,)),
        ensures
            read_as(
                match var_ref {
                    Some(s) => Some(s@),
                    None => None,
                },
                *value,
                store@,
                read,
                r,
            ),
    {
        match var_ref {
            None => match read(value) {
                Ok(t) => Ok(PilatusPrimitiveValue::new(t)),
                Err(e) => Err(PrimitiveReadError::Value(e)),
            },
            Some(name) => {
                if !crate::name::is_valid_name(name) {
                    return Err(PrimitiveReadError::InvalidVariableName);
                }
                let owned = name.to_string();
                proof {
                    vstd::string::to_string_from_display_ensures_for_str(name, owned);
                }
                match store.get_variable(&owned) {
                    Err(_) => Err(PrimitiveReadError::VariableNotFound(owned)),
                    Ok(json) => match read(json) {
                        Ok(t) => match PilatusPrimitiveValue::from_variable_reference(name, t) {
                            Ok(p) => Ok(p),
                            Err(_) => Err(PrimitiveReadError::InvalidVariableName),
                        },
                        Err(e) => Err(PrimitiveReadError::Value(e)),
                    },
                }
            },
        }
    }

    /// Reads a parameter from the JSON the server sends, with the recipe's
    /// variables at hand and `read` for the parameter's type: an object whose
    /// `"__var"` member is a string refers to that variable.
    pub fn from_json<E, F: Fn(&serde_json::Value) -> Result<T, E>>(
        value: &serde_json::Value,
        store: &VariableStore,
        read: F,
    ) -> (r: Result<Self, PrimitiveReadError<E>>)
        requires
            forall|v: &serde_json::Value| call_requires(read, (v,)),
        ensures
            read_as(json_member_text_of(*value, VARIABLE_KEY@), *value, store@, read, r),
    {
        let var_ref = json_member_text(value, VARIABLE_KEY);
        match &var_ref {
            Some(name) => Self::from_json_parts(Some(name.as_str()), value, store, read),
            None => Self::from_json_parts(None, value, store, read),
        }
    }

    /// Writes the parameter as JSON: an implicit value as `null`, a bound
    /// one as the reference `{"__var": name}`, an explicit one as what
    /// `write` makes of its value.
    pub fn to_json<E, F: Fn(&T) -> Result<serde_json::Value, E>>(&self, write: F) -> (r: Result<
        serde_json::Value,
        E,
    >)
        requires
            forall|t: &T| call_requires(write, (t,)),
        ensures
            match self.spec_kind() {
                PilatusPrimitiveValueKind::Implicit => r == Ok::<serde_json::Value, E>(
                    json_text_or_null(None),
                ),
                PilatusPrimitiveValueKind::Variable(name) => name_rules(name@) && r == Ok::<
                    serde_json::Value,
                    E,
                >(json_object_of(VARIABLE_KEY@, name@)),
                PilatusPrimitiveValueKind::Explicit => call_ensures(write, (&self.spec_value(),), r),
            },
            self.spec_kind() is Implicit ==> forall|key: Seq<char>|
                json_member_text_of(json_text_or_null(None), key) is None,
            self.spec_variable() matches Some(name) ==> json_member_text_of(
                json_object_of(VARIABLE_KEY@, name),
                VARIABLE_KEY@,
            ) == Some(name),
    {
        match self.serialized_form() {
            SerializedForm::Null => Ok(json_of_text(None)),
            SerializedForm::VariableRef(name) => Ok(json_object_with_text(VARIABLE_KEY, name)),
            SerializedForm::Value(v) => write(v),
        }
    }
}

/// A parameter written out and read back keeps how it came about. A bound
/// parameter, written as a reference to its variable, reads back bound to
/// the same variable (with the variable's value), or as not found where the
/// variable is not known. An explicit value whose JSON holds no variable
/// reference, and which `read` turns back into the value, reads back as the
/// same explicit value. (An implicit value is written as `null`, which reads
/// back as an explicit value, so it is left out.)
pub proof fn lemma_written_parameter_reads_back<T, E, F: Fn(&serde_json::Value) -> Result<T, E>>(
    p: PilatusPrimitiveValue<T>,
    written: serde_json::Value,
    store: Map<Seq<char>, serde_json::Value>,
    read: F,
    r: Result<PilatusPrimitiveValue<T>, PrimitiveReadError<E>>,
)
    requires
        !(p.spec_kind() is Implicit),
        p.spec_variable() matches Some(name) ==> name_rules(name) && json_member_text_of(
            written,
            VARIABLE_KEY@,
        ) == Some(name),
        p.spec_kind() is Explicit ==> json_member_text_of(written, VARIABLE_KEY@) is None && forall|
            res: Result<T, E>,
        | #[trigger] call_ensures(read, (&written,), res) ==> res == Ok::<T, E>(p.spec_value()),
        read_as(json_member_text_of(written, VARIABLE_KEY@), written, store, read, r),
    ensures
        p.spec_kind() is Explicit ==> (r matches Ok(q) && q.spec_kind() is Explicit
            && q.spec_value() == p.spec_value()),
        p.spec_variable() matches Some(name) ==> (r is Ok ==> r->Ok_0.spec_variable() == Some(
            name,
        )) && (!store.contains_key(name) ==> (r matches Err(
            PrimitiveReadError::VariableNotFound(n),
        ) && n@ == name)) && (store.contains_key(name) && (forall|res: Result<T, E>|
            #[trigger] call_ensures(read, (&store[name],), res) ==> res is Ok) ==> r is Ok),
{
}

} // verus!
