//! Primitive device parameters that are set explicitly, left at their
//! implicit default, or bound to a recipe variable.
use crate::name::{is_valid_name, name_rules};
use vstd::prelude::*;

verus! {

/// How a primitive value came about.
#[derive(Debug, Clone, PartialEq, Eq)]
pub enum PilatusPrimitiveValueKind {
    /// Set by the user.
    Explicit,
    /// Left at its default.
    Implicit,
    /// Bound to the recipe variable of this name.
    Variable(String),
}

/// A primitive device parameter together with how it came about.
#[derive(Debug)]
pub struct PilatusPrimitiveValue<T> {
    kind: PilatusPrimitiveValueKind,
    value: T,
}

/// The name of the variable a kind refers to, if it refers to one.
pub open spec fn kind_variable(kind: PilatusPrimitiveValueKind) -> Option<Seq<char>> {
    match kind {
        PilatusPrimitiveValueKind::Variable(v) => Some(v@),
        _ => None,
    }
}

/// A variable name that was given as text and is no valid name.
#[derive(Debug, Clone, PartialEq, Eq)]
pub struct InvalidVariableName;

/// How a primitive value is written out: as null when implicit, as a
/// reference `{"__var": name}` when bound to a variable, as its value when
/// explicit.
#[derive(Debug)]
pub enum SerializedForm<'a, T> {
    Null,
    VariableRef(&'a str),
    Value(&'a T),
}

impl<T> PilatusPrimitiveValue<T> {
    /// Only valid names are referenced.
    #[verifier::type_invariant]
    spec fn names_are_valid(self) -> bool {
        match self.kind {
            PilatusPrimitiveValueKind::Variable(v) => name_rules(v@),
            _ => true,
        }
    }

    /// How this value came about.
    pub closed spec fn spec_kind(self) -> PilatusPrimitiveValueKind {
        self.kind
    }

    /// The current value.
    pub closed spec fn spec_value(self) -> T {
        self.value
    }

    /// The name of the referenced variable, if any.
    pub open spec fn spec_variable(self) -> Option<Seq<char>> {
        kind_variable(self.spec_kind())
    }

    /// Explicit values and variable references count as explicit.
    pub open spec fn spec_is_explicit(self) -> bool {
        !(self.spec_kind() is Implicit)
    }

    /// An explicit value.
    pub fn new(value: T) -> (r: Self)
        ensures
            r.spec_kind() == PilatusPrimitiveValueKind::Explicit,
            r.spec_value() == value,
    {
        PilatusPrimitiveValue { kind: PilatusPrimitiveValueKind::Explicit, value }
    }

    /// A value bound to the variable `name`, or an error if `name` is no valid
    /// name. This is how a variable reference is read in.
    pub fn from_variable_reference(name: &str, value: T) -> (r: Result<Self, InvalidVariableName>)
        ensures
            name_rules(name@) ==> (r matches Ok(p) && p.spec_variable() == Some(name@)
                && p.spec_value() == value),
            !name_rules(name@) ==> r == Err::<Self, InvalidVariableName>(InvalidVariableName),
    {
        if is_valid_name(name) {
            let owned = name.to_string();
            proof {
                vstd::string::to_string_from_display_ensures_for_str(name, owned);
            }
            Ok(PilatusPrimitiveValue { kind: PilatusPrimitiveValueKind::Variable(owned), value })
        } else {
            Err(InvalidVariableName)
        }
    }

    /// When an implicit value is touched it becomes explicit; a variable
    /// reference stays one.
    pub fn make_explicit(&mut self)
        ensures
            final(self).spec_value() == old(self).spec_value(),
            final(self).spec_kind() == (match old(self).spec_kind() {
                PilatusPrimitiveValueKind::Implicit => PilatusPrimitiveValueKind::Explicit,
                k => k,
            }),
    {
        proof {
            use_type_invariant(&*self);
        }
        if let PilatusPrimitiveValueKind::Implicit = self.kind {
            self.kind = PilatusPrimitiveValueKind::Explicit;
        }
    }

    /// Whether the value is explicit; a variable reference is explicit too.
    pub fn is_explicit(&self) -> (r: bool)
        ensures
            r == self.spec_is_explicit(),
    {
        match self.kind {
            PilatusPrimitiveValueKind::Implicit => false,
            _ => true,
        }
    }

    /// Whether the value is implicit.
    pub fn is_implicit(&self) -> (r: bool)
        ensures
            r == (self.spec_kind() is Implicit),
    {
        match self.kind {
            PilatusPrimitiveValueKind::Implicit => true,
            _ => false,
        }
    }

    /// Sets the value; an implicit value becomes explicit, a variable
    /// reference stays one.
    pub fn set_explicit(&mut self, value: T)
        ensures
            final(self).spec_value() == value,
            final(self).spec_kind() == (match old(self).spec_kind() {
                PilatusPrimitiveValueKind::Implicit => PilatusPrimitiveValueKind::Explicit,
                k => k,
            }),
    {
        proof {
            use_type_invariant(&*self);
        }
        if self.is_implicit() {
            self.kind = PilatusPrimitiveValueKind::Explicit;
        }
        self.value = value;
    }

    /// The name of the referenced variable, if this is a variable reference.
    pub fn variable_name(&self) -> (r: Option<&str>)
        ensures
            match r {
                Some(s) => self.spec_variable() == Some(s@) && name_rules(s@),
                None => self.spec_variable() is None,
            },
    {
        proof {
            use_type_invariant(self);
        }
        match &self.kind {
            PilatusPrimitiveValueKind::Variable(var) => Some(var.as_str()),
            _ => None,
        }
    }

    /// The referenced variable, if this is a variable reference.
    pub fn variable(&self) -> (r: Option<&String>)
        ensures
            match r {
                Some(s) => self.spec_kind() == PilatusPrimitiveValueKind::Variable(*s),
                None => self.spec_variable() is None,
            },
    {
        match &self.kind {
            PilatusPrimitiveValueKind::Variable(var) => Some(var),
            _ => None,
        }
    }

    /// Maps the value to a different type, keeping how it came about: a
    /// variable reference stays a reference to the same variable.
    pub fn map<A, F: FnOnce(T) -> A>(self, transformer: F) -> (r: PilatusPrimitiveValue<A>)
        requires
            call_requires(transformer, (self.spec_value(),)),
        ensures
            r.spec_kind() == self.spec_kind(),
            call_ensures(transformer, (self.spec_value(),), r.spec_value()),
    {
        proof {
            use_type_invariant(&self);
        }
        let PilatusPrimitiveValue { kind, value } = self;
        PilatusPrimitiveValue { kind, value: transformer(value) }
    }

    /// Binds the value to the variable `variable`, or fails if that is no
    /// valid name; on failure nothing changes.
    pub fn set_kind_to_variable(&mut self, variable: &str) -> (r: Result<(), InvalidVariableName>)
        ensures
            final(self).spec_value() == old(self).spec_value(),
            name_rules(variable@) ==> r is Ok && final(self).spec_variable() == Some(variable@),
            !name_rules(variable@) ==> r is Err && final(self).spec_kind() == old(self).spec_kind(),
    {
        if is_valid_name(variable) {
            let owned = variable.to_string();
            proof {
                vstd::string::to_string_from_display_ensures_for_str(variable, owned);
            }
            self.kind = PilatusPrimitiveValueKind::Variable(owned);
            Ok(())
        } else {
            Err(InvalidVariableName)
        }
    }

    /// Sets the value, making an implicit value explicit; a variable reference
    /// and an explicit value keep their kind.
    pub fn set(&mut self, value: T)
        ensures
            final(self).spec_value() == value,
            final(self).spec_kind() == (match old(self).spec_kind() {
                PilatusPrimitiveValueKind::Implicit => PilatusPrimitiveValueKind::Explicit,
                k => k,
            }),
    {
        proof {
            use_type_invariant(&*self);
        }
        self.value = value;
        if let PilatusPrimitiveValueKind::Implicit = self.kind {
            self.kind = PilatusPrimitiveValueKind::Explicit;
        }
    }

    /// The value, dropping how it came about.
    pub fn into_value(self) -> (r: T)
        ensures
            r == self.spec_value(),
    {
        self.value
    }

    /// The current value.
    pub fn value(&self) -> (r: &T)
        ensures
            *r == self.spec_value(),
    {
        &self.value
    }

    /// Writes the value with an explicitness: an explicit write makes an
    /// implicit value explicit and keeps a variable reference; an implicit
    /// write makes the value implicit.
    pub fn set_impex(&mut self, v: T, is_explicit: bool)
        ensures
            final(self).spec_value() == v,
            final(self).spec_kind() == (if !is_explicit {
                PilatusPrimitiveValueKind::Implicit
            } else {
                match old(self).spec_kind() {
                    PilatusPrimitiveValueKind::Implicit => PilatusPrimitiveValueKind::Explicit,
                    k => k,
                }
            }),
    {
        proof {
            use_type_invariant(&*self);
        }
        if is_explicit {
            if let PilatusPrimitiveValueKind::Implicit = self.kind {
                self.kind = PilatusPrimitiveValueKind::Explicit;
            }
        } else {
            self.kind = PilatusPrimitiveValueKind::Implicit;
        }
        self.value = v;
    }

    /// How the value is written out.
    pub fn serialized_form(&self) -> (r: SerializedForm<'_, T>)
        ensures
            match r {
                SerializedForm::Null => self.spec_kind() is Implicit,
                SerializedForm::VariableRef(name) => self.spec_variable() == Some(name@)
                    && name_rules(name@),
                SerializedForm::Value(v) => self.spec_kind() is Explicit && *v == self.spec_value(),
            },
    {
        proof {
            use_type_invariant(self);
        }
        match &self.kind {
            PilatusPrimitiveValueKind::Implicit => SerializedForm::Null,
            PilatusPrimitiveValueKind::Variable(variable) => SerializedForm::VariableRef(
                variable.as_str(),
            ),
            PilatusPrimitiveValueKind::Explicit => SerializedForm::Value(&self.value),
        }
    }
}

impl<T: Default> Default for PilatusPrimitiveValue<T> {
    /// An implicit value holding `T`'s default.
    fn default() -> (r: Self)
        ensures
            r.spec_kind() == PilatusPrimitiveValueKind::Implicit,
            call_ensures(T::default, (), r.spec_value()),
    {
        let value = T::default();
        PilatusPrimitiveValue { kind: PilatusPrimitiveValueKind::Implicit, value }
    }
}

/// Settings of the Pilatus wrapper around primitive parameters.
#[derive(PartialEq, Eq, Debug, Default, Clone, Copy)]
pub struct PilatusWrapperSettings;

impl PilatusWrapperSettings {
    /// Wraps a value as explicit or implicit.
    pub fn create_primitive<T>(value: T, is_explicit: bool) -> (r: PilatusPrimitiveValue<T>)
        ensures
            r.spec_value() == value,
            r.spec_kind() == (if is_explicit {
                PilatusPrimitiveValueKind::Explicit
            } else {
                PilatusPrimitiveValueKind::Implicit
            }),
    {
        PilatusPrimitiveValue {
            kind: if is_explicit {
                PilatusPrimitiveValueKind::Explicit
            } else {
                PilatusPrimitiveValueKind::Implicit
            },
            value,
        }
    }
}

} // verus!
