//! Typed values of command-line options: a value given, or a default.
use vstd::prelude::*;

verus! {

/// An option's value as given on the command line, and its default.
pub struct Value<T> {
    pub value: Option<T>,
    pub default: Option<T>,
}

impl<T> Value<T> {
    /// The value in effect: the one given, else the default.
    pub open spec fn effective(&self) -> Option<T> {
        match self.value {
            Some(v) => Some(v),
            None => self.default,
        }
    }

    /// An option not given yet, with a default.
    pub fn new(default: Option<T>) -> (r: Value<T>)
        ensures
            r.value is None,
            r.default == default,
    {
        Value { value: None, default }
    }

    /// The value in effect: the one given, else the default.
    pub fn value(&self) -> (r: Option<&T>)
        ensures
            r is None <==> self.effective() is None,
            r matches Some(x) ==> self.effective() == Some(*x),
    {
        match &self.value {
            Some(v) => Some(v),
            None => match &self.default {
                Some(d) => Some(d),
                None => None,
            },
        }
    }

    /// Whether a value was given on the command line.
    pub fn passed(&self) -> (r: bool)
        ensures
            r == self.value is Some,
    {
        self.value.is_some()
    }
}

/// The value of one option, of one of three types.
pub enum ArgValue {
    Usize(Value<usize>),
    String(Value<String>),
    Bool(Value<bool>),
}

impl ArgValue {
    /// The value of a numeric option.
    pub fn usize_value(&self) -> (r: Option<&usize>)
        requires
            self is Usize,
        ensures
            r is None <==> self->Usize_0.effective() is None,
            r matches Some(x) ==> self->Usize_0.effective() == Some(*x),
    {
        match self {
            ArgValue::Usize(v) => v.value(),
            _ => None,
        }
    }

    /// The value of a text option.
    pub fn string_value(&self) -> (r: Option<&str>)
        requires
            self is String,
        ensures
            r is None <==> self->String_0.effective() is None,
            r matches Some(x) ==> self->String_0.effective() matches Some(t) && t@ == x@,
    {
        match self {
            ArgValue::String(v) => match v.value() {
                Some(t) => Some(t.as_str()),
                None => None,
            },
            _ => None,
        }
    }

    /// The value of a flag.
    pub fn bool_value(&self) -> (r: Option<&bool>)
        requires
            self is Bool,
        ensures
            r is None <==> self->Bool_0.effective() is None,
            r matches Some(x) ==> self->Bool_0.effective() == Some(*x),
    {
        match self {
            ArgValue::Bool(v) => v.value(),
            _ => None,
        }
    }

    /// Whether the option was given on the command line.
    pub fn passed_value(&self) -> (r: bool)
        ensures
            r == match self {
                ArgValue::Usize(v) => v.value is Some,
                ArgValue::String(v) => v.value is Some,
                ArgValue::Bool(v) => v.value is Some,
            },
    {
        match self {
            ArgValue::Usize(v) => v.passed(),
            ArgValue::String(v) => v.passed(),
            ArgValue::Bool(v) => v.passed(),
        }
    }
}

} // verus!
