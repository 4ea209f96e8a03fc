//! Script-side values, as the bridge models them.
//!
//! The runtime's dynamically typed values are modelled by [`LuaValue`].
//! Tables, functions, class records and property records are reference-like
//! in the runtime, so here they are identifiers into the arenas of a
//! [`crate::state::ScriptState`]; aliasing two handles means holding the
//! same identifier.

use vstd::prelude::*;

verus! {

/// Abstraction of a [`LuaValue`]: identifiers become mathematical integers,
/// strings become character sequences.
pub enum ValueAbs {
    Nil,
    Boolean(bool),
    Integer(i64),
    Str(Seq<char>),
    Table(usize),
    Function(usize),
    ClassData(usize),
    Prop(usize),
}

/// A dynamically typed runtime value.
///
/// `Table`, `Function`, `ClassData` and `Prop` carry indices into the table,
/// function, class-record and property-record arenas of the owning
/// [`crate::state::ScriptState`].
#[derive(Debug, PartialEq, Eq)]
pub enum LuaValue {
    Nil,
    Boolean(bool),
    Integer(i64),
    Str(String),
    Table(usize),
    Function(usize),
    ClassData(usize),
    Prop(usize),
}

impl View for LuaValue {
    type V = ValueAbs;

    open spec fn view(&self) -> ValueAbs {
        match self {
            LuaValue::Nil => ValueAbs::Nil,
            LuaValue::Boolean(b) => ValueAbs::Boolean(*b),
            LuaValue::Integer(i) => ValueAbs::Integer(*i),
            LuaValue::Str(s) => ValueAbs::Str(s@),
            LuaValue::Table(t) => ValueAbs::Table(*t),
            LuaValue::Function(f) => ValueAbs::Function(*f),
            LuaValue::ClassData(d) => ValueAbs::ClassData(*d),
            LuaValue::Prop(p) => ValueAbs::Prop(*p),
        }
    }
}

impl Clone for LuaValue {
    fn clone(&self) -> (res: LuaValue)
        ensures
            res == self,
    {
        match self {
            LuaValue::Nil => LuaValue::Nil,
            LuaValue::Boolean(b) => LuaValue::Boolean(*b),
            LuaValue::Integer(i) => LuaValue::Integer(*i),
            LuaValue::Str(s) => LuaValue::Str(s.clone()),
            LuaValue::Table(t) => LuaValue::Table(*t),
            LuaValue::Function(f) => LuaValue::Function(*f),
            LuaValue::ClassData(d) => LuaValue::ClassData(*d),
            LuaValue::Prop(p) => LuaValue::Prop(*p),
        }
    }
}

/// What a native function registered with the runtime does.
///
/// The bridge owns the two miss-handler entry points and installs the object
/// layer's default field-access trap; every other callable (a method, a
/// property getter or setter, a host-installed miss handler) is opaque to it
/// and carries a host-chosen tag.
#[derive(Debug, Clone, Copy, PartialEq, Eq, Structural)]
pub enum FuncTag {
    /// The bridge's fallback for reads of undeclared fields.
    IndexMissDefault,
    /// The bridge's fallback for writes of undeclared fields.
    NewindexMissDefault,
    /// The external object layer's default field-access strategy.
    ObjectIndex,
    /// A host-supplied callable, identified by a host-chosen tag.
    Host(u64),
}

/// Errors surfaced to the calling script or host.
#[derive(Debug, Clone, Copy, PartialEq, Eq, Structural)]
pub enum AccessError {
    /// A default miss handler ran under the failing policy.
    NotImplemented,
    /// No declared property matched and no miss handler is available.
    NoSuchProperty,
    /// The first matching property is write-only.
    PropertyNotReadable,
    /// The first matching property is read-only.
    PropertyNotWritable,
    /// An indirect miss-handler handle did not resolve to a function.
    HandlerUnresolved,
    /// A registry lookup found a value without the published class shape.
    MalformedClass,
    /// A registry lookup found no value under the requested name.
    ClassNotFound,
}

/// What a default miss handler does when it is reached: fail loudly, or
/// ignore the access (reads yield nil, writes are dropped).
#[derive(Debug, Clone, Copy, PartialEq, Eq, Structural)]
pub enum MissPolicy {
    Fail,
    Ignore,
}

} // verus!
