//! Property resolution and miss handling.
//!
//! When a script reads or writes `instance.<field>` and the field is not a
//! statically attached entry, the field-access trap consults the class's
//! property table in insertion order; the first record whose name matches
//! wins and its getter (read) or setter (write) is invoked. On no match,
//! resolution falls through to the class-level miss handler: the indirect
//! handle from the metadata record if present (re-resolved through the
//! global namespace at time of use), else the class table's default entry.
//! The bridge executes its own default entries (which fail loudly until a
//! real handler is implemented, or ignore the access under the lenient
//! policy); host-supplied callables are returned as directives for the
//! host to invoke — exactly once per access.

use vstd::prelude::*;
use crate::value::{LuaValue, ValueAbs, FuncTag, AccessError, MissPolicy};
use crate::state::{ScriptState, StateAbs, hash_get};
use crate::class::{
    Class, Allocator, Collector, Checker, class_wf, props_table_of, class_data_of,
    index_miss_key, newindex_miss_key, built_class,
};

verus! {

/// The property-record index stored at position `i` of a property table.
pub open spec fn prop_id_at(arr: Seq<ValueAbs>, i: int) -> usize {
    match arr[i] {
        ValueAbs::Prop(pid) => pid,
        _ => 0,
    }
}

/// The name of the property at position `i` of a property table.
pub open spec fn prop_name_at(s: StateAbs, arr: Seq<ValueAbs>, i: int) -> Seq<char> {
    s.props[prop_id_at(arr, i) as int].name
}

/// The smallest position at or after `i` whose property name is `field`.
pub open spec fn match_from(s: StateAbs, arr: Seq<ValueAbs>, field: Seq<char>, i: int) -> Option<
    int,
>
    decreases arr.len() - i,
{
    if i < 0 || i >= arr.len() {
        None
    } else if prop_name_at(s, arr, i) == field {
        Some(i)
    } else {
        match_from(s, arr, field, i + 1)
    }
}

/// The smallest position in `arr` whose property name is `field`.
pub open spec fn first_match(s: StateAbs, arr: Seq<ValueAbs>, field: Seq<char>) -> Option<int> {
    match_from(s, arr, field, 0)
}

/// How a read of an undeclared-or-declared field resolves.
#[derive(Debug, Clone, Copy, PartialEq, Eq, Structural)]
pub enum ReadResolution {
    /// Invoke this getter with the instance.
    Getter(usize),
    /// Invoke this miss handler with the instance.
    Miss(usize),
    /// The first matching property is write-only.
    Unreadable,
    /// No match and no miss handler: no such property.
    NoHandler,
    /// An indirect miss-handler handle did not resolve to a function.
    BadHandler,
}

/// How a write resolves.
#[derive(Debug, Clone, Copy, PartialEq, Eq, Structural)]
pub enum WriteResolution {
    /// Invoke this setter with the instance and the value.
    Setter(usize),
    /// Invoke this miss handler with the instance.
    Miss(usize),
    /// The first matching property is read-only.
    Unwritable,
    /// No match and no miss handler: no such property.
    NoHandler,
    /// An indirect miss-handler handle did not resolve to a function.
    BadHandler,
}

/// Miss fallback for reads: the indirect handle if present, else the
/// class table's default read-miss entry, else failure.
pub open spec fn read_miss_spec(s: StateAbs, t: usize) -> ReadResolution {
    match s.classes[class_data_of(s, t) as int].index_miss_handler_global {
        Some(key) => match hash_get(s.tables[0].hash, key) {
            Some(ValueAbs::Function(f)) => if (f as int) < s.funcs.len() {
                ReadResolution::Miss(f)
            } else {
                ReadResolution::BadHandler
            },
            Some(_) => ReadResolution::BadHandler,
            None => ReadResolution::BadHandler,
        },
        None => match hash_get(s.tables[t as int].hash, index_miss_key()) {
            Some(ValueAbs::Function(f)) => if (f as int) < s.funcs.len() {
                ReadResolution::Miss(f)
            } else {
                ReadResolution::NoHandler
            },
            Some(_) => ReadResolution::NoHandler,
            None => ReadResolution::NoHandler,
        },
    }
}

/// Miss fallback for writes, over the write-side handle and entry.
pub open spec fn write_miss_spec(s: StateAbs, t: usize) -> WriteResolution {
    match s.classes[class_data_of(s, t) as int].newindex_miss_handler_global {
        Some(key) => match hash_get(s.tables[0].hash, key) {
            Some(ValueAbs::Function(f)) => if (f as int) < s.funcs.len() {
                WriteResolution::Miss(f)
            } else {
                WriteResolution::BadHandler
            },
            Some(_) => WriteResolution::BadHandler,
            None => WriteResolution::BadHandler,
        },
        None => match hash_get(s.tables[t as int].hash, newindex_miss_key()) {
            Some(ValueAbs::Function(f)) => if (f as int) < s.funcs.len() {
                WriteResolution::Miss(f)
            } else {
                WriteResolution::NoHandler
            },
            Some(_) => WriteResolution::NoHandler,
            None => WriteResolution::NoHandler,
        },
    }
}

/// Full read resolution: first matching property's getter, else the miss
/// fallback.
pub open spec fn read_resolution_spec(s: StateAbs, t: usize, field: Seq<char>) -> ReadResolution {
    let arr = s.tables[props_table_of(s, t) as int].arr;
    match first_match(s, arr, field) {
        Some(i) => match s.props[prop_id_at(arr, i) as int].getter {
            Some(g) => ReadResolution::Getter(g),
            None => ReadResolution::Unreadable,
        },
        None => read_miss_spec(s, t),
    }
}

/// Full write resolution: first matching property's setter, else the miss
/// fallback.
pub open spec fn write_resolution_spec(s: StateAbs, t: usize, field: Seq<char>) -> WriteResolution {
    let arr = s.tables[props_table_of(s, t) as int].arr;
    match first_match(s, arr, field) {
        Some(i) => match s.props[prop_id_at(arr, i) as int].setter {
            Some(g) => WriteResolution::Setter(g),
            None => WriteResolution::Unwritable,
        },
        None => write_miss_spec(s, t),
    }
}

/// Scanning past positions whose names do not match does not change the
/// result.
proof fn lemma_match_from_skip(s: StateAbs, arr: Seq<ValueAbs>, field: Seq<char>, k: int, i: int)
    requires
        0 <= k <= i <= arr.len(),
        forall|j: int| k <= j < i ==> prop_name_at(s, arr, j) != field,
    ensures
        match_from(s, arr, field, k) == match_from(s, arr, field, i),
    decreases i - k,
{
    if k < i {
        assert(prop_name_at(s, arr, k) != field);
        lemma_match_from_skip(s, arr, field, k + 1, i);
    }
}

/// Resolves a read of `field` on an instance of class `c`.
pub fn resolve_read(s: &ScriptState, c: &Class, field: &String) -> (r: ReadResolution)
    requires
        class_wf(s@, c@),
    ensures
        r == read_resolution_spec(s@, c@, field@),
{
    let t = c.table_id();
    let p = c.properties(s);
    let n = s.arr_len(p);
    let ghost arr = s@.tables[p as int].arr;
    let mut i: usize = 0;
    while i < n
        invariant
            class_wf(s@, c@),
            p == props_table_of(s@, c@),
            arr == s@.tables[p as int].arr,
            n as int == arr.len(),
            i <= n,
            match_from(s@, arr, field@, 0) == match_from(s@, arr, field@, i as int),
        decreases n - i,
    {
        proof {
            assert(crate::class::is_prop_ref(s@, arr[i as int]));
        }
        let v = s.arr_get(p, i);
        let pid = match v {
            LuaValue::Prop(pid) => pid,
            _ => vstd::pervasive::unreached(),
        };
        let pr = s.prop_at(pid);
        if pr.name.eq(field) {
            proof {
                assert(prop_name_at(s@, arr, i as int) == field@);
                assert(match_from(s@, arr, field@, i as int) == Some(i as int));
            }
            match pr.getter {
                Some(g) => {
                    return ReadResolution::Getter(g);
                },
                None => {
                    return ReadResolution::Unreadable;
                },
            }
        }
        proof {
            assert(prop_name_at(s@, arr, i as int) != field@);
            assert(match_from(s@, arr, field@, i as int) == match_from(
                s@,
                arr,
                field@,
                i as int + 1,
            ));
        }
        i += 1;
    }
    let cs = c.class_data(s);
    match &cs.index_miss_handler_global {
        Some(key) => match s.global_get(key) {
            Some(LuaValue::Function(f)) => {
                if f < s.funcs_len() {
                    ReadResolution::Miss(f)
                } else {
                    ReadResolution::BadHandler
                }
            },
            _ => ReadResolution::BadHandler,
        },
        None => match s.table_get(t, &"index_miss_property".to_owned()) {
            Some(LuaValue::Function(f)) => {
                if f < s.funcs_len() {
                    ReadResolution::Miss(f)
                } else {
                    ReadResolution::NoHandler
                }
            },
            _ => ReadResolution::NoHandler,
        },
    }
}

/// Resolves a write of `field` on an instance of class `c`.
pub fn resolve_write(s: &ScriptState, c: &Class, field: &String) -> (r: WriteResolution)
    requires
        class_wf(s@, c@),
    ensures
        r == write_resolution_spec(s@, c@, field@),
{
    let t = c.table_id();
    let p = c.properties(s);
    let n = s.arr_len(p);
    let ghost arr = s@.tables[p as int].arr;
    let mut i: usize = 0;
    while i < n
        invariant
            class_wf(s@, c@),
            p == props_table_of(s@, c@),
            arr == s@.tables[p as int].arr,
            n as int == arr.len(),
            i <= n,
            match_from(s@, arr, field@, 0) == match_from(s@, arr, field@, i as int),
        decreases n - i,
    {
        proof {
            assert(crate::class::is_prop_ref(s@, arr[i as int]));
        }
        let v = s.arr_get(p, i);
        let pid = match v {
            LuaValue::Prop(pid) => pid,
            _ => vstd::pervasive::unreached(),
        };
        let pr = s.prop_at(pid);
        if pr.name.eq(field) {
            proof {
                assert(prop_name_at(s@, arr, i as int) == field@);
                assert(match_from(s@, arr, field@, i as int) == Some(i as int));
            }
            match pr.setter {
                Some(g) => {
                    return WriteResolution::Setter(g);
                },
                None => {
                    return WriteResolution::Unwritable;
                },
            }
        }
        proof {
            assert(prop_name_at(s@, arr, i as int) != field@);
            assert(match_from(s@, arr, field@, i as int) == match_from(
                s@,
                arr,
                field@,
                i as int + 1,
            ));
        }
        i += 1;
    }
    let cs = c.class_data(s);
    match &cs.newindex_miss_handler_global {
        Some(key) => match s.global_get(key) {
            Some(LuaValue::Function(f)) => {
                if f < s.funcs_len() {
                    WriteResolution::Miss(f)
                } else {
                    WriteResolution::BadHandler
                }
            },
            _ => WriteResolution::BadHandler,
        },
        None => match s.table_get(t, &"newindex_miss_property".to_owned()) {
            Some(LuaValue::Function(f)) => {
                if f < s.funcs_len() {
                    WriteResolution::Miss(f)
                } else {
                    WriteResolution::NoHandler
                }
            },
            _ => WriteResolution::NoHandler,
        },
    }
}

/// The bridge's default read-miss entry point. Until a real handler is
/// implemented it must fail loudly rather than return a misleading value;
/// the lenient policy instead yields nil.
pub fn index_miss_property(_s: &ScriptState, _obj: usize, policy: MissPolicy) -> (r: Result<
    LuaValue,
    AccessError,
>)
    ensures
        policy == MissPolicy::Fail ==> r == Err::<LuaValue, AccessError>(
            AccessError::NotImplemented,
        ),
        policy == MissPolicy::Ignore ==> r == Ok::<LuaValue, AccessError>(LuaValue::Nil),
{
    match policy {
        MissPolicy::Fail => Err(AccessError::NotImplemented),
        MissPolicy::Ignore => Ok(LuaValue::Nil),
    }
}

/// The bridge's default write-miss entry point. Until a real handler is
/// implemented it must fail loudly rather than silently succeed; the
/// lenient policy instead drops the write.
pub fn newindex_miss_property(_s: &ScriptState, _obj: usize, policy: MissPolicy) -> (r: Result<
    LuaValue,
    AccessError,
>)
    ensures
        policy == MissPolicy::Fail ==> r == Err::<LuaValue, AccessError>(
            AccessError::NotImplemented,
        ),
        policy == MissPolicy::Ignore ==> r == Ok::<LuaValue, AccessError>(LuaValue::Nil),
{
    match policy {
        MissPolicy::Fail => Err(AccessError::NotImplemented),
        MissPolicy::Ignore => Ok(LuaValue::Nil),
    }
}

/// What a full read access yields: a directive to the host, a value, or a
/// failure.
#[derive(Debug, PartialEq, Eq)]
pub enum ReadOutcome {
    /// Invoke this getter exactly once with the instance and use its
    /// result.
    CallGetter(usize),
    /// Invoke this host miss handler exactly once with the instance.
    CallMiss(usize),
    /// The access completed in the bridge with this value.
    Value(LuaValue),
    /// The access failed.
    Failed(AccessError),
}

/// What a full write access yields.
#[derive(Debug, Clone, Copy, PartialEq, Eq, Structural)]
pub enum WriteOutcome {
    /// Invoke this setter exactly once with the instance and the value.
    CallSetter(usize),
    /// Invoke this host miss handler exactly once with the instance.
    CallMiss(usize),
    /// The write was absorbed under the lenient policy.
    Ignored,
    /// The access failed.
    Failed(AccessError),
}

/// What the bridge's default read-miss entry yields under each policy.
pub open spec fn default_miss_read(policy: MissPolicy) -> ReadOutcome {
    match policy {
        MissPolicy::Fail => ReadOutcome::Failed(AccessError::NotImplemented),
        MissPolicy::Ignore => ReadOutcome::Value(LuaValue::Nil),
    }
}

/// What the bridge's default write-miss entry yields under each policy.
pub open spec fn default_miss_write(policy: MissPolicy) -> WriteOutcome {
    match policy {
        MissPolicy::Fail => WriteOutcome::Failed(AccessError::NotImplemented),
        MissPolicy::Ignore => WriteOutcome::Ignored,
    }
}

/// The full read pipeline: resolution, then execution of the bridge's own
/// default entries; host callables become directives.
pub open spec fn read_outcome_spec(
    s: StateAbs,
    t: usize,
    field: Seq<char>,
    policy: MissPolicy,
) -> ReadOutcome {
    match read_resolution_spec(s, t, field) {
        ReadResolution::Getter(g) => ReadOutcome::CallGetter(g),
        ReadResolution::Miss(f) => match s.funcs[f as int] {
            FuncTag::IndexMissDefault => default_miss_read(policy),
            FuncTag::NewindexMissDefault => default_miss_read(policy),
            FuncTag::ObjectIndex => ReadOutcome::CallMiss(f),
            FuncTag::Host(_) => ReadOutcome::CallMiss(f),
        },
        ReadResolution::Unreadable => ReadOutcome::Failed(AccessError::PropertyNotReadable),
        ReadResolution::NoHandler => ReadOutcome::Failed(AccessError::NoSuchProperty),
        ReadResolution::BadHandler => ReadOutcome::Failed(AccessError::HandlerUnresolved),
    }
}

/// The full write pipeline.
pub open spec fn write_outcome_spec(
    s: StateAbs,
    t: usize,
    field: Seq<char>,
    policy: MissPolicy,
) -> WriteOutcome {
    match write_resolution_spec(s, t, field) {
        WriteResolution::Setter(g) => WriteOutcome::CallSetter(g),
        WriteResolution::Miss(f) => match s.funcs[f as int] {
            FuncTag::IndexMissDefault => default_miss_write(policy),
            FuncTag::NewindexMissDefault => default_miss_write(policy),
            FuncTag::ObjectIndex => WriteOutcome::CallMiss(f),
            FuncTag::Host(_) => WriteOutcome::CallMiss(f),
        },
        WriteResolution::Unwritable => WriteOutcome::Failed(AccessError::PropertyNotWritable),
        WriteResolution::NoHandler => WriteOutcome::Failed(AccessError::NoSuchProperty),
        WriteResolution::BadHandler => WriteOutcome::Failed(AccessError::HandlerUnresolved),
    }
}

/// Performs a read of `instance.<field>` as far as the bridge can: the
/// first matching property's getter (or a host miss handler) is returned
/// as a directive for the host to invoke exactly once; the bridge's own
/// default miss entries are executed here.
pub fn read_field(s: &ScriptState, c: &Class, field: &String, policy: MissPolicy) -> (r:
    ReadOutcome)
    requires
        class_wf(s@, c@),
    ensures
        r == read_outcome_spec(s@, c@, field@, policy),
{
    match resolve_read(s, c, field) {
        ReadResolution::Getter(g) => ReadOutcome::CallGetter(g),
        ReadResolution::Miss(f) => {
            match s.func_tag(f) {
                FuncTag::IndexMissDefault | FuncTag::NewindexMissDefault => {
                    match index_miss_property(s, c.table_id(), policy) {
                        Ok(v) => ReadOutcome::Value(v),
                        Err(e) => ReadOutcome::Failed(e),
                    }
                },
                _ => ReadOutcome::CallMiss(f),
            }
        },
        ReadResolution::Unreadable => ReadOutcome::Failed(AccessError::PropertyNotReadable),
        ReadResolution::NoHandler => ReadOutcome::Failed(AccessError::NoSuchProperty),
        ReadResolution::BadHandler => ReadOutcome::Failed(AccessError::HandlerUnresolved),
    }
}

/// Performs a write of `instance.<field>` as far as the bridge can; the
/// value to store is the host's to pass to the setter it is directed to
/// invoke.
pub fn write_field(s: &ScriptState, c: &Class, field: &String, policy: MissPolicy) -> (r:
    WriteOutcome)
    requires
        class_wf(s@, c@),
    ensures
        r == write_outcome_spec(s@, c@, field@, policy),
{
    match resolve_write(s, c, field) {
        WriteResolution::Setter(g) => WriteOutcome::CallSetter(g),
        WriteResolution::Miss(f) => {
            match s.func_tag(f) {
                FuncTag::IndexMissDefault | FuncTag::NewindexMissDefault => {
                    match newindex_miss_property(s, c.table_id(), policy) {
                        Ok(_) => WriteOutcome::Ignored,
                        Err(e) => WriteOutcome::Failed(e),
                    }
                },
                _ => WriteOutcome::CallMiss(f),
            }
        },
        WriteResolution::Unwritable => WriteOutcome::Failed(AccessError::PropertyNotWritable),
        WriteResolution::NoHandler => WriteOutcome::Failed(AccessError::NoSuchProperty),
        WriteResolution::BadHandler => WriteOutcome::Failed(AccessError::HandlerUnresolved),
    }
}

/// Law: on a class built with no properties, every read and every write
/// of any field routes to exactly one miss handler — the bridge's default
/// entries — and under the failing policy the access fails with the
/// explicit not-implemented error.
pub proof fn lemma_fresh_class_all_fields_miss(
    s: StateAbs,
    t: usize,
    allocator: Option<Allocator>,
    collector: Option<Collector>,
    checker: Option<Checker>,
    field: Seq<char>,
)
    requires
        built_class(s, t, allocator, collector, checker),
    ensures
        (read_resolution_spec(s, t, field) matches ReadResolution::Miss(f) && s.funcs[f as int]
            == FuncTag::IndexMissDefault),
        (write_resolution_spec(s, t, field) matches WriteResolution::Miss(f) && s.funcs[f as int]
            == FuncTag::NewindexMissDefault),
        read_outcome_spec(s, t, field, MissPolicy::Fail) == ReadOutcome::Failed(
            AccessError::NotImplemented,
        ),
        write_outcome_spec(s, t, field, MissPolicy::Fail) == WriteOutcome::Failed(
            AccessError::NotImplemented,
        ),
{
    let arr = s.tables[props_table_of(s, t) as int].arr;
    assert(arr.len() == 0);
    assert(first_match(s, arr, field) == None::<int>);
}

/// Law: first-match-wins. If position `i` holds the first property of the
/// table whose name is `field`, resolution dispatches to that record's
/// getter or setter — never to a later record, even one sharing the name.
pub proof fn lemma_first_match_wins(s: StateAbs, t: usize, field: Seq<char>, i: int)
    requires
        class_wf(s, t),
        0 <= i < s.tables[props_table_of(s, t) as int].arr.len(),
        prop_name_at(s, s.tables[props_table_of(s, t) as int].arr, i) == field,
        forall|j: int|
            0 <= j < i ==> prop_name_at(s, s.tables[props_table_of(s, t) as int].arr, j) != field,
    ensures
        first_match(s, s.tables[props_table_of(s, t) as int].arr, field) == Some(i),
        read_resolution_spec(s, t, field) == (match s.props[prop_id_at(
            s.tables[props_table_of(s, t) as int].arr,
            i,
        ) as int].getter {
            Some(g) => ReadResolution::Getter(g),
            None => ReadResolution::Unreadable,
        }),
        write_resolution_spec(s, t, field) == (match s.props[prop_id_at(
            s.tables[props_table_of(s, t) as int].arr,
            i,
        ) as int].setter {
            Some(g) => WriteResolution::Setter(g),
            None => WriteResolution::Unwritable,
        }),
{
    let arr = s.tables[props_table_of(s, t) as int].arr;
    lemma_match_from_skip(s, arr, field, 0, i);
    assert(match_from(s, arr, field, i) == Some(i));
}

} // verus!


