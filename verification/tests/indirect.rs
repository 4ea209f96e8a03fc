//! Tests of the indirect miss-handler handles: global-namespace keys that
//! are re-resolved on every use, never cached.

use lua_class::class::{lookup_well_known, Class, ClassState};
use lua_class::resolve::{
    read_field, resolve_read, resolve_write, write_field, ReadOutcome, ReadResolution,
    WriteOutcome, WriteResolution,
};
use lua_class::state::ScriptState;
use lua_class::value::{AccessError, FuncTag, LuaValue, MissPolicy};

/// Builds a class table by hand whose metadata record carries indirect
/// miss-handler handles, publishes it, and retrieves it through the
/// validating registry lookup.
fn class_with_handles(s: &mut ScriptState) -> Class {
    let t = s.create_table();
    let mut cs = ClassState::default();
    cs.index_miss_handler_global = Some("my_read_miss".to_owned());
    cs.newindex_miss_handler_global = Some("my_write_miss".to_owned());
    let d = s.create_class_data(cs);
    s.table_set(t, "data".to_owned(), LuaValue::ClassData(d));
    let p = s.create_table();
    s.table_set(t, "properties".to_owned(), LuaValue::Table(p));
    let m = s.create_table();
    s.set_meta(t, m);
    s.global_set("__handmade_class".to_owned(), LuaValue::Table(t));
    lookup_well_known(s, &"handmade".to_owned()).expect("handmade class has the class shape")
}

/// Builds a class table by hand with neither indirect handles nor default
/// miss entries: misses have nowhere to go.
fn class_without_any_handler(s: &mut ScriptState) -> Class {
    let t = s.create_table();
    let d = s.create_class_data(ClassState::default());
    s.table_set(t, "data".to_owned(), LuaValue::ClassData(d));
    let p = s.create_table();
    s.table_set(t, "properties".to_owned(), LuaValue::Table(p));
    let m = s.create_table();
    s.set_meta(t, m);
    s.global_set("__blank_class".to_owned(), LuaValue::Table(t));
    lookup_well_known(s, &"blank".to_owned()).expect("blank class has the class shape")
}

#[test]
fn class_without_any_handler_reports_no_such_property() {
    let mut s = ScriptState::new();
    let c = class_without_any_handler(&mut s);
    assert_eq!(
        resolve_read(&s, &c, &"anything".to_owned()),
        ReadResolution::NoHandler
    );
    assert_eq!(
        read_field(&s, &c, &"anything".to_owned(), MissPolicy::Fail),
        ReadOutcome::Failed(AccessError::NoSuchProperty)
    );
    assert_eq!(
        write_field(&s, &c, &"anything".to_owned(), MissPolicy::Fail),
        WriteOutcome::Failed(AccessError::NoSuchProperty)
    );
}

#[test]
fn unresolvable_handle_fails_the_access() {
    let mut s = ScriptState::new();
    let c = class_with_handles(&mut s);
    // The handles name globals that are not bound: resolution must fail,
    // not fall back or guess.
    assert_eq!(
        resolve_read(&s, &c, &"anything".to_owned()),
        ReadResolution::BadHandler
    );
    assert_eq!(
        read_field(&s, &c, &"anything".to_owned(), MissPolicy::Fail),
        ReadOutcome::Failed(AccessError::HandlerUnresolved)
    );
    assert_eq!(
        resolve_write(&s, &c, &"anything".to_owned()),
        WriteResolution::BadHandler
    );
    assert_eq!(
        write_field(&s, &c, &"anything".to_owned(), MissPolicy::Fail),
        WriteOutcome::Failed(AccessError::HandlerUnresolved)
    );
}

#[test]
fn handle_bound_to_a_non_function_fails_the_access() {
    let mut s = ScriptState::new();
    let c = class_with_handles(&mut s);
    s.global_set("my_read_miss".to_owned(), LuaValue::Integer(5));
    assert_eq!(
        resolve_read(&s, &c, &"anything".to_owned()),
        ReadResolution::BadHandler
    );
}

#[test]
fn resolved_handle_directs_the_host_to_the_installed_handler() {
    let mut s = ScriptState::new();
    let c = class_with_handles(&mut s);
    let rf = s.create_function(FuncTag::Host(7));
    let wf = s.create_function(FuncTag::Host(8));
    s.global_set("my_read_miss".to_owned(), LuaValue::Function(rf));
    s.global_set("my_write_miss".to_owned(), LuaValue::Function(wf));
    assert_eq!(
        read_field(&s, &c, &"anything".to_owned(), MissPolicy::Fail),
        ReadOutcome::CallMiss(rf)
    );
    assert_eq!(
        write_field(&s, &c, &"anything".to_owned(), MissPolicy::Fail),
        WriteOutcome::CallMiss(wf)
    );
}

#[test]
fn handle_is_re_resolved_on_every_use() {
    let mut s = ScriptState::new();
    let c = class_with_handles(&mut s);
    let first = s.create_function(FuncTag::Host(7));
    s.global_set("my_read_miss".to_owned(), LuaValue::Function(first));
    assert_eq!(
        read_field(&s, &c, &"anything".to_owned(), MissPolicy::Fail),
        ReadOutcome::CallMiss(first)
    );
    // Rebinding the global changes what the very next access reaches: the
    // handle is a key, not a cached value.
    let second = s.create_function(FuncTag::Host(9));
    s.global_set("my_read_miss".to_owned(), LuaValue::Function(second));
    assert_eq!(
        read_field(&s, &c, &"anything".to_owned(), MissPolicy::Fail),
        ReadOutcome::CallMiss(second)
    );
}
