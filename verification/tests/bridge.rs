//! Scenario tests driving the class bridge through its public interface.

use lua_class::class::{button_class, lookup_well_known, Class, ClassState};
use lua_class::property::Property;
use lua_class::resolve::{
    index_miss_property, newindex_miss_property, read_field, resolve_read, resolve_write,
    write_field, ReadOutcome, ReadResolution, WriteOutcome, WriteResolution,
};
use lua_class::state::ScriptState;
use lua_class::value::{AccessError, FuncTag, LuaValue, MissPolicy};

fn fresh_class(s: &mut ScriptState) -> Class {
    Class::new(s, None, None, None).build()
}

#[test]
fn fresh_class_has_empty_property_table() {
    let mut s = ScriptState::new();
    let c = fresh_class(&mut s);
    let p = c.properties(&s);
    assert_eq!(s.arr_len(p), 0);
}

#[test]
fn fresh_class_read_of_any_field_routes_to_default_read_miss() {
    let mut s = ScriptState::new();
    let c = fresh_class(&mut s);
    match resolve_read(&s, &c, &"anything".to_owned()) {
        ReadResolution::Miss(f) => assert_eq!(s.func_tag(f), FuncTag::IndexMissDefault),
        other => panic!("expected a miss, got {:?}", other),
    }
    assert_eq!(
        read_field(&s, &c, &"anything".to_owned(), MissPolicy::Fail),
        ReadOutcome::Failed(AccessError::NotImplemented)
    );
}

#[test]
fn fresh_class_write_of_any_field_routes_to_default_write_miss() {
    let mut s = ScriptState::new();
    let c = fresh_class(&mut s);
    match resolve_write(&s, &c, &"anything".to_owned()) {
        WriteResolution::Miss(f) => assert_eq!(s.func_tag(f), FuncTag::NewindexMissDefault),
        other => panic!("expected a miss, got {:?}", other),
    }
    assert_eq!(
        write_field(&s, &c, &"anything".to_owned(), MissPolicy::Fail),
        WriteOutcome::Failed(AccessError::NotImplemented)
    );
}

#[test]
fn ignore_policy_yields_nil_reads_and_absorbed_writes() {
    let mut s = ScriptState::new();
    let c = fresh_class(&mut s);
    assert_eq!(
        read_field(&s, &c, &"ghostly".to_owned(), MissPolicy::Ignore),
        ReadOutcome::Value(LuaValue::Nil)
    );
    assert_eq!(
        write_field(&s, &c, &"ghostly".to_owned(), MissPolicy::Ignore),
        WriteOutcome::Ignored
    );
}

#[test]
fn miss_entry_points_follow_policy() {
    let s = ScriptState::new();
    assert_eq!(
        index_miss_property(&s, 0, MissPolicy::Fail),
        Err(AccessError::NotImplemented)
    );
    assert_eq!(index_miss_property(&s, 0, MissPolicy::Ignore), Ok(LuaValue::Nil));
    assert_eq!(
        newindex_miss_property(&s, 0, MissPolicy::Fail),
        Err(AccessError::NotImplemented)
    );
    assert_eq!(newindex_miss_property(&s, 0, MissPolicy::Ignore), Ok(LuaValue::Nil));
}

#[test]
fn property_table_keeps_insertion_order() {
    let mut s = ScriptState::new();
    let b = Class::new(&mut s, None, None, None);
    let b = b.property(&mut s, Property::new("alpha".to_owned(), Some(1), Some(2)));
    let b = b.property(&mut s, Property::new("beta".to_owned(), Some(3), None));
    let b = b.property(&mut s, Property::new("alpha".to_owned(), Some(9), Some(9)));
    let c = b.build();
    let p = c.properties(&s);
    assert_eq!(s.arr_len(p), 3);
    assert_eq!(s.arr_get(p, 0), LuaValue::Prop(0));
    assert_eq!(s.arr_get(p, 1), LuaValue::Prop(1));
    assert_eq!(s.arr_get(p, 2), LuaValue::Prop(2));
    assert_eq!(s.prop_at(0).name, "alpha");
    assert_eq!(s.prop_at(1).name, "beta");
    assert_eq!(s.prop_at(2).name, "alpha");
}

#[test]
fn first_match_wins_even_for_shadowed_names() {
    let mut s = ScriptState::new();
    let b = Class::new(&mut s, None, None, None);
    let b = b.property(&mut s, Property::new("alpha".to_owned(), Some(1), Some(2)));
    let b = b.property(&mut s, Property::new("beta".to_owned(), Some(3), None));
    let b = b.property(&mut s, Property::new("alpha".to_owned(), Some(9), Some(9)));
    let c = b.build();
    assert_eq!(
        resolve_read(&s, &c, &"alpha".to_owned()),
        ReadResolution::Getter(1)
    );
    assert_eq!(
        resolve_write(&s, &c, &"alpha".to_owned()),
        WriteResolution::Setter(2)
    );
    assert_eq!(resolve_read(&s, &c, &"beta".to_owned()), ReadResolution::Getter(3));
    assert_eq!(
        resolve_write(&s, &c, &"beta".to_owned()),
        WriteResolution::Unwritable
    );
    assert_eq!(
        write_field(&s, &c, &"beta".to_owned(), MissPolicy::Fail),
        WriteOutcome::Failed(AccessError::PropertyNotWritable)
    );
}

#[test]
fn write_only_property_is_unreadable() {
    let mut s = ScriptState::new();
    let b = Class::new(&mut s, None, None, None);
    let b = b.property(&mut s, Property::new("sink".to_owned(), None, Some(5)));
    let c = b.build();
    assert_eq!(resolve_read(&s, &c, &"sink".to_owned()), ReadResolution::Unreadable);
    assert_eq!(resolve_write(&s, &c, &"sink".to_owned()), WriteResolution::Setter(5));
    assert_eq!(
        read_field(&s, &c, &"sink".to_owned(), MissPolicy::Fail),
        ReadOutcome::Failed(AccessError::PropertyNotReadable)
    );
}

#[test]
fn save_class_then_lookup_yields_the_same_table() {
    let mut s = ScriptState::new();
    let b = Class::new(&mut s, None, None, None);
    let b = b.save_class(&mut s, &"__widget_class".to_owned());
    let c = b.build();
    let looked = lookup_well_known(&s, &"widget".to_owned()).expect("class was published");
    assert_eq!(looked.table_id(), c.table_id());
}

#[test]
fn method_attached_after_save_is_visible_through_lookup() {
    let mut s = ScriptState::new();
    let meth = s.create_function(FuncTag::Host(41));
    let b = Class::new(&mut s, None, None, None);
    let b = b.save_class(&mut s, &"__widget_class".to_owned());
    let _b = b.method(&mut s, "poke".to_owned(), meth);
    let looked = lookup_well_known(&s, &"widget".to_owned()).expect("class was published");
    let m = s.get_meta(looked.table_id()).expect("class has a metatable");
    assert_eq!(
        s.table_get(m, &"poke".to_owned()),
        Some(LuaValue::Function(meth))
    );
}

fn native_is_table(v: &LuaValue) -> bool {
    matches!(v, LuaValue::Table(_))
}

fn apply_checker(tag: u64, v: &LuaValue) -> bool {
    match tag {
        3 => native_is_table(v),
        _ => panic!("unknown checker tag"),
    }
}

#[test]
fn checker_hook_is_exposed_unchanged() {
    let mut s = ScriptState::new();
    let c = Class::new(&mut s, Some(1), Some(2), Some(3)).build();
    let tag = c.checker(&s).expect("checker was set");
    assert_eq!(tag, 3);
    let yes = LuaValue::Table(1);
    let no = LuaValue::Nil;
    assert_eq!(apply_checker(tag, &yes), native_is_table(&yes));
    assert_eq!(apply_checker(tag, &no), native_is_table(&no));
    let plain = Class::new(&mut s, None, None, None).build();
    assert_eq!(plain.checker(&s), None);
}

#[test]
fn class_state_default_is_empty() {
    let d = ClassState::default();
    assert_eq!(d.name, "");
    assert_eq!(d.parent, None);
    assert_eq!(d.signals_global, None);
    assert_eq!(d.allocator, None);
    assert_eq!(d.collector, None);
    assert_eq!(d.checker, None);
    assert_eq!(d.instances, 0);
    assert_eq!(d.index_miss_handler_global, None);
    assert_eq!(d.newindex_miss_handler_global, None);
}

#[test]
fn button_end_to_end() {
    let mut s = ScriptState::new();
    let g = s.create_function(FuncTag::Host(101));
    let st = s.create_function(FuncTag::Host(102));
    let b = Class::new(&mut s, None, None, None);
    let b = b.property(
        &mut s,
        Property::new("label".to_owned(), Some(g), Some(st)),
    );
    let b = b.save_class(&mut s, &"__button_class".to_owned());
    let built = b.build();
    let button = button_class(&s).expect("button class was published");
    assert_eq!(button.table_id(), built.table_id());

    // Reading `instance.label` directs the host to invoke g exactly once.
    let mut getter_calls: usize = 0;
    let read = read_field(&s, &button, &"label".to_owned(), MissPolicy::Fail);
    let value = match read {
        ReadOutcome::CallGetter(f) => {
            assert_eq!(f, g);
            getter_calls += 1;
            LuaValue::Str("the label".to_owned())
        }
        other => panic!("expected a getter directive, got {:?}", other),
    };
    assert_eq!(getter_calls, 1);
    assert_eq!(value, LuaValue::Str("the label".to_owned()));

    // Writing `instance.label = "x"` directs the host to invoke the setter
    // exactly once with the instance and the value.
    assert_eq!(
        write_field(&s, &button, &"label".to_owned(), MissPolicy::Fail),
        WriteOutcome::CallSetter(st)
    );

    // A missing field reaches the default read-miss entry exactly once and
    // fails with the explicit not-implemented error.
    match resolve_read(&s, &button, &"missing_field".to_owned()) {
        ReadResolution::Miss(f) => assert_eq!(s.func_tag(f), FuncTag::IndexMissDefault),
        other => panic!("expected a miss, got {:?}", other),
    }
    assert_eq!(
        read_field(&s, &button, &"missing_field".to_owned(), MissPolicy::Fail),
        ReadOutcome::Failed(AccessError::NotImplemented)
    );
}

#[test]
fn lookup_of_unbound_name_is_not_found() {
    let s = ScriptState::new();
    match lookup_well_known(&s, &"nobody".to_owned()) {
        Err(AccessError::ClassNotFound) => {}
        other => panic!("expected not-found, got {:?}", other.map(|c| c.table_id())),
    }
}

#[test]
fn lookup_of_malformed_values_is_rejected() {
    let mut s = ScriptState::new();
    s.global_set("__a_string_class".to_owned(), LuaValue::Str("not a class".to_owned()));
    match lookup_well_known(&s, &"a_string".to_owned()) {
        Err(AccessError::MalformedClass) => {}
        other => panic!("expected malformed, got {:?}", other.map(|c| c.table_id())),
    }
    // A bare table without the class shape is rejected too.
    let bare = s.create_table();
    s.global_set("__bare_class".to_owned(), LuaValue::Table(bare));
    match lookup_well_known(&s, &"bare".to_owned()) {
        Err(AccessError::MalformedClass) => {}
        other => panic!("expected malformed, got {:?}", other.map(|c| c.table_id())),
    }
    // A table index out of range is rejected rather than trusted.
    s.global_set("__dangling_class".to_owned(), LuaValue::Table(9999));
    match lookup_well_known(&s, &"dangling".to_owned()) {
        Err(AccessError::MalformedClass) => {}
        other => panic!("expected malformed, got {:?}", other.map(|c| c.table_id())),
    }
}

#[test]
fn table_store_is_last_write_wins() {
    let mut s = ScriptState::new();
    let t = s.create_table();
    s.table_set(t, "k".to_owned(), LuaValue::Integer(1));
    s.table_set(t, "k".to_owned(), LuaValue::Integer(2));
    assert_eq!(s.table_get(t, &"k".to_owned()), Some(LuaValue::Integer(2)));
    assert_eq!(s.table_get(t, &"other".to_owned()), None);
    s.global_set("g".to_owned(), LuaValue::Boolean(true));
    assert_eq!(s.global_get(&"g".to_owned()), Some(LuaValue::Boolean(true)));
}

#[test]
fn class_handle_converts_to_its_table_value() {
    let mut s = ScriptState::new();
    let c = fresh_class(&mut s);
    assert_eq!(c.to_lua(), LuaValue::Table(c.table_id()));
}
