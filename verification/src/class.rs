//! Per-class metadata, the staged construction protocol for classes, and
//! the registry lookup of published classes.
//!
//! A class handle is a table in the modelled runtime state carrying the
//! fields `data` (the metadata record), `properties` (the ordered property
//! table) and a metatable holding the method dispatch table, the `signals`
//! namespace and the object layer's `__index` trap.

use vstd::prelude::*;
use vstd::string::StringExecFns;
use crate::value::{LuaValue, ValueAbs, FuncTag, AccessError};
use crate::property::{Property, PropAbs};
use crate::state::{ScriptState, StateAbs, hash_get, opt_str_view};

verus! {

/// A native factory producing a new instance, identified by a host tag.
pub type Allocator = u64;

/// A native destructor, identified by a host tag.
pub type Collector = u64;

/// A native predicate "is this native value a valid instance of this
/// class", identified by a host tag.
pub type Checker = u64;

/// Abstraction of a [`ClassState`].
#[verifier::ext_equal]
pub struct ClassAbs {
    pub name: Seq<char>,
    pub signals_global: Option<Seq<char>>,
    pub parent: Option<Seq<char>>,
    pub allocator: Option<Allocator>,
    pub collector: Option<Collector>,
    pub checker: Option<Checker>,
    pub instances: u32,
    pub index_miss_handler_global: Option<Seq<char>>,
    pub newindex_miss_handler_global: Option<Seq<char>>,
}

/// The per-class metadata record.
///
/// The `*_global` fields are indirect handles: global-namespace keys under
/// which the class's signal table and miss handlers can be re-fetched at
/// time of use, so that this durable record never holds a direct reference
/// to a runtime-scoped value. A handle is either absent or must be
/// re-resolved through the global namespace every time it is used.
#[derive(Debug)]
pub struct ClassState {
    pub name: String,
    /// The global key that corresponds to this class' signal list.
    pub signals_global: Option<String>,
    pub parent: Option<String>,
    pub allocator: Option<Allocator>,
    pub collector: Option<Collector>,
    pub checker: Option<Checker>,
    pub instances: u32,
    /// The global key that corresponds to this class' read-miss handler.
    pub index_miss_handler_global: Option<String>,
    /// The global key that corresponds to this class' write-miss handler.
    pub newindex_miss_handler_global: Option<String>,
}

impl View for ClassState {
    type V = ClassAbs;

    open spec fn view(&self) -> ClassAbs {
        ClassAbs {
            name: self.name@,
            signals_global: opt_str_view(self.signals_global),
            parent: opt_str_view(self.parent),
            allocator: self.allocator,
            collector: self.collector,
            checker: self.checker,
            instances: self.instances,
            index_miss_handler_global: opt_str_view(self.index_miss_handler_global),
            newindex_miss_handler_global: opt_str_view(self.newindex_miss_handler_global),
        }
    }
}

/// The metadata record of a class that was never named, parented, hooked or
/// instantiated.
pub open spec fn default_class_abs() -> ClassAbs {
    ClassAbs {
        name: Seq::empty(),
        signals_global: None,
        parent: None,
        allocator: None,
        collector: None,
        checker: None,
        instances: 0,
        index_miss_handler_global: None,
        newindex_miss_handler_global: None,
    }
}

/// A fresh metadata record carrying the three construction hooks.
pub open spec fn hook_class_abs(
    allocator: Option<Allocator>,
    collector: Option<Collector>,
    checker: Option<Checker>,
) -> ClassAbs {
    ClassAbs { allocator, collector, checker, ..default_class_abs() }
}

impl Default for ClassState {
    /// A fresh record: empty name, no parent, no hooks, no indirect
    /// handles, zero live instances.
    fn default() -> (c: ClassState)
        ensures
            c@ == default_class_abs(),
    {
        let c = ClassState {
            name: String::new(),
            signals_global: None,
            parent: None,
            allocator: None,
            collector: None,
            checker: None,
            instances: 0,
            index_miss_handler_global: None,
            newindex_miss_handler_global: None,
        };
        proof {
            assert(c@ =~= default_class_abs());
        }
        c
    }
}

/// The table key under which a class stores its metadata record.
pub open spec fn data_key() -> Seq<char> {
    "data"@
}

/// The table key under which a class stores its property table.
pub open spec fn properties_key() -> Seq<char> {
    "properties"@
}

/// The table key under which a class stores its default read-miss entry.
pub open spec fn index_miss_key() -> Seq<char> {
    "index_miss_property"@
}

/// The table key under which a class stores its default write-miss entry.
pub open spec fn newindex_miss_key() -> Seq<char> {
    "newindex_miss_property"@
}

/// The metatable key of the signals namespace.
pub open spec fn signals_key() -> Seq<char> {
    "signals"@
}

/// The metatable key of the field-access trap.
pub open spec fn dunder_index_key() -> Seq<char> {
    "__index"@
}

/// The fixed keys a class table uses are pairwise distinct.
pub proof fn lemma_class_keys_distinct()
    ensures
        data_key() != index_miss_key(),
        data_key() != newindex_miss_key(),
        data_key() != properties_key(),
        index_miss_key() != newindex_miss_key(),
        index_miss_key() != properties_key(),
        newindex_miss_key() != properties_key(),
        signals_key() != dunder_index_key(),
{
    reveal_strlit("data");
    reveal_strlit("index_miss_property");
    reveal_strlit("newindex_miss_property");
    reveal_strlit("properties");
    reveal_strlit("signals");
    reveal_strlit("__index");
    assert(data_key().len() == 4);
    assert(properties_key().len() == 10);
    assert(index_miss_key().len() == 19);
    assert(newindex_miss_key().len() == 22);
    assert(signals_key()[0] == 's');
    assert(dunder_index_key()[0] == '_');
}

/// Table `t` stores a metadata record index in range under `data`.
pub open spec fn has_class_data(s: StateAbs, t: usize) -> bool {
    match hash_get(s.tables[t as int].hash, data_key()) {
        Some(ValueAbs::ClassData(d)) => (d as int) < s.classes.len(),
        _ => false,
    }
}

/// The metadata record index table `t` stores under `data`.
pub open spec fn class_data_of(s: StateAbs, t: usize) -> usize {
    match hash_get(s.tables[t as int].hash, data_key()) {
        Some(ValueAbs::ClassData(d)) => d,
        _ => 0,
    }
}

/// Table `t` stores a distinct table index in range under `properties`.
pub open spec fn has_props_table(s: StateAbs, t: usize) -> bool {
    match hash_get(s.tables[t as int].hash, properties_key()) {
        Some(ValueAbs::Table(p)) => 0 < p && (p as int) < s.tables.len() && p != t,
        _ => false,
    }
}

/// The property-table index table `t` stores under `properties`.
pub open spec fn props_table_of(s: StateAbs, t: usize) -> usize {
    match hash_get(s.tables[t as int].hash, properties_key()) {
        Some(ValueAbs::Table(p)) => p,
        _ => 0,
    }
}

/// Table `t` carries a metatable distinct from itself, from its property
/// table and from the global namespace.
pub open spec fn has_meta(s: StateAbs, t: usize) -> bool {
    match s.tables[t as int].meta {
        Some(m) => 0 < m && (m as int) < s.tables.len() && m != t && m != props_table_of(s, t),
        None => false,
    }
}

/// The metatable index of table `t`.
pub open spec fn meta_of(s: StateAbs, t: usize) -> usize {
    match s.tables[t as int].meta {
        Some(m) => m,
        None => 0,
    }
}

/// The published-class shape: a `data` record, a `properties` table and a
/// metatable, all in range and distinct from the global namespace.
pub open spec fn class_shape(s: StateAbs, t: usize) -> bool {
    &&& 0 < t
    &&& (t as int) < s.tables.len()
    &&& has_class_data(s, t)
    &&& has_props_table(s, t)
    &&& has_meta(s, t)
}

/// `v` is a property-record reference in range.
pub open spec fn is_prop_ref(s: StateAbs, v: ValueAbs) -> bool {
    match v {
        ValueAbs::Prop(pid) => (pid as int) < s.props.len(),
        _ => false,
    }
}

/// Every entry of a property table's array part is a valid property
/// record reference.
pub open spec fn props_arr_valid(s: StateAbs, arr: Seq<ValueAbs>) -> bool {
    forall|i: int| 0 <= i < arr.len() ==> is_prop_ref(s, #[trigger] arr[i])
}

/// Full well-formedness of a class table: the published shape, plus a
/// property table whose entries are all valid records.
pub open spec fn class_wf(s: StateAbs, t: usize) -> bool {
    &&& class_shape(s, t)
    &&& props_arr_valid(s, s.tables[props_table_of(s, t) as int].arr)
}

/// `v` holds a function in range whose tag is `tag`.
pub open spec fn is_func_tagged(s: StateAbs, v: Option<ValueAbs>, tag: FuncTag) -> bool {
    match v {
        Some(ValueAbs::Function(f)) => (f as int) < s.funcs.len() && s.funcs[f as int] == tag,
        _ => false,
    }
}

/// What [`Class::new`] builds: a well-formed class whose metadata record
/// carries exactly the given hooks, whose property table is empty, whose
/// miss-handler fields hold the bridge's default entry points, and whose
/// metatable carries the object layer's trap and a signals namespace.
pub open spec fn built_class(
    s: StateAbs,
    t: usize,
    allocator: Option<Allocator>,
    collector: Option<Collector>,
    checker: Option<Checker>,
) -> bool {
    &&& class_wf(s, t)
    &&& s.classes[class_data_of(s, t) as int] == hook_class_abs(allocator, collector, checker)
    &&& s.tables[props_table_of(s, t) as int].arr.len() == 0
    &&& is_func_tagged(
        s,
        hash_get(s.tables[t as int].hash, index_miss_key()),
        FuncTag::IndexMissDefault,
    )
    &&& is_func_tagged(
        s,
        hash_get(s.tables[t as int].hash, newindex_miss_key()),
        FuncTag::NewindexMissDefault,
    )
    &&& is_func_tagged(
        s,
        hash_get(s.tables[meta_of(s, t) as int].hash, dunder_index_key()),
        FuncTag::ObjectIndex,
    )
    &&& (match hash_get(s.tables[meta_of(s, t) as int].hash, signals_key()) {
        Some(ValueAbs::Table(g)) => (g as int) < s.tables.len(),
        _ => false,
    })
}

/// A handle to a class table in the runtime state.
#[derive(Debug)]
pub struct Class {
    table: usize,
}

impl View for Class {
    type V = usize;

    closed spec fn view(&self) -> usize {
        self.table
    }
}

/// The staged-construction protocol over a fresh class handle: attach
/// methods and properties, publish under a global name, finalize.
#[derive(Debug)]
pub struct ClassBuilder(Class);

impl View for ClassBuilder {
    type V = usize;

    closed spec fn view(&self) -> usize {
        self.0@
    }
}

/// Effect of attaching one method: exactly the metatable's entry under the
/// method's name changes, to the given function.
pub open spec fn method_step(
    s1: StateAbs,
    s2: StateAbs,
    t: usize,
    name: Seq<char>,
    meth: usize,
) -> bool {
    let m = meta_of(s1, t);
    &&& s2.tables.len() == s1.tables.len()
    &&& (forall|t2: int|
        0 <= t2 < s1.tables.len() && t2 != m as int ==> s2.tables[t2] == s1.tables[t2])
    &&& s2.tables[m as int].arr == s1.tables[m as int].arr
    &&& s2.tables[m as int].meta == s1.tables[m as int].meta
    &&& (forall|k2: Seq<char>|
        #[trigger] hash_get(s2.tables[m as int].hash, k2) == (if k2 == name {
            Some(ValueAbs::Function(meth))
        } else {
            hash_get(s1.tables[m as int].hash, k2)
        }))
    &&& s2.funcs == s1.funcs
    &&& s2.classes == s1.classes
    &&& s2.props == s1.props
}

/// Effect of appending one property: the record is appended to the record
/// arena and a reference to it to the property table, in insertion order;
/// nothing else changes.
pub open spec fn property_step(s1: StateAbs, s2: StateAbs, t: usize, prop: PropAbs) -> bool {
    let p = props_table_of(s1, t);
    &&& s2.props == s1.props.push(prop)
    &&& s2.tables.len() == s1.tables.len()
    &&& (forall|t2: int|
        0 <= t2 < s1.tables.len() && t2 != p as int ==> s2.tables[t2] == s1.tables[t2])
    &&& s2.tables[p as int].hash == s1.tables[p as int].hash
    &&& s2.tables[p as int].meta == s1.tables[p as int].meta
    &&& s2.tables[p as int].arr == s1.tables[p as int].arr.push(
        ValueAbs::Prop(s1.props.len() as usize),
    )
    &&& s2.funcs == s1.funcs
    &&& s2.classes == s1.classes
}

/// Effect of publishing under `name`: exactly the global namespace's entry
/// under `name` changes, to the class table itself.
pub open spec fn save_step(s1: StateAbs, s2: StateAbs, t: usize, name: Seq<char>) -> bool {
    &&& s2.tables.len() == s1.tables.len()
    &&& (forall|t2: int| 0 < t2 < s1.tables.len() ==> s2.tables[t2] == s1.tables[t2])
    &&& s2.tables[0].arr == s1.tables[0].arr
    &&& s2.tables[0].meta == s1.tables[0].meta
    &&& (forall|k2: Seq<char>|
        #[trigger] hash_get(s2.tables[0].hash, k2) == (if k2 == name {
            Some(ValueAbs::Table(t))
        } else {
            hash_get(s1.tables[0].hash, k2)
        }))
    &&& s2.funcs == s1.funcs
    &&& s2.classes == s1.classes
    &&& s2.props == s1.props
}

impl ClassBuilder {
    /// Attaches `meth` under `name` in the handle's dispatch (meta) table.
    ///
    /// A handle without a metatable is a fatal precondition violation in
    /// the source design; here the precondition excludes it.
    pub fn method(self, s: &mut ScriptState, name: String, meth: usize) -> (r: ClassBuilder)
        requires
            class_shape(old(s)@, self@),
        ensures
            r@ == self@,
            method_step(old(s)@, final(s)@, self@, name@, meth),
            class_shape(final(s)@, self@),
            class_wf(old(s)@, self@) ==> class_wf(final(s)@, self@),
    {
        let t = self.0.table;
        let m = match s.get_meta(t) {
            Some(m) => m,
            None => vstd::pervasive::unreached(),
        };
        s.table_set(m, name, LuaValue::Function(meth));
        self
    }

    /// Appends `prop` to the class's property table at position `len + 1`,
    /// preserving insertion order. Duplicate names are permitted; callers
    /// are responsible for not shadowing.
    pub fn property(self, s: &mut ScriptState, prop: Property) -> (r: ClassBuilder)
        requires
            class_wf(old(s)@, self@),
        ensures
            r@ == self@,
            property_step(old(s)@, final(s)@, self@, prop@),
            class_wf(final(s)@, self@),
    {
        let t = self.0.table;
        let p = match s.table_get(t, &"properties".to_owned()) {
            Some(LuaValue::Table(p)) => p,
            _ => vstd::pervasive::unreached(),
        };
        let pid = s.create_prop(prop);
        s.arr_append(p, LuaValue::Prop(pid));
        proof {
            let s1 = old(s)@;
            let s2 = s@;
            let pi = props_table_of(s1, self@) as int;
            assert forall|i: int| 0 <= i < s2.tables[pi].arr.len() implies is_prop_ref(
                s2,
                #[trigger] s2.tables[pi].arr[i],
            ) by {
                if i < s1.tables[pi].arr.len() {
                    assert(s2.tables[pi].arr[i] == s1.tables[pi].arr[i]);
                    assert(is_prop_ref(s1, s1.tables[pi].arr[i]));
                }
            }
        }
        self
    }

    /// Publishes the class under `name` in the global namespace, then
    /// re-reads it back: the handle returned and the globally visible
    /// value are the same underlying table, not a copy.
    pub fn save_class(self, s: &mut ScriptState, name: &String) -> (r: ClassBuilder)
        requires
            class_shape(old(s)@, self@),
        ensures
            r@ == self@,
            save_step(old(s)@, final(s)@, self@, name@),
            class_shape(final(s)@, self@),
            class_wf(old(s)@, self@) ==> class_wf(final(s)@, self@),
    {
        let t = self.0.table;
        s.global_set(name.clone(), LuaValue::Table(t));
        let t2 = match s.global_get(name) {
            Some(LuaValue::Table(t2)) => t2,
            _ => vstd::pervasive::unreached(),
        };
        ClassBuilder(Class { table: t2 })
    }

    /// Terminal step: returns the finished class handle.
    pub fn build(self) -> (c: Class)
        ensures
            c@ == self@,
    {
        self.0
    }
}

impl Class {
    /// Allocates a fresh class: a new metadata record holding the three
    /// hooks and zero instances, an empty property table, the default
    /// miss-handler entry points, and a metatable wired with the object
    /// layer's field-access trap and a fresh signals namespace.
    pub fn new(
        s: &mut ScriptState,
        allocator: Option<Allocator>,
        collector: Option<Collector>,
        checker: Option<Checker>,
    ) -> (b: ClassBuilder)
        requires
            old(s)@.tables.len() > 0,
        ensures
            b@ as int == old(s)@.tables.len(),
            built_class(final(s)@, b@, allocator, collector, checker),
            final(s)@.tables.len() == old(s)@.tables.len() + 4,
            forall|t2: int|
                0 <= t2 < old(s)@.tables.len() ==> final(s)@.tables[t2] == old(s)@.tables[t2],
            final(s)@.funcs.len() == old(s)@.funcs.len() + 3,
            forall|g2: int|
                0 <= g2 < old(s)@.funcs.len() ==> final(s)@.funcs[g2] == old(s)@.funcs[g2],
            final(s)@.classes.len() == old(s)@.classes.len() + 1,
            forall|c2: int|
                0 <= c2 < old(s)@.classes.len() ==> final(s)@.classes[c2] == old(s)@.classes[c2],
            final(s)@.props == old(s)@.props,
    {
        let mut class = ClassState::default();
        class.allocator = allocator;
        class.collector = collector;
        class.checker = checker;
        proof {
            assert(class@ =~= hook_class_abs(allocator, collector, checker));
        }
        let t = s.create_table();
        let d = s.create_class_data(class);
        s.table_set(t, "data".to_owned(), LuaValue::ClassData(d));
        let fi = s.create_function(FuncTag::IndexMissDefault);
        s.table_set(t, "index_miss_property".to_owned(), LuaValue::Function(fi));
        let fn_ = s.create_function(FuncTag::NewindexMissDefault);
        s.table_set(t, "newindex_miss_property".to_owned(), LuaValue::Function(fn_));
        let p = s.create_table();
        s.table_set(t, "properties".to_owned(), LuaValue::Table(p));
        let m = s.create_table();
        let sig = s.create_table();
        s.table_set(m, "signals".to_owned(), LuaValue::Table(sig));
        let fo = s.create_function(FuncTag::ObjectIndex);
        s.table_set(m, "__index".to_owned(), LuaValue::Function(fo));
        s.set_meta(t, m);
        proof {
            lemma_class_keys_distinct();
        }
        ClassBuilder(Class { table: t })
    }

    /// The index of this class's table in the runtime state.
    pub fn table_id(&self) -> (t: usize)
        ensures
            t == self@,
    {
        self.table
    }

    /// The class handle as a runtime value: the table itself.
    pub fn to_lua(&self) -> (v: LuaValue)
        ensures
            v@ == ValueAbs::Table(self@),
    {
        LuaValue::Table(self.table)
    }

    /// The class's property table (its index in the store).
    pub fn properties(&self, s: &ScriptState) -> (p: usize)
        requires
            class_shape(s@, self@),
        ensures
            p == props_table_of(s@, self@),
    {
        match s.table_get(self.table, &"properties".to_owned()) {
            Some(LuaValue::Table(p)) => p,
            _ => vstd::pervasive::unreached(),
        }
    }

    /// The class's metadata record.
    pub fn class_data<'a>(&self, s: &'a ScriptState) -> (c: &'a ClassState)
        requires
            class_shape(s@, self@),
        ensures
            c@ == s@.classes[class_data_of(s@, self@) as int],
    {
        match s.table_get(self.table, &"data".to_owned()) {
            Some(LuaValue::ClassData(d)) => s.class_at(d),
            _ => vstd::pervasive::unreached(),
        }
    }

    /// The class's type-checker hook, exposed unchanged from its metadata
    /// record.
    pub fn checker(&self, s: &ScriptState) -> (r: Option<Checker>)
        requires
            class_shape(s@, self@),
        ensures
            r == s@.classes[class_data_of(s@, self@) as int].checker,
    {
        self.class_data(s).checker
    }
}

/// View of a registry lookup's result: the table index of the handle.
pub open spec fn lookup_view(r: Result<Class, AccessError>) -> Result<usize, AccessError> {
    match r {
        Ok(c) => Ok(c@),
        Err(e) => Err(e),
    }
}

/// What a registry lookup of `name` yields: the published table if it has
/// the class shape, a distinct error if the name is unbound or the value
/// is malformed.
pub open spec fn lookup_spec(s: StateAbs, name: Seq<char>) -> Result<usize, AccessError> {
    match hash_get(s.tables[0].hash, name) {
        Some(ValueAbs::Table(t)) => if class_shape(s, t) {
            Ok(t)
        } else {
            Err(AccessError::MalformedClass)
        },
        Some(_) => Err(AccessError::MalformedClass),
        None => Err(AccessError::ClassNotFound),
    }
}

/// The global-namespace key under which the well-known class `name` is
/// published.
pub open spec fn well_known_key_spec(name: Seq<char>) -> Seq<char> {
    "__"@ + name + "_class"@
}

/// Builds the global key of a well-known class name.
fn well_known_key(name: &String) -> (k: String)
    ensures
        k@ == well_known_key_spec(name@),
{
    let mut k: String = "__".to_owned();
    k.append(name.as_str());
    k.append("_class");
    k
}

/// Retrieves the class published under the well-known name `name` (global
/// key `__<name>_class`), validating the published-class shape (`data`,
/// `properties`, metatable) rather than trusting the caller.
pub fn lookup_well_known(s: &ScriptState, name: &String) -> (r: Result<Class, AccessError>)
    requires
        s@.tables.len() > 0,
    ensures
        lookup_view(r) == lookup_spec(s@, well_known_key_spec(name@)),
{
    let key = well_known_key(name);
    let t = match s.global_get(&key) {
        Some(LuaValue::Table(t)) => t,
        Some(_) => {
            return Err(AccessError::MalformedClass);
        },
        None => {
            return Err(AccessError::ClassNotFound);
        },
    };
    if !(0 < t && t < s.tables_len()) {
        return Err(AccessError::MalformedClass);
    }
    let ok_data = match s.table_get(t, &"data".to_owned()) {
        Some(LuaValue::ClassData(d)) => d < s.classes_len(),
        _ => false,
    };
    let pidx = match s.table_get(t, &"properties".to_owned()) {
        Some(LuaValue::Table(p)) => p,
        _ => 0,
    };
    let ok_props = 0 < pidx && pidx < s.tables_len() && pidx != t;
    let ok_meta = match s.get_meta(t) {
        Some(m) => 0 < m && m < s.tables_len() && m != t && m != pidx,
        None => false,
    };
    if ok_data && ok_props && ok_meta {
        Ok(Class { table: t })
    } else {
        Err(AccessError::MalformedClass)
    }
}

/// Retrieves the well-known button class published under
/// `__button_class`.
pub fn button_class(s: &ScriptState) -> (r: Result<Class, AccessError>)
    requires
        s@.tables.len() > 0,
    ensures
        lookup_view(r) == lookup_spec(s@, "__button_class"@),
{
    let r = lookup_well_known(s, &"button".to_owned());
    proof {
        reveal_strlit("__");
        reveal_strlit("button");
        reveal_strlit("_class");
        reveal_strlit("__button_class");
        assert(well_known_key_spec("button"@) =~= "__button_class"@);
    }
    r
}

/// One property append preserves well-formedness and the identity of the
/// property table.
pub proof fn lemma_property_step_wf(s1: StateAbs, s2: StateAbs, t: usize, pr: PropAbs)
    requires
        class_wf(s1, t),
        property_step(s1, s2, t, pr),
    ensures
        class_wf(s2, t),
        props_table_of(s2, t) == props_table_of(s1, t),
        class_data_of(s2, t) == class_data_of(s1, t),
{
    let p = props_table_of(s1, t);
    assert(s2.tables[t as int] == s1.tables[t as int]);
    assert forall|i: int| 0 <= i < s2.tables[p as int].arr.len() implies is_prop_ref(
        s2,
        #[trigger] s2.tables[p as int].arr[i],
    ) by {
        if i < s1.tables[p as int].arr.len() {
            assert(s2.tables[p as int].arr[i] == s1.tables[p as int].arr[i]);
            assert(is_prop_ref(s1, s1.tables[p as int].arr[i]));
        }
    }
}

/// A sequence of property appends, one [`property_step`] per record of
/// `ps`, in order.
pub open spec fn property_chain(s1: StateAbs, s2: StateAbs, t: usize, ps: Seq<PropAbs>) -> bool
    decreases ps.len(),
{
    if ps.len() == 0 {
        s1 == s2
    } else {
        exists|mid: StateAbs|
            #[trigger] property_step(s1, mid, t, ps[0]) && property_chain(
                mid,
                s2,
                t,
                ps.drop_first(),
            )
    }
}

/// Law: after any sequence of `property` appends, the table has grown by
/// exactly the appended records, the earlier entries are untouched, and
/// each new position references the record appended at that step — the
/// records are kept in call order.
pub proof fn lemma_property_chain_order(s1: StateAbs, s2: StateAbs, t: usize, ps: Seq<PropAbs>)
    requires
        class_wf(s1, t),
        property_chain(s1, s2, t, ps),
    ensures
        class_wf(s2, t),
        props_table_of(s2, t) == props_table_of(s1, t),
        s2.props == s1.props + ps,
        s2.tables[props_table_of(s1, t) as int].arr.len() == s1.tables[props_table_of(
            s1,
            t,
        ) as int].arr.len() + ps.len(),
        forall|j: int|
            0 <= j < s1.tables[props_table_of(s1, t) as int].arr.len() ==> s2.tables[props_table_of(
                s1,
                t,
            ) as int].arr[j] == s1.tables[props_table_of(s1, t) as int].arr[j],
        forall|j: int|
            s1.tables[props_table_of(s1, t) as int].arr.len() <= j < s1.tables[props_table_of(
                s1,
                t,
            ) as int].arr.len() + ps.len() ==> #[trigger] s2.tables[props_table_of(
                s1,
                t,
            ) as int].arr[j] == ValueAbs::Prop(
                (s1.props.len() + (j - s1.tables[props_table_of(s1, t) as int].arr.len())) as usize,
            ),
    decreases ps.len(),
{
    let p = props_table_of(s1, t);
    if ps.len() == 0 {
        assert(s2.props =~= s1.props + ps);
    } else {
        let mid = choose|mid: StateAbs|
            #[trigger] property_step(s1, mid, t, ps[0]) && property_chain(
                mid,
                s2,
                t,
                ps.drop_first(),
            );
        lemma_property_step_wf(s1, mid, t, ps[0]);
        lemma_property_chain_order(mid, s2, t, ps.drop_first());
        assert(s2.props =~= s1.props + ps);
        let n1 = s1.tables[p as int].arr.len() as int;
        assert(mid.tables[p as int].arr.len() == n1 + 1);
        assert forall|j: int|
            n1 <= j < n1 + ps.len() implies #[trigger] s2.tables[p as int].arr[j] == ValueAbs::Prop(
            (s1.props.len() + (j - n1)) as usize,
        ) by {
            let j = j - n1;
            if j == 0 {
                assert(s2.tables[p as int].arr[n1] == mid.tables[p as int].arr[n1]);
                assert(mid.tables[p as int].arr[n1] == ValueAbs::Prop(s1.props.len() as usize));
            } else {
                assert(s2.tables[p as int].arr[(n1 + 1) + (j - 1)] == ValueAbs::Prop(
                    (mid.props.len() + (j - 1)) as usize,
                ));
            }
        }
    }
}

/// Law: publishing a class and then looking its name up yields the very
/// table that was built — the registry entry aliases the handle, it is
/// not a copy, so a mutation through either is visible through the other.
pub proof fn lemma_publish_then_lookup(s1: StateAbs, s2: StateAbs, t: usize, name: Seq<char>)
    requires
        class_shape(s1, t),
        save_step(s1, s2, t, name),
    ensures
        lookup_spec(s2, name) == Ok::<usize, AccessError>(t),
{
    assert(hash_get(s2.tables[0].hash, name) == Some(ValueAbs::Table(t)));
    assert(s2.tables[t as int] == s1.tables[t as int]);
    assert(class_shape(s2, t));
}

/// Law: a method attached after publication but before any lookup is
/// still visible through the class subsequently retrieved by name, since
/// the published value and the handle are the same object.
pub proof fn lemma_late_method_visible(
    s1: StateAbs,
    s2: StateAbs,
    t: usize,
    name: Seq<char>,
    mname: Seq<char>,
    meth: usize,
)
    requires
        class_shape(s1, t),
        hash_get(s1.tables[0].hash, name) == Some(ValueAbs::Table(t)),
        method_step(s1, s2, t, mname, meth),
    ensures
        lookup_spec(s2, name) == Ok::<usize, AccessError>(t),
        hash_get(s2.tables[meta_of(s2, t) as int].hash, mname) == Some(ValueAbs::Function(meth)),
{
    let m = meta_of(s1, t);
    assert(s2.tables[0] == s1.tables[0]);
    assert(s2.tables[t as int] == s1.tables[t as int]);
    assert(meta_of(s2, t) == m);
    assert(class_shape(s2, t));
}

} // verus!
