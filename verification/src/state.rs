//! The modelled scripting-runtime state: a table store with reference
//! semantics, plus the arenas for functions, class records and property
//! records.
//!
//! Tables are reference-like: a [`crate::value::LuaValue::Table`] holds an
//! index into the store, so two handles carrying the same index alias the
//! same table and mutations through one are visible through the other.
//! Table index `0` is the global namespace, created together with the
//! state.

use vstd::prelude::*;
use crate::value::{LuaValue, ValueAbs, FuncTag};
use crate::property::{Property, PropAbs};
use crate::class::{ClassState, ClassAbs};

verus! {

/// Abstraction of one table: the string-keyed part, the integer-keyed
/// (array) part, and the optional metatable index.
#[verifier::ext_equal]
pub struct TableAbs {
    pub hash: Seq<(Seq<char>, ValueAbs)>,
    pub arr: Seq<ValueAbs>,
    pub meta: Option<usize>,
}

/// Abstraction of the whole runtime state.
#[verifier::ext_equal]
pub struct StateAbs {
    pub tables: Seq<TableAbs>,
    pub funcs: Seq<FuncTag>,
    pub classes: Seq<ClassAbs>,
    pub props: Seq<PropAbs>,
}

/// String-keyed lookup in a table's hash part: the value of the first
/// entry whose key matches, if any. [`ScriptState::table_set`] keeps keys
/// unique, so "first" is also "only" for tables touched through it.
pub open spec fn hash_get(h: Seq<(Seq<char>, ValueAbs)>, k: Seq<char>) -> Option<ValueAbs>
    decreases h.len(),
{
    if h.len() <= 0 {
        None
    } else if h[0].0 == k {
        Some(h[0].1)
    } else {
        hash_get(h.drop_first(), k)
    }
}

/// View of an optional runtime value.
pub open spec fn opt_val_view(o: Option<LuaValue>) -> Option<ValueAbs> {
    match o {
        Some(v) => Some(v@),
        None => None,
    }
}

/// View of an optional string.
pub open spec fn opt_str_view(o: Option<String>) -> Option<Seq<char>> {
    match o {
        Some(s) => Some(s@),
        None => None,
    }
}

/// A table with nothing in it.
pub open spec fn empty_table() -> TableAbs {
    TableAbs { hash: Seq::empty(), arr: Seq::empty(), meta: None }
}

/// One table of the store.
#[derive(Debug)]
pub struct TableData {
    pub hash: Vec<(String, LuaValue)>,
    pub arr: Vec<LuaValue>,
    pub meta: Option<usize>,
}

impl View for TableData {
    type V = TableAbs;

    open spec fn view(&self) -> TableAbs {
        TableAbs {
            hash: self.hash@.map_values(|p: (String, LuaValue)| (p.0@, p.1@)),
            arr: self.arr@.map_values(|v: LuaValue| v@),
            meta: self.meta,
        }
    }
}

/// The runtime state. Index `0` of the table store is the global
/// namespace.
#[derive(Debug)]
pub struct ScriptState {
    tables: Vec<TableData>,
    funcs: Vec<FuncTag>,
    classes: Vec<ClassState>,
    props: Vec<Property>,
}

impl View for ScriptState {
    type V = StateAbs;

    closed spec fn view(&self) -> StateAbs {
        StateAbs {
            tables: self.tables@.map_values(|t: TableData| t@),
            funcs: self.funcs@,
            classes: self.classes@.map_values(|c: ClassState| c@),
            props: self.props@.map_values(|p: Property| p@),
        }
    }
}

/// If the first key match in `h` is at position `i`, the lookup yields
/// that entry's value.
proof fn lemma_hash_get_at(h: Seq<(Seq<char>, ValueAbs)>, k: Seq<char>, i: int)
    requires
        0 <= i < h.len(),
        h[i].0 == k,
        forall|j: int| 0 <= j < i ==> h[j].0 != k,
    ensures
        hash_get(h, k) == Some(h[i].1),
    decreases i,
{
    if i > 0 {
        lemma_hash_get_at(h.drop_first(), k, i - 1);
    }
}

/// If no key in `h` matches, the lookup yields nothing.
proof fn lemma_hash_get_absent(h: Seq<(Seq<char>, ValueAbs)>, k: Seq<char>)
    requires
        forall|j: int| 0 <= j < h.len() ==> h[j].0 != k,
    ensures
        hash_get(h, k) == None::<ValueAbs>,
    decreases h.len(),
{
    if h.len() > 0 {
        lemma_hash_get_absent(h.drop_first(), k);
    }
}

/// Overwriting the value at position `i` leaves every other key's lookup
/// unchanged.
proof fn lemma_hash_get_update_other(
    h: Seq<(Seq<char>, ValueAbs)>,
    i: int,
    v: ValueAbs,
    k2: Seq<char>,
)
    requires
        0 <= i < h.len(),
        h[i].0 != k2,
    ensures
        hash_get(h.update(i, (h[i].0, v)), k2) == hash_get(h, k2),
    decreases i,
{
    let h2 = h.update(i, (h[i].0, v));
    if i == 0 {
        assert(h2.drop_first() =~= h.drop_first());
    } else {
        if h[0].0 == k2 {
        } else {
            lemma_hash_get_update_other(h.drop_first(), i - 1, v, k2);
            assert(h2.drop_first() =~= h.drop_first().update(
                i - 1,
                (h.drop_first()[i - 1].0, v),
            ));
        }
    }
}

/// Appending an entry affects only lookups of keys that were absent.
proof fn lemma_hash_get_push(
    h: Seq<(Seq<char>, ValueAbs)>,
    k: Seq<char>,
    v: ValueAbs,
    k2: Seq<char>,
)
    ensures
        hash_get(h.push((k, v)), k2) == (match hash_get(h, k2) {
            Some(x) => Some(x),
            None => if k2 == k {
                Some(v)
            } else {
                None
            },
        }),
    decreases h.len(),
{
    if h.len() == 0 {
        assert(h.push((k, v))[0] == (k, v));
        assert(h.push((k, v)).drop_first() =~= Seq::<(Seq<char>, ValueAbs)>::empty());
        assert(hash_get(Seq::<(Seq<char>, ValueAbs)>::empty(), k2) == None::<ValueAbs>);
    } else {
        lemma_hash_get_push(h.drop_first(), k, v, k2);
        assert(h.push((k, v)).drop_first() =~= h.drop_first().push((k, v)));
    }
}

/// First index in `h` whose key matches `k`, scanning from the front.
fn hash_find(h: &Vec<(String, LuaValue)>, k: &String) -> (r: Option<usize>)
    ensures
        match r {
            Some(i) => i < h@.len() && h@[i as int].0@ == k@ && (forall|j: int|
                0 <= j < i ==> h@[j].0@ != k@),
            None => forall|j: int| 0 <= j < h@.len() ==> h@[j].0@ != k@,
        },
{
    let n = h.len();
    let mut i: usize = 0;
    while i < n
        invariant
            i <= n,
            n == h@.len(),
            forall|j: int| 0 <= j < i ==> h@[j].0@ != k@,
        decreases n - i,
    {
        if h[i].0.eq(k) {
            return Some(i);
        }
        i += 1;
    }
    None
}

impl ScriptState {
    /// A fresh runtime state holding only the empty global namespace.
    pub fn new() -> (s: ScriptState)
        ensures
            s@.tables =~= seq![empty_table()],
            s@.funcs =~= Seq::<FuncTag>::empty(),
            s@.classes =~= Seq::<ClassAbs>::empty(),
            s@.props =~= Seq::<PropAbs>::empty(),
    {
        let mut tables: Vec<TableData> = Vec::new();
        tables.push(TableData { hash: Vec::new(), arr: Vec::new(), meta: None });
        let s = ScriptState { tables, funcs: Vec::new(), classes: Vec::new(), props: Vec::new() };
        proof {
            assert(s@.tables =~~= seq![empty_table()]);
            assert(s@.funcs =~= Seq::<FuncTag>::empty());
            assert(s@.classes =~= Seq::<ClassAbs>::empty());
            assert(s@.props =~= Seq::<PropAbs>::empty());
        }
        s
    }

    /// Creates a fresh empty table and returns its index.
    pub fn create_table(&mut self) -> (t: usize)
        ensures
            final(self)@.tables == old(self)@.tables.push(empty_table()),
            final(self)@.funcs == old(self)@.funcs,
            final(self)@.classes == old(self)@.classes,
            final(self)@.props == old(self)@.props,
            t as int == old(self)@.tables.len(),
    {
        let t = self.tables.len();
        self.tables.push(TableData { hash: Vec::new(), arr: Vec::new(), meta: None });
        proof {
            assert(self@.tables =~~= old(self)@.tables.push(empty_table()));
        }
        t
    }

    /// Registers a native function and returns its index.
    pub fn create_function(&mut self, tag: FuncTag) -> (f: usize)
        ensures
            final(self)@.funcs == old(self)@.funcs.push(tag),
            final(self)@.tables == old(self)@.tables,
            final(self)@.classes == old(self)@.classes,
            final(self)@.props == old(self)@.props,
            f as int == old(self)@.funcs.len(),
    {
        let f = self.funcs.len();
        self.funcs.push(tag);
        f
    }

    /// Stores a class metadata record and returns its index.
    pub fn create_class_data(&mut self, c: ClassState) -> (d: usize)
        ensures
            final(self)@.classes == old(self)@.classes.push(c@),
            final(self)@.tables == old(self)@.tables,
            final(self)@.funcs == old(self)@.funcs,
            final(self)@.props == old(self)@.props,
            d as int == old(self)@.classes.len(),
    {
        let d = self.classes.len();
        self.classes.push(c);
        proof {
            assert(self@.classes =~~= old(self)@.classes.push(self.classes@[d as int]@));
        }
        d
    }

    /// Stores a property record and returns its index.
    pub fn create_prop(&mut self, p: Property) -> (pid: usize)
        ensures
            final(self)@.props == old(self)@.props.push(p@),
            final(self)@.tables == old(self)@.tables,
            final(self)@.funcs == old(self)@.funcs,
            final(self)@.classes == old(self)@.classes,
            pid as int == old(self)@.props.len(),
    {
        let pid = self.props.len();
        self.props.push(p);
        proof {
            assert(self@.props =~~= old(self)@.props.push(self.props@[pid as int]@));
        }
        pid
    }

    /// Sets `k` to `v` in table `t`'s string-keyed part, replacing any
    /// earlier binding of `k` (last-write-wins); nothing else changes.
    pub fn table_set(&mut self, t: usize, k: String, v: LuaValue)
        requires
            (t as int) < old(self)@.tables.len(),
        ensures
            final(self)@.tables.len() == old(self)@.tables.len(),
            forall|t2: int|
                0 <= t2 < old(self)@.tables.len() && t2 != t as int ==> final(self)@.tables[t2]
                    == old(self)@.tables[t2],
            final(self)@.tables[t as int].arr == old(self)@.tables[t as int].arr,
            final(self)@.tables[t as int].meta == old(self)@.tables[t as int].meta,
            forall|k2: Seq<char>|
                #[trigger] hash_get(final(self)@.tables[t as int].hash, k2) == (if k2 == k@ {
                    Some(v@)
                } else {
                    hash_get(old(self)@.tables[t as int].hash, k2)
                }),
            final(self)@.funcs == old(self)@.funcs,
            final(self)@.classes == old(self)@.classes,
            final(self)@.props == old(self)@.props,
    {
        let ghost old_h = self@.tables[t as int].hash;
        let ghost kv = k@;
        let found = hash_find(&self.tables[t].hash, &k);
        match found {
            Some(i) => {
                self.tables[t].hash[i].1 = v;
                proof {
                    assert(self@.tables[t as int].hash =~~= old_h.update(
                        i as int,
                        (old_h[i as int].0, self.tables@[t as int].hash@[i as int].1@),
                    ));
                    let new_h = self@.tables[t as int].hash;
                    assert forall|k2: Seq<char>|
                        #[trigger] hash_get(new_h, k2) == (if k2 == kv {
                            Some(new_h[i as int].1)
                        } else {
                            hash_get(old_h, k2)
                        }) by {
                        if k2 == kv {
                            lemma_hash_get_at(new_h, k2, i as int);
                        } else {
                            lemma_hash_get_update_other(old_h, i as int, new_h[i as int].1, k2);
                        }
                    }
                    assert forall|t2: int|
                        0 <= t2 < old(self)@.tables.len() && t2 != t as int implies self@.tables[t2]
                        == old(self)@.tables[t2] by {}
                }
            },
            None => {
                self.tables[t].hash.push((k, v));
                proof {
                    assert(self@.tables[t as int].hash =~~= old_h.push(
                        (kv, self.tables@[t as int].hash@[old_h.len() as int].1@),
                    ));
                    let new_h = self@.tables[t as int].hash;
                    let nv = new_h[old_h.len() as int].1;
                    lemma_hash_get_absent(old_h, kv);
                    assert forall|k2: Seq<char>|
                        #[trigger] hash_get(new_h, k2) == (if k2 == kv {
                            Some(nv)
                        } else {
                            hash_get(old_h, k2)
                        }) by {
                        lemma_hash_get_push(old_h, kv, nv, k2);
                    }
                    assert forall|t2: int|
                        0 <= t2 < old(self)@.tables.len() && t2 != t as int implies self@.tables[t2]
                        == old(self)@.tables[t2] by {}
                }
            },
        }
    }

    /// Reads `k` from table `t`'s string-keyed part.
    pub fn table_get(&self, t: usize, k: &String) -> (r: Option<LuaValue>)
        requires
            (t as int) < self@.tables.len(),
        ensures
            opt_val_view(r) == hash_get(self@.tables[t as int].hash, k@),
    {
        let found = hash_find(&self.tables[t].hash, k);
        let ghost h = self@.tables[t as int].hash;
        match found {
            Some(i) => {
                proof {
                    lemma_hash_get_at(h, k@, i as int);
                }
                Some(self.tables[t].hash[i].1.clone())
            },
            None => {
                proof {
                    lemma_hash_get_absent(h, k@);
                }
                None
            },
        }
    }

    /// Appends `v` to table `t`'s array part (position `len + 1` in
    /// script terms); nothing else changes.
    pub fn arr_append(&mut self, t: usize, v: LuaValue)
        requires
            (t as int) < old(self)@.tables.len(),
        ensures
            final(self)@.tables.len() == old(self)@.tables.len(),
            forall|t2: int|
                0 <= t2 < old(self)@.tables.len() && t2 != t as int ==> final(self)@.tables[t2]
                    == old(self)@.tables[t2],
            final(self)@.tables[t as int].arr == old(self)@.tables[t as int].arr.push(v@),
            final(self)@.tables[t as int].hash == old(self)@.tables[t as int].hash,
            final(self)@.tables[t as int].meta == old(self)@.tables[t as int].meta,
            final(self)@.funcs == old(self)@.funcs,
            final(self)@.classes == old(self)@.classes,
            final(self)@.props == old(self)@.props,
    {
        self.tables[t].arr.push(v);
        proof {
            assert(self@.tables[t as int].arr =~~= old(self)@.tables[t as int].arr.push(
                self.tables@[t as int].arr@[old(self)@.tables[t as int].arr.len() as int]@,
            ));
            assert forall|t2: int|
                0 <= t2 < old(self)@.tables.len() && t2 != t as int implies self@.tables[t2] == old(
                self,
            )@.tables[t2] by {}
        }
    }

    /// Length of table `t`'s array part.
    pub fn arr_len(&self, t: usize) -> (n: usize)
        requires
            (t as int) < self@.tables.len(),
        ensures
            n as int == self@.tables[t as int].arr.len(),
    {
        self.tables[t].arr.len()
    }

    /// The value at position `i` of table `t`'s array part.
    pub fn arr_get(&self, t: usize, i: usize) -> (r: LuaValue)
        requires
            (t as int) < self@.tables.len(),
            (i as int) < self@.tables[t as int].arr.len(),
        ensures
            r@ == self@.tables[t as int].arr[i as int],
    {
        self.tables[t].arr[i].clone()
    }

    /// Installs table `m` as the metatable of table `t`.
    pub fn set_meta(&mut self, t: usize, m: usize)
        requires
            (t as int) < old(self)@.tables.len(),
        ensures
            final(self)@.tables.len() == old(self)@.tables.len(),
            forall|t2: int|
                0 <= t2 < old(self)@.tables.len() && t2 != t as int ==> final(self)@.tables[t2]
                    == old(self)@.tables[t2],
            final(self)@.tables[t as int].arr == old(self)@.tables[t as int].arr,
            final(self)@.tables[t as int].hash == old(self)@.tables[t as int].hash,
            final(self)@.tables[t as int].meta == Some(m),
            final(self)@.funcs == old(self)@.funcs,
            final(self)@.classes == old(self)@.classes,
            final(self)@.props == old(self)@.props,
    {
        self.tables[t].meta = Some(m);
        proof {
            assert forall|t2: int|
                0 <= t2 < old(self)@.tables.len() && t2 != t as int implies self@.tables[t2] == old(
                self,
            )@.tables[t2] by {}
        }
    }

    /// The metatable index of table `t`, if one is installed.
    pub fn get_meta(&self, t: usize) -> (r: Option<usize>)
        requires
            (t as int) < self@.tables.len(),
        ensures
            r == self@.tables[t as int].meta,
    {
        self.tables[t].meta
    }

    /// Sets `k` in the global namespace (table `0`).
    pub fn global_set(&mut self, k: String, v: LuaValue)
        requires
            old(self)@.tables.len() > 0,
        ensures
            final(self)@.tables.len() == old(self)@.tables.len(),
            forall|t2: int|
                0 < t2 < old(self)@.tables.len() ==> final(self)@.tables[t2] == old(
                    self,
                )@.tables[t2],
            final(self)@.tables[0].arr == old(self)@.tables[0].arr,
            final(self)@.tables[0].meta == old(self)@.tables[0].meta,
            forall|k2: Seq<char>|
                #[trigger] hash_get(final(self)@.tables[0].hash, k2) == (if k2 == k@ {
                    Some(v@)
                } else {
                    hash_get(old(self)@.tables[0].hash, k2)
                }),
            final(self)@.funcs == old(self)@.funcs,
            final(self)@.classes == old(self)@.classes,
            final(self)@.props == old(self)@.props,
    {
        self.table_set(0, k, v);
    }

    /// Reads `k` from the global namespace (table `0`).
    pub fn global_get(&self, k: &String) -> (r: Option<LuaValue>)
        requires
            self@.tables.len() > 0,
        ensures
            opt_val_view(r) == hash_get(self@.tables[0].hash, k@),
    {
        self.table_get(0, k)
    }

    /// Number of tables in the store.
    pub fn tables_len(&self) -> (n: usize)
        ensures
            n as int == self@.tables.len(),
    {
        self.tables.len()
    }

    /// Number of registered functions.
    pub fn funcs_len(&self) -> (n: usize)
        ensures
            n as int == self@.funcs.len(),
    {
        self.funcs.len()
    }

    /// Number of stored class metadata records.
    pub fn classes_len(&self) -> (n: usize)
        ensures
            n as int == self@.classes.len(),
    {
        self.classes.len()
    }

    /// Number of stored property records.
    pub fn props_len(&self) -> (n: usize)
        ensures
            n as int == self@.props.len(),
    {
        self.props.len()
    }

    /// The tag of registered function `f`.
    pub fn func_tag(&self, f: usize) -> (tag: FuncTag)
        requires
            (f as int) < self@.funcs.len(),
        ensures
            tag == self@.funcs[f as int],
    {
        self.funcs[f]
    }

    /// The class metadata record at index `d`.
    pub fn class_at(&self, d: usize) -> (c: &ClassState)
        requires
            (d as int) < self@.classes.len(),
        ensures
            c@ == self@.classes[d as int],
    {
        &self.classes[d]
    }

    /// The property record at index `pid`.
    pub fn prop_at(&self, pid: usize) -> (p: &Property)
        requires
            (pid as int) < self@.props.len(),
        ensures
            p@ == self@.props[pid as int],
    {
        &self.props[pid]
    }
}

} // verus!
