//! The module tree of a package, and its model.

use vstd::prelude::*;

use crate::element::data::{data_seq_view, synonyms_view, DamlData, DamlDefTypeSyn, DamlFeatureFlags, DataV, TypeSynV};
use crate::element::expr::{DamlDefValue, DefValueV};
use crate::element::interface::{
    exceptions_view, interface_model, interfaces_model, DamlException, DamlInterface, ExceptionV, InterfaceV,
};
use crate::element::keyed::{
    find_key, key_position, lemma_find_after_upsert, lemma_find_other_after_upsert, lemma_key_position_absent,
    lemma_key_position_bounds, lemma_key_position_found, upsert, upsert_all,
};
use crate::element::types::{copy_names, names_view};
use crate::text::str_eq;

verus! {

/// A module of the tree: its name under its parent, its full path, its
/// flags and definitions, and its child modules.
#[derive(Debug)]
pub struct DamlModule {
    pub name: String,
    pub path: Vec<String>,
    pub flags: DamlFeatureFlags,
    pub synonyms: Vec<DamlDefTypeSyn>,
    pub child_modules: Vec<DamlModule>,
    pub data_types: Vec<DamlData>,
    pub interfaces: Vec<DamlInterface>,
    pub exceptions: Vec<DamlException>,
    pub values: Vec<DamlDefValue>,
}

/// The model of a module.
#[verifier::ext_equal]
pub struct ModuleV {
    pub name: Seq<char>,
    pub path: Seq<Seq<char>>,
    pub flags: DamlFeatureFlags,
    pub synonyms: Seq<TypeSynV>,
    pub children: Seq<ModuleV>,
    pub data: Seq<DataV>,
    pub interfaces: Seq<InterfaceV>,
    pub exceptions: Seq<ExceptionV>,
    pub values: Seq<DefValueV>,
}

/// The models of a list of value definitions.
pub open spec fn values_view(vs: Seq<DamlDefValue>) -> Seq<DefValueV> {
    vs.map_values(|v: DamlDefValue| v@)
}

pub open spec fn module_view(m: DamlModule) -> ModuleV
    decreases m, 1int,
{
    ModuleV {
        name: m.name@,
        path: names_view(m.path@),
        flags: m.flags,
        synonyms: synonyms_view(m.synonyms@),
        children: modules_view(m.child_modules@),
        data: data_seq_view(m.data_types@),
        interfaces: interfaces_model(m.interfaces@),
        exceptions: exceptions_view(m.exceptions@),
        values: values_view(m.values@),
    }
}

pub open spec fn modules_view(ms: Seq<DamlModule>) -> Seq<ModuleV>
    decreases ms, 0int,
{
    if ms.len() == 0 {
        Seq::empty()
    } else {
        modules_view(ms.drop_last()).push(module_view(ms.last()))
    }
}

impl View for DamlModule {
    type V = ModuleV;

    open spec fn view(&self) -> ModuleV {
        module_view(*self)
    }
}

/// The model of a list of modules has one model per module.
pub proof fn lemma_modules_view(ms: Seq<DamlModule>)
    ensures
        modules_view(ms).len() == ms.len(),
        forall|i: int| 0 <= i < ms.len() ==> #[trigger] modules_view(ms)[i] == module_view(ms[i]),
    decreases ms.len(),
{
    if ms.len() > 0 {
        lemma_modules_view(ms.drop_last());
        assert forall|i: int| 0 <= i < ms.len() implies #[trigger] modules_view(ms)[i] == module_view(ms[i]) by {
            if i < ms.len() - 1 {
                assert(ms.drop_last()[i] == ms[i]);
            }
        }
    }
}

pub open spec fn data_key() -> spec_fn(DataV) -> Seq<char> {
    |d: DataV| d.name()
}

pub open spec fn interface_key() -> spec_fn(InterfaceV) -> Seq<char> {
    |i: InterfaceV| i.name
}

pub open spec fn exception_key() -> spec_fn(ExceptionV) -> Seq<char> {
    |e: ExceptionV| e.name
}

pub open spec fn value_key() -> spec_fn(DefValueV) -> Seq<char> {
    |v: DefValueV| v.name
}

pub open spec fn child_key() -> spec_fn(ModuleV) -> Seq<char> {
    |m: ModuleV| m.name
}

/// The module at `path` below `m`, following child names.
pub open spec fn spec_lookup_path(m: ModuleV, path: Seq<Seq<char>>) -> Option<ModuleV>
    decreases path.len(),
{
    if path.len() == 0 {
        Some(m)
    } else {
        match find_key(m.children, path[0], child_key()) {
            Some(c) => spec_lookup_path(c, path.drop_first()),
            None => None,
        }
    }
}

/// The root of a module tree: no name, no path, no flags set, nothing in it.
pub open spec fn spec_root() -> ModuleV {
    ModuleV {
        name: Seq::empty(),
        path: Seq::empty(),
        flags: DamlFeatureFlags {
            forbid_party_literals: false,
            dont_divulge_contract_ids_in_create_arguments: false,
            dont_disclose_non_consuming_choices_to_observers: false,
        },
        synonyms: Seq::empty(),
        children: Seq::empty(),
        data: Seq::empty(),
        interfaces: Seq::empty(),
        exceptions: Seq::empty(),
        values: Seq::empty(),
    }
}

/// A new, empty child of `parent` named `segment`.
pub open spec fn spec_new_child(parent: ModuleV, segment: Seq<char>) -> ModuleV {
    ModuleV {
        name: segment,
        path: parent.path.push(segment),
        flags: DamlFeatureFlags {
            forbid_party_literals: false,
            dont_divulge_contract_ids_in_create_arguments: false,
            dont_disclose_non_consuming_choices_to_observers: false,
        },
        synonyms: Seq::empty(),
        children: Seq::empty(),
        data: Seq::empty(),
        interfaces: Seq::empty(),
        exceptions: Seq::empty(),
        values: Seq::empty(),
    }
}

/// What to do at the end of a path: merge a converted module in, or insert
/// one data type.
pub enum PlaceActionV {
    Merge(ModuleV),
    InsertData(DataV),
}

/// A module with a converted module merged in: path, flags and synonyms
/// are taken from it, and its data types, interfaces, exceptions and values
/// are inserted by name; child modules are kept.
pub open spec fn spec_merge(m: ModuleV, leaf: ModuleV) -> ModuleV {
    ModuleV {
        name: m.name,
        path: leaf.path,
        flags: leaf.flags,
        synonyms: m.synonyms + leaf.synonyms,
        children: m.children,
        data: upsert_all(m.data, leaf.data, data_key()),
        interfaces: upsert_all(m.interfaces, leaf.interfaces, interface_key()),
        exceptions: upsert_all(m.exceptions, leaf.exceptions, exception_key()),
        values: upsert_all(m.values, leaf.values, value_key()),
    }
}

pub open spec fn spec_apply_action(m: ModuleV, action: PlaceActionV) -> ModuleV {
    match action {
        PlaceActionV::Merge(leaf) => spec_merge(m, leaf),
        PlaceActionV::InsertData(d) => ModuleV { data: upsert(m.data, d, data_key()), ..m },
    }
}

/// `m` with `action` applied to the module at `path`, creating any missing
/// module on the way.
pub open spec fn spec_place(m: ModuleV, path: Seq<Seq<char>>, action: PlaceActionV) -> ModuleV
    decreases path.len(),
{
    if path.len() == 0 {
        spec_apply_action(m, action)
    } else {
        let i = key_position(m.children, path[0], child_key());
        let child = if i < m.children.len() {
            m.children[i]
        } else {
            spec_new_child(m, path[0])
        };
        let placed = spec_place(child, path.drop_first(), action);
        ModuleV {
            children: if i < m.children.len() {
                m.children.update(i, placed)
            } else {
                m.children.push(placed)
            },
            ..m
        }
    }
}

/// The action to place, as values.
pub enum PlaceAction {
    Merge(DamlModule),
    InsertData(DamlData),
}

pub open spec fn action_view(a: PlaceAction) -> PlaceActionV {
    match a {
        PlaceAction::Merge(m) => PlaceActionV::Merge(module_view(m)),
        PlaceAction::InsertData(d) => PlaceActionV::InsertData(d@),
    }
}

/// The module an action placed at `path` below `m` applies to: the one at
/// `path`, with the modules missing on the way created empty.
pub open spec fn spec_place_target(m: ModuleV, path: Seq<Seq<char>>) -> ModuleV
    decreases path.len(),
{
    if path.len() == 0 {
        m
    } else {
        let i = key_position(m.children, path[0], child_key());
        let child = if i < m.children.len() {
            m.children[i]
        } else {
            spec_new_child(m, path[0])
        };
        spec_place_target(child, path.drop_first())
    }
}

/// Placing never changes the name a module is known by.
pub proof fn lemma_place_keeps_name(m: ModuleV, path: Seq<Seq<char>>, action: PlaceActionV)
    ensures
        spec_place(m, path, action).name == m.name,
    decreases path.len(),
{
}

/// Placing an action at a path and then looking the path up finds the
/// module there with the action applied.
pub proof fn law_lookup_after_place(m: ModuleV, path: Seq<Seq<char>>, action: PlaceActionV)
    ensures
        spec_lookup_path(spec_place(m, path, action), path) == Some(
            spec_apply_action(spec_place_target(m, path), action),
        ),
    decreases path.len(),
{
    if path.len() > 0 {
        let i = key_position(m.children, path[0], child_key());
        lemma_key_position_bounds(m.children, path[0], child_key());
        let child = if i < m.children.len() {
            m.children[i]
        } else {
            spec_new_child(m, path[0])
        };
        let placed = spec_place(child, path.drop_first(), action);
        lemma_place_keeps_name(child, path.drop_first(), action);
        let t = spec_place(m, path, action);
        assert(t.children.len() >= i + 1);
        assert(t.children[i] == placed);
        assert forall|j: int| 0 <= j < i implies (child_key())(t.children[j]) != path[0] by {
            assert(t.children[j] == m.children[j]);
        }
        lemma_key_position_found(t.children, path[0], child_key(), i);
        law_lookup_after_place(child, path.drop_first(), action);
    }
}

/// A data type inserted at a path is what looking its name up in the module
/// at that path finds.
pub proof fn law_data_found_after_insert(m: ModuleV, path: Seq<Seq<char>>, data: DataV)
    ensures
        spec_lookup_path(spec_place(m, path, PlaceActionV::InsertData(data)), path) matches Some(t) && find_key(
            t.data,
            data.name(),
            data_key(),
        ) == Some(data),
{
    law_lookup_after_place(m, path, PlaceActionV::InsertData(data));
    lemma_find_after_upsert(spec_place_target(m, path).data, data, data_key());
}

/// A module merged in at a path gives the module found there its path and
/// flags, and its data types, interfaces and exceptions are inserted there
/// in turn.
pub proof fn law_merged_module_found(m: ModuleV, path: Seq<Seq<char>>, leaf: ModuleV)
    ensures
        spec_lookup_path(spec_place(m, path, PlaceActionV::Merge(leaf)), path) matches Some(t) && t.path == leaf.path
            && t.flags == leaf.flags && t.data == upsert_all(spec_place_target(m, path).data, leaf.data, data_key())
            && t.interfaces == upsert_all(spec_place_target(m, path).interfaces, leaf.interfaces, interface_key())
            && t.exceptions == upsert_all(spec_place_target(m, path).exceptions, leaf.exceptions, exception_key()),
{
    law_lookup_after_place(m, path, PlaceActionV::Merge(leaf));
}

/// Inserting a data type into a module: looking its name up finds it, and
/// every other name finds what it found before.
pub proof fn law_data_type_after_insert(m: ModuleV, data: DataV, name: Seq<char>)
    ensures
        find_key(upsert(m.data, data, data_key()), data.name(), data_key()) == Some(data),
        name != data.name() ==> find_key(upsert(m.data, data, data_key()), name, data_key()) == find_key(
            m.data,
            name,
            data_key(),
        ),
{
    lemma_find_after_upsert(m.data, data, data_key());
    if name != data.name() {
        lemma_find_other_after_upsert(m.data, data, data_key(), name);
    }
}

impl DamlModule {
    /// The root of a package's module tree: no name, no path, nothing in it.
    pub fn new_root() -> (root: Self)
        ensures
            root@ == spec_root(),
    {
        let root = DamlModule {
            name: String::new(),
            path: Vec::new(),
            flags: DamlFeatureFlags {
                forbid_party_literals: false,
                dont_divulge_contract_ids_in_create_arguments: false,
                dont_disclose_non_consuming_choices_to_observers: false,
            },
            synonyms: Vec::new(),
            child_modules: Vec::new(),
            data_types: Vec::new(),
            interfaces: Vec::new(),
            exceptions: Vec::new(),
            values: Vec::new(),
        };
        assert(values_view(root.values@) =~= Seq::<DefValueV>::empty());
        assert(names_view(root.path@) =~= Seq::<Seq<char>>::empty());
        assert(synonyms_view(root.synonyms@) =~= Seq::<TypeSynV>::empty());
        assert(data_seq_view(root.data_types@) =~= Seq::<DataV>::empty());
        assert(interfaces_model(root.interfaces@) =~= Seq::<InterfaceV>::empty());
        assert(exceptions_view(root.exceptions@) =~= Seq::<ExceptionV>::empty());
        assert(root@ =~= spec_root());
        root
    }

    /// A converted module: its path, flags and definitions, and no children.
    pub fn new_leaf(
        path: Vec<String>,
        flags: DamlFeatureFlags,
        synonyms: Vec<DamlDefTypeSyn>,
        data_types: Vec<DamlData>,
        interfaces: Vec<DamlInterface>,
        exceptions: Vec<DamlException>,
        values: Vec<DamlDefValue>,
    ) -> (leaf: Self)
        ensures
            leaf.name@ == Seq::<char>::empty(),
            leaf.path == path,
            leaf.flags == flags,
            leaf.synonyms == synonyms,
            leaf.child_modules@.len() == 0,
            leaf.data_types == data_types,
            leaf.interfaces == interfaces,
            leaf.exceptions == exceptions,
            leaf.values == values,
    {
        DamlModule {
            name: String::new(),
            path,
            flags,
            synonyms,
            child_modules: Vec::new(),
            data_types,
            interfaces,
            exceptions,
            values,
        }
    }

    pub fn path(&self) -> (path: &Vec<String>)
        ensures
            *path == self.path,
    {
        &self.path
    }

    pub fn flags(&self) -> (flags: DamlFeatureFlags)
        ensures
            flags == self.flags,
    {
        self.flags
    }

    pub fn synonyms(&self) -> (synonyms: &Vec<DamlDefTypeSyn>)
        ensures
            *synonyms == self.synonyms,
    {
        &self.synonyms
    }

    pub fn child_modules(&self) -> (children: &Vec<DamlModule>)
        ensures
            *children == self.child_modules,
    {
        &self.child_modules
    }

    pub fn data_types(&self) -> (data: &Vec<DamlData>)
        ensures
            *data == self.data_types,
    {
        &self.data_types
    }

    pub fn interfaces(&self) -> (interfaces: &Vec<DamlInterface>)
        ensures
            *interfaces == self.interfaces,
    {
        &self.interfaces
    }

    pub fn exceptions(&self) -> (exceptions: &Vec<DamlException>)
        ensures
            *exceptions == self.exceptions,
    {
        &self.exceptions
    }

    pub fn values(&self) -> (values: &Vec<DamlDefValue>)
        ensures
            *values == self.values,
    {
        &self.values
    }

    /// The value named `name` in this module.
    pub fn value(&self, name: &str) -> (value: Option<&DamlDefValue>)
        ensures
            match value {
                Some(v) => find_key(self@.values, name@, value_key()) == Some(v@),
                None => find_key(self@.values, name@, value_key()) is None,
            },
    {
        let ghost vs = values_view(self.values@);
        let mut i: usize = 0;
        while i < self.values.len()
            invariant
                0 <= i <= self.values.len(),
                vs == values_view(self.values@),
                vs.len() == self.values@.len(),
                forall|j: int| 0 <= j < i ==> (value_key())(vs[j]) != name@,
            decreases self.values.len() - i,
        {
            if str_eq(self.values[i].name(), name) {
                proof {
                    lemma_key_position_found(vs, name@, value_key(), i as int);
                }
                return Some(&self.values[i]);
            }
            i += 1;
        }
        proof {
            lemma_key_position_absent(vs, name@, value_key());
        }
        None
    }

    /// The data type named `name` in this module.
    pub fn data_type(&self, name: &str) -> (data: Option<&DamlData>)
        ensures
            match data {
                Some(d) => find_key(self@.data, name@, data_key()) == Some(d@),
                None => find_key(self@.data, name@, data_key()) is None,
            },
    {
        let ghost ds = data_seq_view(self.data_types@);
        let mut i: usize = 0;
        while i < self.data_types.len()
            invariant
                0 <= i <= self.data_types.len(),
                ds == data_seq_view(self.data_types@),
                ds.len() == self.data_types@.len(),
                forall|j: int| 0 <= j < i ==> (data_key())(ds[j]) != name@,
            decreases self.data_types.len() - i,
        {
            if str_eq(self.data_types[i].name(), name) {
                proof {
                    lemma_key_position_found(ds, name@, data_key(), i as int);
                }
                return Some(&self.data_types[i]);
            }
            i += 1;
        }
        proof {
            lemma_key_position_absent(ds, name@, data_key());
        }
        None
    }

    /// The interface named `name` in this module.
    pub fn interface(&self, name: &str) -> (interface: Option<&DamlInterface>)
        ensures
            match interface {
                Some(i) => find_key(self@.interfaces, name@, interface_key()) == Some(interface_model(*i)),
                None => find_key(self@.interfaces, name@, interface_key()) is None,
            },
    {
        let ghost is = interfaces_model(self.interfaces@);
        let mut i: usize = 0;
        while i < self.interfaces.len()
            invariant
                0 <= i <= self.interfaces.len(),
                is == interfaces_model(self.interfaces@),
                is.len() == self.interfaces@.len(),
                forall|j: int| 0 <= j < i ==> (interface_key())(is[j]) != name@,
            decreases self.interfaces.len() - i,
        {
            if str_eq(self.interfaces[i].name(), name) {
                proof {
                    lemma_key_position_found(is, name@, interface_key(), i as int);
                }
                return Some(&self.interfaces[i]);
            }
            i += 1;
        }
        proof {
            lemma_key_position_absent(is, name@, interface_key());
        }
        None
    }

    /// The index of the child module named `name`, if there is one.
    fn child_index(&self, name: &str) -> (index: Option<usize>)
        ensures
            match index {
                Some(i) => key_position(self@.children, name@, child_key()) == i && i < self@.children.len(),
                None => key_position(self@.children, name@, child_key()) == self@.children.len(),
            },
            self@.children.len() == self.child_modules@.len(),
    {
        proof {
            lemma_modules_view(self.child_modules@);
        }
        let ghost cs = self@.children;
        let mut i: usize = 0;
        while i < self.child_modules.len()
            invariant
                0 <= i <= self.child_modules.len(),
                cs == self@.children,
                cs.len() == self.child_modules@.len(),
                forall|j: int| 0 <= j < cs.len() ==> #[trigger] cs[j] == module_view(self.child_modules@[j]),
                forall|j: int| 0 <= j < i ==> (child_key())(cs[j]) != name@,
            decreases self.child_modules.len() - i,
        {
            if str_eq(self.child_modules[i].name.as_str(), name) {
                proof {
                    lemma_key_position_found(cs, name@, child_key(), i as int);
                }
                return Some(i);
            }
            i += 1;
        }
        proof {
            lemma_key_position_absent(cs, name@, child_key());
        }
        None
    }

    /// The module at `path` below this one, following child names from
    /// `path[depth]` on.
    pub fn child_module_path_from(&self, path: &Vec<String>, depth: usize) -> (found: Option<&DamlModule>)
        requires
            depth <= path@.len(),
        ensures
            match found {
                Some(m) => spec_lookup_path(self@, names_view(path@).skip(depth as int)) == Some(m@),
                None => spec_lookup_path(self@, names_view(path@).skip(depth as int)) is None,
            },
        decreases path@.len() - depth,
    {
        let ghost rest = names_view(path@).skip(depth as int);
        if depth == path.len() {
            assert(rest.len() == 0);
            return Some(self);
        }
        assert(rest[0] == path@[depth as int]@);
        assert(rest.drop_first() =~= names_view(path@).skip(depth + 1));
        proof {
            lemma_modules_view(self.child_modules@);
            lemma_key_position_bounds(self@.children, rest[0], child_key());
        }
        match self.child_index(path[depth].as_str()) {
            Some(i) => self.child_modules[i].child_module_path_from(path, depth + 1),
            None => None,
        }
    }

    /// The module at `path` below this one.
    pub fn child_module_path(&self, path: &Vec<String>) -> (found: Option<&DamlModule>)
        ensures
            match found {
                Some(m) => spec_lookup_path(self@, names_view(path@)) == Some(m@),
                None => spec_lookup_path(self@, names_view(path@)) is None,
            },
    {
        assert(names_view(path@).skip(0) =~= names_view(path@));
        self.child_module_path_from(path, 0)
    }

    /// Insert a data type, replacing one of the same name.
    pub fn insert_data_type(&mut self, data: DamlData)
        ensures
            final(self)@ == (ModuleV { data: upsert(old(self)@.data, data@, data_key()), ..old(self)@ }),
    {
        let ghost ds = data_seq_view(self.data_types@);
        let mut i: usize = 0;
        while i < self.data_types.len()
            invariant
                0 <= i <= self.data_types.len(),
                *self == *old(self),
                ds == data_seq_view(self.data_types@),
                ds.len() == self.data_types@.len(),
                forall|j: int| 0 <= j < i ==> (data_key())(ds[j]) != data@.name(),
            decreases self.data_types.len() - i,
        {
            if str_eq(self.data_types[i].name(), data.name()) {
                proof {
                    lemma_key_position_found(ds, data@.name(), data_key(), i as int);
                }
                let ghost old_data = self.data_types@;
                self.data_types.set(i, data);
                assert(data_seq_view(self.data_types@) =~= ds.update(i as int, data@));
                return;
            }
            i += 1;
        }
        proof {
            lemma_key_position_absent(ds, data@.name(), data_key());
        }
        let ghost old_data = self.data_types@;
        self.data_types.push(data);
        assert(data_seq_view(self.data_types@) =~= ds.push(data@));
    }
}

} // verus!

verus! {

impl DamlModule {
    /// Insert an interface, replacing one of the same name.
    pub fn insert_interface(&mut self, interface: DamlInterface)
        ensures
            final(self)@ == (ModuleV {
                interfaces: upsert(old(self)@.interfaces, interface_model(interface), interface_key()),
                ..old(self)@
            }),
    {
        let ghost is = interfaces_model(self.interfaces@);
        let mut i: usize = 0;
        while i < self.interfaces.len()
            invariant
                0 <= i <= self.interfaces.len(),
                *self == *old(self),
                is == interfaces_model(self.interfaces@),
                is.len() == self.interfaces@.len(),
                forall|j: int| 0 <= j < i ==> (interface_key())(is[j]) != interface_model(interface).name,
            decreases self.interfaces.len() - i,
        {
            if str_eq(self.interfaces[i].name(), interface.name()) {
                proof {
                    lemma_key_position_found(is, interface_model(interface).name, interface_key(), i as int);
                }
                self.interfaces.set(i, interface);
                assert(interfaces_model(self.interfaces@) =~= is.update(i as int, interface_model(interface)));
                return;
            }
            i += 1;
        }
        proof {
            lemma_key_position_absent(is, interface_model(interface).name, interface_key());
        }
        self.interfaces.push(interface);
        assert(interfaces_model(self.interfaces@) =~= is.push(interface_model(interface)));
    }

    /// Insert an exception, replacing one of the same name.
    pub fn insert_exception(&mut self, exception: DamlException)
        ensures
            final(self)@ == (ModuleV {
                exceptions: upsert(old(self)@.exceptions, exception@, exception_key()),
                ..old(self)@
            }),
    {
        let ghost es = exceptions_view(self.exceptions@);
        let mut i: usize = 0;
        while i < self.exceptions.len()
            invariant
                0 <= i <= self.exceptions.len(),
                *self == *old(self),
                es == exceptions_view(self.exceptions@),
                es.len() == self.exceptions@.len(),
                forall|j: int| 0 <= j < i ==> (exception_key())(es[j]) != exception@.name,
            decreases self.exceptions.len() - i,
        {
            if str_eq(self.exceptions[i].name(), exception.name()) {
                proof {
                    lemma_key_position_found(es, exception@.name, exception_key(), i as int);
                }
                self.exceptions.set(i, exception);
                assert(exceptions_view(self.exceptions@) =~= es.update(i as int, exception@));
                return;
            }
            i += 1;
        }
        proof {
            lemma_key_position_absent(es, exception@.name, exception_key());
        }
        self.exceptions.push(exception);
        assert(exceptions_view(self.exceptions@) =~= es.push(exception@));
    }

    /// Insert a value definition, replacing one of the same name.
    pub fn insert_value(&mut self, value: DamlDefValue)
        ensures
            final(self)@ == (ModuleV { values: upsert(old(self)@.values, value@, value_key()), ..old(self)@ }),
    {
        let ghost vs = values_view(self.values@);
        let mut i: usize = 0;
        while i < self.values.len()
            invariant
                0 <= i <= self.values.len(),
                *self == *old(self),
                vs == values_view(self.values@),
                vs.len() == self.values@.len(),
                forall|j: int| 0 <= j < i ==> (value_key())(vs[j]) != value@.name,
            decreases self.values.len() - i,
        {
            if str_eq(self.values[i].name(), value.name()) {
                proof {
                    lemma_key_position_found(vs, value@.name, value_key(), i as int);
                }
                self.values.set(i, value);
                assert(values_view(self.values@) =~= vs.update(i as int, value@));
                return;
            }
            i += 1;
        }
        proof {
            lemma_key_position_absent(vs, value@.name, value_key());
        }
        self.values.push(value);
        assert(values_view(self.values@) =~= vs.push(value@));
    }

    /// Merge a converted module into this one: take its path, flags and
    /// synonyms, and insert its data types, interfaces and exceptions by
    /// name, keeping this module's children.
    pub fn merge_from(&mut self, leaf: DamlModule)
        ensures
            final(self)@ == spec_merge(old(self)@, leaf@),
    {
        let ghost start = self@;
        let ghost leaf_view = leaf@;
        let DamlModule { name: _, path, flags, synonyms, child_modules: _, data_types, interfaces, exceptions, values } =
            leaf;
        self.path = path;
        self.flags = flags;
        let mut synonyms = synonyms;
        let ghost before_syn = self.synonyms@;
        self.synonyms.append(&mut synonyms);
        assert(synonyms_view(self.synonyms@) =~= synonyms_view(before_syn) + leaf_view.synonyms);
        let ghost all_data = data_types@;
        let count = data_types.len();
        let mut items = data_types;
        let mut k: usize = 0;
        let ghost total = all_data.len();
        assert(total == count);
        assert(all_data.take(0) =~= Seq::<DamlData>::empty());
        while items.len() > 0
            invariant
                k + items@.len() == total,
                total <= usize::MAX,
                total == all_data.len(),
                items@ == all_data.skip(k as int),
                self@ == (ModuleV {
                    path: leaf_view.path,
                    flags: leaf_view.flags,
                    synonyms: start.synonyms + leaf_view.synonyms,
                    data: upsert_all(start.data, data_seq_view(all_data.take(k as int)), data_key()),
                    ..start
                }),
            decreases items@.len(),
        {
            let d = items.remove(0);
            proof {
                assert(data_seq_view(all_data.take(k + 1)).drop_last() =~= data_seq_view(all_data.take(k as int)));
                assert(all_data[k as int] == d);
            }
            self.insert_data_type(d);
            k += 1;
            assert(items@ =~= all_data.skip(k as int));
        }
        assert(all_data.take(k as int) =~= all_data);
        assert(data_seq_view(all_data) == leaf_view.data);
        let ghost all_ifaces = interfaces@;
        let count = interfaces.len();
        let mut items = interfaces;
        let mut k: usize = 0;
        let ghost total = all_ifaces.len();
        assert(total == count);
        assert(all_ifaces.take(0) =~= Seq::<DamlInterface>::empty());
        while items.len() > 0
            invariant
                k + items@.len() == total,
                total <= usize::MAX,
                total == all_ifaces.len(),
                items@ == all_ifaces.skip(k as int),
                self@ == (ModuleV {
                    path: leaf_view.path,
                    flags: leaf_view.flags,
                    synonyms: start.synonyms + leaf_view.synonyms,
                    data: upsert_all(start.data, leaf_view.data, data_key()),
                    interfaces: upsert_all(start.interfaces, interfaces_model(all_ifaces.take(k as int)), interface_key()),
                    ..start
                }),
            decreases items@.len(),
        {
            let it = items.remove(0);
            proof {
                assert(interfaces_model(all_ifaces.take(k + 1)).drop_last() =~= interfaces_model(
                    all_ifaces.take(k as int),
                ));
                assert(all_ifaces[k as int] == it);
            }
            self.insert_interface(it);
            k += 1;
            assert(items@ =~= all_ifaces.skip(k as int));
        }
        assert(all_ifaces.take(k as int) =~= all_ifaces);
        let ghost all_excs = exceptions@;
        let count = exceptions.len();
        let mut items = exceptions;
        let mut k: usize = 0;
        let ghost total = all_excs.len();
        assert(total == count);
        assert(all_excs.take(0) =~= Seq::<DamlException>::empty());
        while items.len() > 0
            invariant
                k + items@.len() == total,
                total <= usize::MAX,
                total == all_excs.len(),
                items@ == all_excs.skip(k as int),
                self@ == (ModuleV {
                    path: leaf_view.path,
                    flags: leaf_view.flags,
                    synonyms: start.synonyms + leaf_view.synonyms,
                    data: upsert_all(start.data, leaf_view.data, data_key()),
                    interfaces: upsert_all(start.interfaces, leaf_view.interfaces, interface_key()),
                    exceptions: upsert_all(start.exceptions, exceptions_view(all_excs.take(k as int)), exception_key()),
                    ..start
                }),
            decreases items@.len(),
        {
            let e = items.remove(0);
            proof {
                assert(exceptions_view(all_excs.take(k + 1)).drop_last() =~= exceptions_view(all_excs.take(k as int)));
                assert(all_excs[k as int] == e);
            }
            self.insert_exception(e);
            k += 1;
            assert(items@ =~= all_excs.skip(k as int));
        }
        assert(all_excs.take(k as int) =~= all_excs);
        let ghost all_values = values@;
        let count = values.len();
        let mut items = values;
        let mut k: usize = 0;
        let ghost total = all_values.len();
        assert(total == count);
        assert(all_values.take(0) =~= Seq::<DamlDefValue>::empty());
        assert(values_view(all_values.take(0)) =~= Seq::<DefValueV>::empty());
        while items.len() > 0
            invariant
                k + items@.len() == total,
                total <= usize::MAX,
                total == all_values.len(),
                items@ == all_values.skip(k as int),
                self@ == (ModuleV {
                    path: leaf_view.path,
                    flags: leaf_view.flags,
                    synonyms: start.synonyms + leaf_view.synonyms,
                    data: upsert_all(start.data, leaf_view.data, data_key()),
                    interfaces: upsert_all(start.interfaces, leaf_view.interfaces, interface_key()),
                    exceptions: upsert_all(start.exceptions, leaf_view.exceptions, exception_key()),
                    values: upsert_all(start.values, values_view(all_values.take(k as int)), value_key()),
                    ..start
                }),
            decreases items@.len(),
        {
            let v = items.remove(0);
            proof {
                assert(values_view(all_values.take(k + 1)).drop_last() =~= values_view(all_values.take(k as int)));
                assert(all_values[k as int] == v);
            }
            self.insert_value(v);
            k += 1;
            assert(items@ =~= all_values.skip(k as int));
        }
        assert(all_values.take(k as int) =~= all_values);
    }

    /// Apply `action` to the module at `path[depth..]` below this one,
    /// creating any module missing on the way.
    pub fn place(&mut self, path: &Vec<String>, depth: usize, action: PlaceAction)
        requires
            depth <= path@.len(),
        ensures
            final(self)@ == spec_place(old(self)@, names_view(path@).skip(depth as int), action_view(action)),
        decreases path@.len() - depth,
    {
        let ghost rest = names_view(path@).skip(depth as int);
        if depth == path.len() {
            assert(rest.len() == 0);
            match action {
                PlaceAction::Merge(leaf) => self.merge_from(leaf),
                PlaceAction::InsertData(d) => self.insert_data_type(d),
            }
            return;
        }
        assert(rest[0] == path@[depth as int]@);
        assert(rest.drop_first() =~= names_view(path@).skip(depth + 1));
        let ghost start = self@;
        let idx = match self.child_index(path[depth].as_str()) {
            Some(i) => i,
            None => {
                let mut child_path = copy_names(self.path.as_slice());
                child_path.push(path[depth].clone());
                let child = DamlModule {
                    name: path[depth].clone(),
                    path: child_path,
                    flags: DamlFeatureFlags {
                        forbid_party_literals: false,
                        dont_divulge_contract_ids_in_create_arguments: false,
                        dont_disclose_non_consuming_choices_to_observers: false,
                    },
                    synonyms: Vec::new(),
                    child_modules: Vec::new(),
                    data_types: Vec::new(),
                    interfaces: Vec::new(),
                    exceptions: Vec::new(),
                    values: Vec::new(),
                };
                assert(module_view(child) == spec_new_child(start, rest[0])) by {
                    assert(values_view(child.values@) =~= Seq::<DefValueV>::empty());
                    assert(names_view(child.path@) =~= start.path.push(rest[0]));
                    assert(modules_view(child.child_modules@) =~= Seq::<ModuleV>::empty());
                    assert(synonyms_view(child.synonyms@) =~= Seq::<TypeSynV>::empty());
                    assert(data_seq_view(child.data_types@) =~= Seq::<DataV>::empty());
                    assert(interfaces_model(child.interfaces@) =~= Seq::<InterfaceV>::empty());
                    assert(exceptions_view(child.exceptions@) =~= Seq::<ExceptionV>::empty());
                    assert(module_view(child) =~= spec_new_child(start, rest[0]));
                }
                let ghost before = self.child_modules@;
                self.child_modules.push(child);
                proof {
                    assert(self.child_modules@.drop_last() =~= before);
                }
                self.child_modules.len() - 1
            },
        };
        proof {
            lemma_modules_view(self.child_modules@);
        }
        let ghost mid = self.child_modules@;
        let ghost pos = key_position(start.children, rest[0], child_key());
        let ghost child_before = if pos < start.children.len() {
            start.children[pos]
        } else {
            spec_new_child(start, rest[0])
        };
        assert(module_view(mid[idx as int]) == child_before);
        assert(pos < start.children.len() ==> modules_view(mid) == start.children);
        assert(pos >= start.children.len() ==> modules_view(mid) =~= start.children.push(child_before));
        self.child_modules[idx].place(path, depth + 1, action);
        proof {
            lemma_modules_view(self.child_modules@);
            lemma_modules_view(mid);
            let placed = spec_place(child_before, rest.drop_first(), action_view(action));
            assert(module_view(self.child_modules@[idx as int]) == placed);
            assert(self.child_modules@ =~= mid.update(idx as int, self.child_modules@[idx as int]));
            assert(modules_view(self.child_modules@) =~= modules_view(mid).update(idx as int, placed));
        }
        assert(self@.children == spec_place(start, rest, action_view(action)).children);
        assert(self@.name == start.name);
        assert(self@.path == start.path);
        assert(self@.data == start.data);
        assert(self@ =~= spec_place(start, rest, action_view(action)));
    }
}

} // verus!
