//! A borrowed view of an LF2 module.

use vstd::prelude::*;

use crate::convert::data_payload::DamlDataPayload;
use crate::convert::interned::{names_result_view, spec_resolve_dotted, PackageInternedResolver};
use crate::error::DamlLfConvertResult;
use crate::lf2;

verus! {

/// The transitional LF1 feature flags of a module; all `false` when the
/// module carries none.
#[derive(Debug, Clone, Copy, Default)]
pub struct ModuleFlags {
    pub forbid_party_literals: bool,
    pub dont_divulge_contract_ids_in_create_arguments: bool,
    pub dont_disclose_non_consuming_choices_to_observers: bool,
}

/// The flags a module declares, or all `false`.
pub open spec fn spec_module_flags(flags: Option<lf2::FeatureFlags>) -> ModuleFlags {
    match flags {
        Some(f) => ModuleFlags {
            forbid_party_literals: f.forbid_party_literals,
            dont_divulge_contract_ids_in_create_arguments: f.dont_divulge_contract_ids_in_create_arguments,
            dont_disclose_non_consuming_choices_to_observers: f.dont_disclose_non_consuming_choices_to_observers,
        },
        None => ModuleFlags {
            forbid_party_literals: false,
            dont_divulge_contract_ids_in_create_arguments: false,
            dont_disclose_non_consuming_choices_to_observers: false,
        },
    }
}

/// An LF2 module: its name index and flags, and the module itself, whose
/// definitions are read through the accessors.
#[derive(Debug)]
pub struct DamlModulePayload<'a> {
    pub name_index: i32,
    pub flags: ModuleFlags,
    pub module: &'a lf2::Module,
}

impl<'a> DamlModulePayload<'a> {
    pub fn new(module: &'a lf2::Module) -> (payload: Self)
        ensures
            payload.name_index == module.name_interned_dname,
            payload.flags == spec_module_flags(module.flags),
            payload.module == module,
    {
        let flags = match &module.flags {
            Some(f) => ModuleFlags {
                forbid_party_literals: f.forbid_party_literals,
                dont_divulge_contract_ids_in_create_arguments: f.dont_divulge_contract_ids_in_create_arguments,
                dont_disclose_non_consuming_choices_to_observers: f.dont_disclose_non_consuming_choices_to_observers,
            },
            None => ModuleFlags {
                forbid_party_literals: false,
                dont_divulge_contract_ids_in_create_arguments: false,
                dont_disclose_non_consuming_choices_to_observers: false,
            },
        };
        DamlModulePayload { name_index: module.name_interned_dname, flags, module }
    }

    /// This module's dotted name (e.g. `["Foo", "Bar"]`), resolved against
    /// the package's interning tables.
    pub fn path<R: PackageInternedResolver>(&self, resolver: &R) -> (path: DamlLfConvertResult<Vec<String>>)
        ensures
            names_result_view(path) == spec_resolve_dotted(
                resolver.spec_strings(),
                resolver.spec_dotted(),
                self.name_index as int,
            ),
    {
        resolver.resolve_dotted(self.name_index)
    }

    /// The data type definitions of this module, including the markers LF2
    /// emits for interfaces.
    pub fn data_types(&self) -> (data: Vec<DamlDataPayload<'a>>)
        ensures
            data@.len() == self.module.data_types@.len(),
            forall|i: int| 0 <= i < data@.len() ==> (#[trigger] data@[i]).def == self.module.data_types@[i],
    {
        let mut data: Vec<DamlDataPayload<'a>> = Vec::new();
        let mut i: usize = 0;
        while i < self.module.data_types.len()
            invariant
                0 <= i <= self.module.data_types.len(),
                data@.len() == i,
                forall|j: int| 0 <= j < i ==> (#[trigger] data@[j]).def == self.module.data_types@[j],
            decreases self.module.data_types.len() - i,
        {
            data.push(DamlDataPayload::new(&self.module.data_types[i]));
            i += 1;
        }
        data
    }

    pub fn synonyms(&self) -> (synonyms: &'a [lf2::DefTypeSyn])
        ensures
            synonyms@ == self.module.synonyms@,
    {
        self.module.synonyms.as_slice()
    }

    pub fn templates(&self) -> (templates: &'a [lf2::DefTemplate])
        ensures
            templates@ == self.module.templates@,
    {
        self.module.templates.as_slice()
    }

    pub fn interfaces(&self) -> (interfaces: &'a [lf2::DefInterface])
        ensures
            interfaces@ == self.module.interfaces@,
    {
        self.module.interfaces.as_slice()
    }

    pub fn exceptions(&self) -> (exceptions: &'a [lf2::DefException])
        ensures
            exceptions@ == self.module.exceptions@,
    {
        self.module.exceptions.as_slice()
    }

    pub fn values(&self) -> (values: &'a [lf2::DefValue])
        ensures
            values@ == self.module.values@,
    {
        self.module.values.as_slice()
    }
}

} // verus!
