//! A borrowed view of an LF2 data type definition.

use vstd::prelude::*;

use crate::lf2;

verus! {

/// A handle over an LF2 `DefDataType`: its name index, whether it is
/// serializable and its constructors.
#[derive(Debug, Clone, Copy)]
pub struct DamlDataPayload<'a> {
    pub def: &'a lf2::DefDataType,
}

impl<'a> DamlDataPayload<'a> {
    pub fn new(def: &'a lf2::DefDataType) -> (payload: Self)
        ensures
            payload.def == def,
    {
        DamlDataPayload { def }
    }

    pub fn name_index(&self) -> (index: i32)
        ensures
            index == self.def.name_interned_dname,
    {
        self.def.name_interned_dname
    }

    pub fn serializable(&self) -> (serializable: bool)
        ensures
            serializable == self.def.serializable,
    {
        self.def.serializable
    }

    pub fn params(&self) -> (params: &'a [lf2::TypeVarWithKind])
        ensures
            params@ == self.def.params@,
    {
        self.def.params.as_slice()
    }

    pub fn data_cons(&self) -> (cons: Option<&'a lf2::DataCons>)
        ensures
            match cons {
                Some(c) => self.def.data_cons == Some(*c),
                None => self.def.data_cons is None,
            },
    {
        match &self.def.data_cons {
            Some(c) => Some(c),
            None => None,
        }
    }
}

} // verus!
