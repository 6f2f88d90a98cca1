//! All packages of a DAR, each decoded, indexed by package id, with the main
//! package's id called out.

use vstd::prelude::*;

use crate::archive::{DamlLfArchive, DarFile};
use crate::convert::package_payload::{
    lemma_table_lookup_unique, payload_of_archive, spec_package_metadata, DamlPackagePayload,
};
use crate::convert::type_payload::spec_package_name;
use crate::element::keyed::{
    distinct_keys, key_position, lemma_key_position_absent, lemma_key_position_bounds, lemma_key_position_found,
    lemma_upsert_all_distinct, upsert, upsert_all,
};
use crate::error::{ConvertErrorV, DamlLfConvertResult};
use crate::payload::lf2_package;
use crate::results::{first_error, lemma_first_error_at, lemma_first_error_none};
use crate::text::str_eq;

verus! {

/// The decoded packages of an archive, by package id.
///
/// Holds references into the DAR it was made from, whose lifetime bounds
/// its own.
#[derive(Debug)]
pub struct DamlArchivePayload<'a> {
    pub archive_name: String,
    pub main_package_id: String,
    pub packages: Vec<DamlPackagePayload<'a>>,
}

/// An archive is keyed by its hash, the id of its package.
pub open spec fn archive_key() -> spec_fn(DamlLfArchive) -> Seq<char> {
    |a: DamlLfArchive| a.hash@
}

/// The archives of a DAR: the main one, then its dependencies.
pub open spec fn dar_archives(dar: DarFile) -> Seq<DamlLfArchive> {
    seq![dar.main] + dar.dependencies@
}

/// The archives of a DAR by package id: each id once, the last archive with
/// an id standing in the place of the first.
pub open spec fn loaded_archives(dar: DarFile) -> Seq<DamlLfArchive> {
    upsert_all(Seq::empty(), dar_archives(dar), archive_key())
}

/// The error decoding an archive's package metadata raises, if any.
pub open spec fn metadata_check() -> spec_fn(DamlLfArchive) -> Option<ConvertErrorV> {
    |a: DamlLfArchive|
        match spec_package_metadata(lf2_package(a.payload)) {
            Err(e) => Some(e),
            Ok(_) => None,
        }
}

/// Each package's name table lists every package of `ps`: its id and name,
/// in order.
pub open spec fn names_table_complete<'a>(ps: Seq<DamlPackagePayload<'a>>) -> bool {
    forall|i: int|
        0 <= i < ps.len() ==> {
            &&& (#[trigger] ps[i]).spec_pkg_names().len() == ps.len()
            &&& forall|j: int|
                0 <= j < ps.len() ==> {
                    &&& (#[trigger] ps[i].spec_pkg_names()[j]).0@ == ps[j].package_id@
                    &&& ps[i].spec_pkg_names()[j].1@ == ps[j].name@
                }
        }
}

/// An archive payload is that of a DAR: named after its main archive, with
/// the payload of each of its archives by package id, and each package's
/// name table complete.
pub open spec fn payload_of_dar<'a>(ap: DamlArchivePayload<'a>, dar: DarFile) -> bool {
    &&& ap.archive_name == dar.main.name
    &&& ap.main_package_id == dar.main.hash
    &&& ap.packages@.len() == loaded_archives(dar).len()
    &&& forall|i: int|
        0 <= i < ap.packages@.len() ==> payload_of_archive(#[trigger] ap.packages@[i], loaded_archives(dar)[i])
    &&& names_table_complete(ap.packages@)
}

/// A copy of a package-id to package-name table.
fn copy_table(table: &Vec<(String, String)>) -> (copy: Vec<(String, String)>)
    ensures
        copy@.len() == table@.len(),
        forall|i: int| 0 <= i < table@.len() ==> (#[trigger] copy@[i]).0@ == table@[i].0@ && copy@[i].1@ == table@[i].1@,
{
    let mut copy: Vec<(String, String)> = Vec::new();
    let mut i: usize = 0;
    while i < table.len()
        invariant
            0 <= i <= table.len(),
            copy@.len() == i,
            forall|k: int| 0 <= k < i ==> (#[trigger] copy@[k]).0@ == table@[k].0@ && copy@[k].1@ == table@[k].1@,
        decreases table.len() - i,
    {
        let id = table[i].0.clone();
        let name = table[i].1.clone();
        copy.push((id, name));
        i += 1;
    }
    copy
}

/// Insert the payload of `dalf` into payloads of `loaded`, replacing the one
/// with its package id.
fn insert_payload<'a>(
    packages: &mut Vec<DamlPackagePayload<'a>>,
    payload: DamlPackagePayload<'a>,
    Ghost(loaded): Ghost<Seq<DamlLfArchive>>,
    Ghost(dalf): Ghost<DamlLfArchive>,
)
    requires
        old(packages)@.len() == loaded.len(),
        forall|j: int| 0 <= j < loaded.len() ==> payload_of_archive(#[trigger] old(packages)@[j], loaded[j]),
        payload_of_archive(payload, dalf),
    ensures
        final(packages)@.len() == upsert(loaded, dalf, archive_key()).len(),
        forall|j: int|
            0 <= j < final(packages)@.len() ==> payload_of_archive(
                #[trigger] final(packages)@[j],
                upsert(loaded, dalf, archive_key())[j],
            ),
{
    let mut i: usize = 0;
    while i < packages.len()
        invariant
            0 <= i <= packages.len(),
            packages@.len() == loaded.len(),
            *packages == *old(packages),
            payload_of_archive(payload, dalf),
            forall|j: int| 0 <= j < packages@.len() ==> payload_of_archive(#[trigger] packages@[j], loaded[j]),
            forall|j: int| 0 <= j < i ==> (archive_key())(#[trigger] loaded[j]) != dalf.hash@,
        decreases packages.len() - i,
    {
        if str_eq(packages[i].package_id.as_str(), payload.package_id.as_str()) {
            proof {
                assert(payload_of_archive(packages@[i as int], loaded[i as int]));
                lemma_key_position_found(loaded, dalf.hash@, archive_key(), i as int);
            }
            let ghost before = packages@;
            packages.set(i, payload);
            assert((archive_key())(dalf) == dalf.hash@);
            assert(upsert(loaded, dalf, archive_key()) == loaded.update(i as int, dalf));
            assert forall|j: int| 0 <= j < packages@.len() implies payload_of_archive(
                #[trigger] packages@[j],
                upsert(loaded, dalf, archive_key())[j],
            ) by {
                if j == i {
                    assert(packages@[j] == payload);
                } else {
                    assert(packages@[j] == before[j]);
                }
            }
            return;
        }
        i += 1;
    }
    proof {
        lemma_key_position_absent(loaded, dalf.hash@, archive_key());
    }
    packages.push(payload);
    assert((archive_key())(dalf) == dalf.hash@);
}

impl<'a> DamlArchivePayload<'a> {
    /// An archive of one package, unnamed.
    pub fn from_single_package(package: DamlPackagePayload<'a>) -> (payload: Self)
        ensures
            payload.archive_name@ == "unnamed"@,
            payload.main_package_id@ == package.package_id@,
            payload.packages@ == seq![package],
    {
        let main_package_id = package.package_id.clone();
        let mut packages: Vec<DamlPackagePayload<'a>> = Vec::new();
        packages.push(package);
        assert(packages@ =~= seq![package]);
        DamlArchivePayload { archive_name: String::from_str("unnamed"), main_package_id, packages }
    }

    /// The package with the given id.
    pub fn package_by_id(&self, package_id: &str) -> (package: Option<&DamlPackagePayload<'a>>)
        ensures
            match package {
                Some(p) => exists|i: int|
                    0 <= i < self.packages@.len() && self.packages@[i] == *p && p.package_id@ == package_id@
                        && forall|j: int| 0 <= j < i ==> (#[trigger] self.packages@[j]).package_id@ != package_id@,
                None => forall|j: int|
                    0 <= j < self.packages@.len() ==> (#[trigger] self.packages@[j]).package_id@ != package_id@,
            },
    {
        let mut i: usize = 0;
        while i < self.packages.len()
            invariant
                0 <= i <= self.packages.len(),
                forall|j: int| 0 <= j < i ==> (#[trigger] self.packages@[j]).package_id@ != package_id@,
            decreases self.packages.len() - i,
        {
            if str_eq(self.packages[i].package_id.as_str(), package_id) {
                return Some(&self.packages[i]);
            }
            i += 1;
        }
        None
    }

    /// Decode every package of a DAR. A dependency with the id of an earlier
    /// package takes its place. Each package's name table then lists every
    /// package of the archive, so that references across packages resolve to
    /// their package's name.
    pub fn try_from(dar: &'a DarFile) -> (r: DamlLfConvertResult<DamlArchivePayload<'a>>)
        ensures
            match r {
                Ok(ap) => first_error(dar_archives(*dar), metadata_check()) is None && payload_of_dar(ap, *dar),
                Err(e) => first_error(dar_archives(*dar), metadata_check()) == Some(e@),
            },
    {
        let ghost archives = dar_archives(*dar);
        let mut packages: Vec<DamlPackagePayload<'a>> = Vec::new();
        assert(archives[0] == dar.main);
        let main = match DamlPackagePayload::try_from(&dar.main) {
            Ok(p) => p,
            Err(e) => {
                proof {
                    lemma_first_error_at(archives, metadata_check(), 0);
                }
                return Err(e);
            },
        };
        assert(archives.take(1).drop_last() =~= Seq::<DamlLfArchive>::empty());
        insert_payload(&mut packages, main, Ghost(Seq::empty()), Ghost(dar.main));
        assert(archives.take(1).last() == dar.main);
        assert(upsert_all(Seq::<DamlLfArchive>::empty(), archives.take(1).drop_last(), archive_key())
            == Seq::<DamlLfArchive>::empty());
        assert(upsert_all(Seq::empty(), archives.take(1), archive_key()) == upsert(
            Seq::<DamlLfArchive>::empty(),
            dar.main,
            archive_key(),
        ));
        let count = dar.dependencies.len();
        let mut k: usize = 0;
        while k < count
            invariant
                0 <= k <= count,
                count == dar.dependencies@.len(),
                archives == dar_archives(*dar),
                archives.len() == count + 1,
                forall|j: int| 0 <= j < k + 1 ==> metadata_check()(#[trigger] archives[j]) is None,
                packages@.len() == upsert_all(Seq::empty(), archives.take(k + 1), archive_key()).len(),
                forall|i: int|
                    0 <= i < packages@.len() ==> payload_of_archive(
                        #[trigger] packages@[i],
                        upsert_all(Seq::empty(), archives.take(k + 1), archive_key())[i],
                    ),
            decreases count - k,
        {
            let dalf: &'a DamlLfArchive = &dar.dependencies[k];
            assert(*dalf == archives[k + 1]);
            let payload = match DamlPackagePayload::try_from(dalf) {
                Ok(p) => p,
                Err(e) => {
                    proof {
                        lemma_first_error_at(archives, metadata_check(), k + 1);
                    }
                    return Err(e);
                },
            };
            assert(archives.take(k + 2).drop_last() =~= archives.take(k + 1));
            insert_payload(
                &mut packages,
                payload,
                Ghost(upsert_all(Seq::empty(), archives.take(k + 1), archive_key())),
                Ghost(*dalf),
            );
            k += 1;
        }
        let k: usize = count + 0;
        proof {
            assert(archives.take(count + 1) =~= archives);
            lemma_first_error_none(archives, metadata_check());
        }
        let ghost loaded = loaded_archives(*dar);
        let mut table: Vec<(String, String)> = Vec::new();
        let mut i: usize = 0;
        while i < packages.len()
            invariant
                0 <= i <= packages.len(),
                table@.len() == i,
                forall|j: int|
                    0 <= j < i ==> (#[trigger] table@[j]).0@ == packages@[j].package_id@ && table@[j].1@
                        == packages@[j].name@,
            decreases packages.len() - i,
        {
            let id = packages[i].package_id.clone();
            let name = packages[i].name.clone();
            table.push((id, name));
            i += 1;
        }
        let mut i: usize = 0;
        while i < packages.len()
            invariant
                0 <= i <= packages.len(),
                table@.len() == packages@.len(),
                packages@.len() == loaded.len(),
                forall|j: int| 0 <= j < packages@.len() ==> payload_of_archive(#[trigger] packages@[j], loaded[j]),
                forall|j: int|
                    0 <= j < packages@.len() ==> (#[trigger] table@[j]).0@ == packages@[j].package_id@ && table@[j].1@
                        == packages@[j].name@,
                forall|j: int|
                    0 <= j < i ==> {
                        &&& (#[trigger] packages@[j]).spec_pkg_names().len() == table@.len()
                        &&& forall|m: int|
                            0 <= m < table@.len() ==> (#[trigger] packages@[j].spec_pkg_names()[m]).0@
                                == table@[m].0@ && packages@[j].spec_pkg_names()[m].1@ == table@[m].1@
                    },
            decreases packages.len() - i,
        {
            let names = copy_table(&table);
            let ghost before = packages@;
            packages[i].set_pkg_names(names);
            assert(forall|j: int| 0 <= j < packages@.len() && j != i ==> packages@[j] == before[j]);
            i += 1;
        }
        Ok(DamlArchivePayload { archive_name: dar.main.name.clone(), main_package_id: dar.main.hash.clone(), packages })
    }
}

/// The archives of a DAR by package id have distinct ids.
pub proof fn lemma_loaded_distinct(dar: DarFile)
    ensures
        distinct_keys(loaded_archives(dar), archive_key()),
{
    lemma_upsert_all_distinct(Seq::<DamlLfArchive>::empty(), dar_archives(dar), archive_key());
}

/// After decoding a DAR, each package names every package of the archive by
/// that package's own name: a reference into any package of the archive
/// resolves to its name.
pub proof fn law_package_names_resolve<'a>(ap: DamlArchivePayload<'a>, dar: DarFile, i: int, j: int)
    requires
        payload_of_dar(ap, dar),
        0 <= i < ap.packages@.len(),
        0 <= j < ap.packages@.len(),
    ensures
        spec_package_name(ap.packages@[i], ap.packages@[j].package_id@) == ap.packages@[j].name@,
{
    lemma_loaded_distinct(dar);
    let ps = ap.packages@;
    let loaded = loaded_archives(dar);
    assert(payload_of_archive(ps[i], loaded[i]));
    assert(payload_of_archive(ps[j], loaded[j]));
    if i != j {
        assert((archive_key())(loaded[i]) != (archive_key())(loaded[j]));
        let table = ps[i].pkg_names@;
        assert forall|m: int| 0 <= m < table.len() && m != j implies (#[trigger] table[m]).0@ != ps[j].package_id@ by {
            assert(table[m].0@ == ps[m].package_id@);
            assert(payload_of_archive(ps[m], loaded[m]));
            assert((archive_key())(loaded[m]) != (archive_key())(loaded[j]));
        }
        lemma_table_lookup_unique(table, ps[j].package_id@, j);
    }
}

} // verus!
