//! Named, hashed archives and the dar files that hold them.

use vstd::prelude::*;

use crate::payload::DamlLfArchivePayload;

verus! {

/// The hash function an archive's hash was computed with.
#[derive(Debug, Clone, Copy, PartialEq, Eq, Structural)]
pub enum DamlLfHashFunction {
    Sha256,
}

/// A named, hashed Daml-LF archive. Its hash is the package id.
#[derive(Debug)]
pub struct DamlLfArchive {
    pub name: String,
    pub payload: DamlLfArchivePayload,
    pub hash_function: DamlLfHashFunction,
    pub hash: String,
}

impl DamlLfArchive {
    pub fn new(
        name: String,
        payload: DamlLfArchivePayload,
        hash_function: DamlLfHashFunction,
        hash: String,
    ) -> (archive: Self)
        ensures
            archive.name == name,
            archive.payload == payload,
            archive.hash_function == hash_function,
            archive.hash == hash,
    {
        DamlLfArchive { name, payload, hash_function, hash }
    }

    pub fn payload(&self) -> (payload: &DamlLfArchivePayload)
        ensures
            *payload == self.payload,
    {
        &self.payload
    }
}

/// The manifest version of a dar.
#[derive(Debug, Clone, Copy, PartialEq, Eq, Structural)]
pub enum DarManifestVersion {
    Unknown,
    V1,
}

/// The format a dar declares.
#[derive(Debug, Clone, Copy, PartialEq, Eq, Structural)]
pub enum DarManifestFormat {
    Unknown,
    DamlLf,
}

/// Whether a dar is encrypted.
#[derive(Debug, Clone, Copy, PartialEq, Eq, Structural)]
pub enum DarEncryptionType {
    Unknown,
    NotEncrypted,
}

/// The manifest of a dar: who made it, which archive is the main one and
/// which are its dependencies.
#[derive(Debug)]
pub struct DarManifest {
    pub version: DarManifestVersion,
    pub created_by: String,
    pub dalf_main: String,
    pub dalf_dependencies: Vec<String>,
    pub format: DarManifestFormat,
    pub encryption: DarEncryptionType,
}

impl DarManifest {
    pub fn new(
        version: DarManifestVersion,
        created_by: String,
        dalf_main: String,
        dalf_dependencies: Vec<String>,
        format: DarManifestFormat,
        encryption: DarEncryptionType,
    ) -> (manifest: Self)
        ensures
            manifest.version == version,
            manifest.created_by == created_by,
            manifest.dalf_main == dalf_main,
            manifest.dalf_dependencies == dalf_dependencies,
            manifest.format == format,
            manifest.encryption == encryption,
    {
        DarManifest { version, created_by, dalf_main, dalf_dependencies, format, encryption }
    }

    /// The manifest implied by a main archive and its dependencies, for a
    /// dar assembled in memory rather than read from a file.
    pub fn new_implied(dalf_main: String, dalf_dependencies: Vec<String>) -> (manifest: Self)
        ensures
            manifest.version == DarManifestVersion::Unknown,
            manifest.created_by@ == seq!['i', 'm', 'p', 'l', 'i', 'e', 'd'],
            manifest.dalf_main == dalf_main,
            manifest.dalf_dependencies == dalf_dependencies,
            manifest.format == DarManifestFormat::DamlLf,
            manifest.encryption == DarEncryptionType::NotEncrypted,
    {
        proof {
            reveal_strlit("implied");
        }
        DarManifest {
            version: DarManifestVersion::Unknown,
            created_by: String::from_str("implied"),
            dalf_main,
            dalf_dependencies,
            format: DarManifestFormat::DamlLf,
            encryption: DarEncryptionType::NotEncrypted,
        }
    }

    pub fn version(&self) -> (version: DarManifestVersion)
        ensures
            version == self.version,
    {
        self.version
    }

    pub fn created_by(&self) -> (created_by: &str)
        ensures
            created_by@ == self.created_by@,
    {
        self.created_by.as_str()
    }

    pub fn dalf_main(&self) -> (dalf_main: &str)
        ensures
            dalf_main@ == self.dalf_main@,
    {
        self.dalf_main.as_str()
    }

    pub fn dalf_dependencies(&self) -> (deps: &Vec<String>)
        ensures
            *deps == self.dalf_dependencies,
    {
        &self.dalf_dependencies
    }

    pub fn format(&self) -> (format: DarManifestFormat)
        ensures
            format == self.format,
    {
        self.format
    }

    pub fn encryption(&self) -> (encryption: DarEncryptionType)
        ensures
            encryption == self.encryption,
    {
        self.encryption
    }
}

/// A dar: a manifest, the main archive and its dependencies.
#[derive(Debug)]
pub struct DarFile {
    pub manifest: DarManifest,
    pub main: DamlLfArchive,
    pub dependencies: Vec<DamlLfArchive>,
}

impl DarFile {
    pub fn new(manifest: DarManifest, main: DamlLfArchive, dependencies: Vec<DamlLfArchive>) -> (dar: Self)
        ensures
            dar.manifest == manifest,
            dar.main == main,
            dar.dependencies == dependencies,
    {
        DarFile { manifest, main, dependencies }
    }

    pub fn manifest(&self) -> (manifest: &DarManifest)
        ensures
            *manifest == self.manifest,
    {
        &self.manifest
    }

    pub fn main(&self) -> (main: &DamlLfArchive)
        ensures
            *main == self.main,
    {
        &self.main
    }

    pub fn dependencies(&self) -> (dependencies: &Vec<DamlLfArchive>)
        ensures
            *dependencies == self.dependencies,
    {
        &self.dependencies
    }
}

} // verus!
