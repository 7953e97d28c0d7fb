//! Plugin identity: the caller-supplied manifest, the derived plugin id
//! `<name>!<version>`, and the record a loaded definition is stored under.

use vstd::prelude::*;

verus! {

use vstd::string::StringExecFns;

/// Caller-supplied identity and location descriptor for a plugin module.
pub struct PlugManifest {
    pub name: String,
    pub version: String,
    pub module_file: String,
}

/// Mathematical model of a manifest: each field as a sequence of characters.
#[verifier::ext_equal]
pub ghost struct ManifestV {
    pub name: Seq<char>,
    pub version: Seq<char>,
    pub module_file: Seq<char>,
}

impl View for PlugManifest {
    type V = ManifestV;

    open spec fn view(&self) -> ManifestV {
        ManifestV { name: self.name@, version: self.version@, module_file: self.module_file@ }
    }
}

/// An opaque handle to a compiled module held by the embedding engine.
///
/// The runtime never inspects a compiled module; the engine hands a handle out
/// for each successful compilation and receives it back at instantiation time.
#[derive(Clone, Copy, PartialEq, Eq, Structural, Debug)]
pub struct CompiledModule {
    pub handle: u64,
}

/// A loaded plugin definition: the derived id, the manifest it was loaded
/// from, and the compiled module the engine produced for it.
pub struct PlugRecord {
    pub id: String,
    pub manifest: PlugManifest,
    pub module: CompiledModule,
}

/// Mathematical model of a loaded plugin record.
#[verifier::ext_equal]
pub ghost struct PlugRecordV {
    pub id: Seq<char>,
    pub manifest: ManifestV,
    pub module: CompiledModule,
}

impl View for PlugRecord {
    type V = PlugRecordV;

    open spec fn view(&self) -> PlugRecordV {
        PlugRecordV { id: self.id@, manifest: self.manifest@, module: self.module }
    }
}

/// The registry key derived from a manifest: `<name>!<version>`.
pub open spec fn plug_id_of(name: Seq<char>, version: Seq<char>) -> Seq<char> {
    name + seq!['!'] + version
}

/// Builds the id string `<name>!<version>` for a manifest.
pub fn derive_plug_id(manifest: &PlugManifest) -> (id: String)
    ensures
        id@ == plug_id_of(manifest.name@, manifest.version@),
{
    proof {
        reveal_strlit("!");
        assert("!"@ =~= seq!['!']);
    }
    let id = String::from_str(manifest.name.as_str());
    let id = id.concat("!");
    let id = id.concat(manifest.version.as_str());
    id
}

} // verus!
