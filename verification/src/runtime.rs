//! The runtime: the plugin registry, the instance manager, and the lifecycle
//! decisions of `load` and `start`.
//!
//! The sandbox engine is an external collaborator. Each operation that needs
//! it is split at that boundary: `load_plug` takes the outcome of compiling
//! the manifest's module, and a start attempt runs in two steps —
//! `start_plug` resolves the definition and creates the per-instance info,
//! the embedding application instantiates the module and performs the
//! identity handshake, and `finish_start` judges the handshake's outcome and
//! admits the instance only on an exact identity match.

use vstd::prelude::*;

use crate::instance::Instance;
use crate::instance::InstanceInfo;
use crate::instance::InstanceInfoV;
use crate::instance::InstanceV;
use crate::instance::PendingInstance;
use crate::instance::PlugMeta;
use crate::instance::PlugMetaV;
use crate::instance::StoreHandle;
use crate::plug::CompiledModule;
use crate::plug::ManifestV;
use crate::plug::PlugManifest;
use crate::plug::PlugRecord;
use crate::plug::PlugRecordV;
use crate::plug::derive_plug_id;
use crate::plug::plug_id_of;
use crate::table::InstanceMap;
use crate::table::PlugMap;
use crate::table::instance_contents;
use crate::table::instance_map_get_info;
use crate::table::instance_map_insert;
use crate::table::instance_map_len;
use crate::table::instance_map_new;
use crate::table::plug_map_get;
use crate::table::plug_map_insert;
use crate::table::plug_map_new;
use crate::table::registry_contents;

verus! {

use std::sync::Arc;
use vstd::string::StringExecFns;

/// Why a `load` or `start` call failed.
#[derive(Debug)]
pub enum RuntimeError {
    /// The module could not be read or compiled; scoped to one `load` call.
    ComponentLoadErr(String),
    /// The sandbox could not be instantiated, or the handshake call failed.
    ComponentInitErr(String),
    /// The handshake reported an identity that differs from the manifest.
    PlugInitErr(String),
    /// No definition is loaded under the requested id.
    PlugNotFound { id: String },
}

/// Relies on time::OffsetDateTime::now_utc: reads the wall clock, here
/// reduced to whole seconds since the Unix epoch. The result depends on the
/// clock, so nothing is promised of its value.
#[verifier::external_body]
fn now_unix_ts() -> (ts: i64) {
    time::OffsetDateTime::now_utc().unix_timestamp()
}

/// The record that loading `manifest` with compiled module `module` stores.
pub open spec fn loaded_record(manifest: ManifestV, module: CompiledModule) -> PlugRecordV {
    PlugRecordV {
        id: plug_id_of(manifest.name, manifest.version),
        manifest: manifest,
        module: module,
    }
}

/// The identity a plugin reports matches its manifest exactly.
pub open spec fn identity_matches(meta: PlugMetaV, manifest: ManifestV) -> bool {
    meta.name == manifest.name && meta.version == manifest.version
}

/// The error text for a handshake identity that differs from the manifest.
pub open spec fn identity_mismatch_msg(meta: PlugMetaV, manifest: ManifestV) -> Seq<char> {
    if meta.name != manifest.name {
        "manifest mismatch on name: "@ + meta.name + " != "@ + manifest.name
    } else {
        "manifest mismatch on version: "@ + meta.version + " != "@ + manifest.version
    }
}

/// The instance table entry an admitted start attempt creates.
pub open spec fn started_instance(info: InstanceInfoV, store: StoreHandle) -> InstanceV {
    InstanceV { info: info, store: store }
}

/// The plugin lifecycle runtime: the registry of loaded definitions, the
/// table of live instances, and the counter the next instance id is taken
/// from.
pub struct Rt {
    registry: PlugMap,
    instances: InstanceMap,
    instance_ctr: u64,
}

impl Rt {
    /// The registry's contents: plugin id to loaded record.
    pub closed spec fn registry_view(self) -> Map<Seq<char>, PlugRecordV> {
        registry_contents(self.registry)
    }

    /// The instance table's contents: instance id to live instance.
    pub closed spec fn instances_view(self) -> Map<u64, InstanceV> {
        instance_contents(self.instances)
    }

    /// The next instance id the runtime will issue.
    pub closed spec fn next_instance_id(self) -> u64 {
        self.instance_ctr
    }

    /// Well-formedness: the instance table is finite, and every id in it was
    /// issued below the counter, so a live id is never issued again.
    pub open spec fn wf(self) -> bool {
        &&& self.instances_view().dom().finite()
        &&& forall|k: u64| self.instances_view().contains_key(k) ==> k < self.next_instance_id()
    }

    /// Builds a runtime with an empty registry, an empty instance table, and
    /// the instance counter at zero.
    pub fn new() -> (rt: Rt)
        ensures
            rt.wf(),
            rt.registry_view().dom() =~= Set::<Seq<char>>::empty(),
            rt.instances_view().dom() =~= Set::<u64>::empty(),
            rt.next_instance_id() == 0,
    {
        let rt = Rt { registry: plug_map_new(), instances: instance_map_new(), instance_ctr: 0 };
        rt
    }

    /// Loads a plugin definition: derives the id `<name>!<version>` and, if
    /// the engine compiled the manifest's module, stores the record under
    /// that id, overwriting any previous definition (last write wins). If
    /// compilation failed, the registry is left unchanged and the engine's
    /// report is returned as `ComponentLoadErr`. Instances are never touched.
    pub fn load_plug(
        &mut self,
        manifest: PlugManifest,
        compiled: Result<CompiledModule, String>,
    ) -> (r: Result<String, RuntimeError>)
        ensures
            final(self).instances_view() == old(self).instances_view(),
            final(self).next_instance_id() == old(self).next_instance_id(),
            old(self).wf() ==> final(self).wf(),
            (match compiled {
                Ok(module) => {
                    &&& (r matches Ok(id) && id@ == plug_id_of(manifest.name@, manifest.version@))
                    &&& final(self).registry_view() =~= old(self).registry_view().insert(
                        plug_id_of(manifest.name@, manifest.version@),
                        loaded_record(manifest@, module),
                    )
                },
                Err(report) => {
                    &&& (r matches Err(e) && e matches RuntimeError::ComponentLoadErr(msg)
                        && msg@ == report@)
                    &&& final(self).registry_view() == old(self).registry_view()
                },
            }),
    {
        match compiled {
            Ok(module) => {
                let id = derive_plug_id(&manifest);
                let record = PlugRecord { id: id.clone(), manifest, module };
                plug_map_insert(&mut self.registry, id.clone(), Arc::new(record));
                Ok(id)
            },
            Err(report) => Err(RuntimeError::ComponentLoadErr(report)),
        }
    }

    /// Looks up a loaded definition; a low-contention concurrent read.
    pub fn get_plug(&self, plug_id: &str) -> (r: Option<Arc<PlugRecord>>)
        ensures
            (match r {
                Some(record) => self.registry_view().contains_key(plug_id@) && record@
                    == self.registry_view()[plug_id@],
                None => !self.registry_view().contains_key(plug_id@),
            }),
    {
        plug_map_get(&self.registry, plug_id)
    }

    /// Begins a start attempt: resolves the definition and creates the
    /// per-instance info the host bridge will share. Fails with
    /// `PlugNotFound` exactly when no definition is loaded under the id; the
    /// runtime is never changed, and no instance id is allocated. The
    /// embedding application then instantiates the module in a fresh store,
    /// performs the handshake, and hands its outcome to `finish_start`.
    pub fn start_plug(&self, plug_id: &str) -> (r: Result<PendingInstance, RuntimeError>)
        ensures
            (match r {
                Ok(pending) => self.registry_view().contains_key(plug_id@) && pending.info@.plug
                    == self.registry_view()[plug_id@],
                Err(e) => !self.registry_view().contains_key(plug_id@) && (
                e matches RuntimeError::PlugNotFound { id } && id@ == plug_id@),
            }),
    {
        match plug_map_get(&self.registry, plug_id) {
            Some(record) => {
                let start_ts = now_unix_ts();
                let info = InstanceInfo { start_ts, plug: record };
                Ok(PendingInstance { info: Arc::new(info) })
            },
            None => Err(RuntimeError::PlugNotFound { id: String::from_str(plug_id) }),
        }
    }

    /// Finishes a start attempt with the handshake's outcome. A failed
    /// instantiation or handshake call is returned as `ComponentInitErr`; a
    /// reported identity that differs from the manifest is rejected as
    /// `PlugInitErr`; in both cases the attempt is discarded and the runtime
    /// is unchanged. Only on an exact identity match is the instance
    /// admitted: it enters the table under the freshly issued id, and the
    /// counter moves past that id so it is never issued again.
    pub fn finish_start(
        &mut self,
        pending: PendingInstance,
        store: StoreHandle,
        handshake: Result<PlugMeta, String>,
    ) -> (r: Result<u64, RuntimeError>)
        requires
            old(self).next_instance_id() < u64::MAX,
        ensures
            old(self).wf() ==> final(self).wf(),
            final(self).registry_view() == old(self).registry_view(),
            (match handshake {
                Ok(meta) => if identity_matches(meta@, pending.info@.plug.manifest) {
                    &&& (r matches Ok(id) && id == old(self).next_instance_id())
                    &&& final(self).next_instance_id() == old(self).next_instance_id() + 1
                    &&& final(self).instances_view() =~= old(self).instances_view().insert(
                        old(self).next_instance_id(),
                        started_instance(pending.info@, store),
                    )
                } else {
                    &&& (r matches Err(e) && e matches RuntimeError::PlugInitErr(msg) && msg@
                        == identity_mismatch_msg(meta@, pending.info@.plug.manifest))
                    &&& final(self).instances_view() == old(self).instances_view()
                    &&& final(self).next_instance_id() == old(self).next_instance_id()
                },
                Err(report) => {
                    &&& (r matches Err(e) && e matches RuntimeError::ComponentInitErr(msg)
                        && msg@ == report@)
                    &&& final(self).instances_view() == old(self).instances_view()
                    &&& final(self).next_instance_id() == old(self).next_instance_id()
                },
            }),
    {
        match handshake {
            Ok(meta) => {
                if !(meta.name == pending.info.plug.manifest.name) {
                    let msg = String::from_str("manifest mismatch on name: ");
                    let msg = msg.concat(meta.name.as_str());
                    let msg = msg.concat(" != ");
                    let msg = msg.concat(pending.info.plug.manifest.name.as_str());
                    Err(RuntimeError::PlugInitErr(msg))
                } else if !(meta.version == pending.info.plug.manifest.version) {
                    let msg = String::from_str("manifest mismatch on version: ");
                    let msg = msg.concat(meta.version.as_str());
                    let msg = msg.concat(" != ");
                    let msg = msg.concat(pending.info.plug.manifest.version.as_str());
                    Err(RuntimeError::PlugInitErr(msg))
                } else {
                    let id = self.instance_ctr;
                    self.instance_ctr = self.instance_ctr + 1;
                    let instance = Instance { info: pending.info, store };
                    instance_map_insert(&mut self.instances, id, instance);
                    Ok(id)
                }
            },
            Err(report) => Err(RuntimeError::ComponentInitErr(report)),
        }
    }

    /// How many instance ids have been issued so far; the next start to be
    /// admitted receives exactly this id.
    pub fn issued_ids(&self) -> (n: u64)
        ensures
            n == self.next_instance_id(),
    {
        self.instance_ctr
    }

    /// The number of live instances in the table.
    pub fn instance_count(&self) -> (n: usize)
        ensures
            n as nat == self.instances_view().len(),
    {
        instance_map_len(&self.instances)
    }

    /// The shared info of a live instance, if the id is in the table.
    pub fn get_instance_info(&self, instance_id: u64) -> (r: Option<Arc<InstanceInfo>>)
        ensures
            (match r {
                Some(info) => self.instances_view().contains_key(instance_id) && info@
                    == self.instances_view()[instance_id].info,
                None => !self.instances_view().contains_key(instance_id),
            }),
    {
        instance_map_get_info(&self.instances, instance_id)
    }
}

/// Loading a definition and then looking its id up: the registry after
/// `load_plug` maps the derived id `<name>!<version>` to a record whose
/// manifest equals the loaded manifest and whose id equals that derived id,
/// which is what `get_plug` then returns.
pub proof fn lemma_load_then_get(
    registry: Map<Seq<char>, PlugRecordV>,
    manifest: ManifestV,
    module: CompiledModule,
)
    ensures
        ({
            let id = plug_id_of(manifest.name, manifest.version);
            let loaded = registry.insert(id, loaded_record(manifest, module));
            &&& loaded.contains_key(id)
            &&& loaded[id].manifest == manifest
            &&& loaded[id].id == id
            &&& loaded[id].module == module
        }),
{
}

/// The instance table and counter after admitting each entry of `items` in
/// turn, each under the id the counter stands at, as one `finish_start`
/// admission does.
pub open spec fn admit_all(
    instances: Map<u64, InstanceV>,
    ctr: u64,
    items: Seq<InstanceV>,
) -> Map<u64, InstanceV>
    decreases items.len(),
{
    if items.len() == 0 {
        instances
    } else {
        admit_all(instances.insert(ctr, items[0]), ((ctr + 1) as u64), items.drop_first())
    }
}

/// Issuing `items.len()` successful starts from a well-formed runtime yields
/// that many distinct, strictly increasing instance ids — `ctr`, `ctr + 1`,
/// and so on — and the table afterwards holds exactly `items.len()` more
/// instances, each under the id it was issued, with every earlier entry kept.
pub proof fn lemma_starts_issue_fresh_increasing_ids(
    instances: Map<u64, InstanceV>,
    ctr: u64,
    items: Seq<InstanceV>,
)
    requires
        instances.dom().finite(),
        forall|k: u64| instances.contains_key(k) ==> k < ctr,
        ctr + items.len() <= u64::MAX,
    ensures
        admit_all(instances, ctr, items).dom().finite(),
        admit_all(instances, ctr, items).len() == instances.len() + items.len(),
        admit_all(instances, ctr, items).dom() =~= instances.dom() + Set::new(
            |k: u64| ctr <= k < ctr + items.len(),
        ),
        forall|i: int|
            0 <= i < items.len() ==> admit_all(instances, ctr, items)[((ctr + i) as u64)]
                == items[i],
        forall|k: u64|
            instances.contains_key(k) ==> admit_all(instances, ctr, items)[k] == instances[k],
    decreases items.len(),
{
    if items.len() == 0 {
        assert(admit_all(instances, ctr, items) == instances);
        assert(admit_all(instances, ctr, items).dom() =~= instances.dom() + Set::new(
            |k: u64| ctr <= k < ctr + items.len(),
        ));
    } else {
        let stepped = instances.insert(ctr, items[0]);
        assert(!instances.contains_key(ctr));
        assert(stepped.dom() =~= instances.dom().insert(ctr));
        vstd::set::axiom_set_insert_len(instances.dom(), ctr);
        vstd::set::axiom_set_insert_finite(instances.dom(), ctr);
        lemma_starts_issue_fresh_increasing_ids(stepped, ((ctr + 1) as u64), items.drop_first());
        let rest = items.drop_first();
        let next = ((ctr + 1) as u64);
        assert(admit_all(instances, ctr, items) == admit_all(stepped, next, rest));
        assert(admit_all(instances, ctr, items).dom() =~= instances.dom() + Set::new(
            |k: u64| ctr <= k < ctr + items.len(),
        ));
        assert forall|k: u64| instances.contains_key(k) implies admit_all(
            instances,
            ctr,
            items,
        ).contains_key(k) && admit_all(instances, ctr, items)[k] == instances[k] by {
            assert(stepped.contains_key(k) && stepped[k] == instances[k]);
            assert(admit_all(stepped, next, rest).contains_key(k) && admit_all(stepped, next, rest)[k]
                == stepped[k]);
        }
        assert forall|i: int| 0 <= i < items.len() implies admit_all(
            instances,
            ctr,
            items,
        ).contains_key(((ctr + i) as u64)) && admit_all(instances, ctr, items)[((ctr + i) as u64)]
            == items[i] by {
            if i == 0 {
                assert(stepped.contains_key(ctr) && stepped[ctr] == items[0]);
                assert(admit_all(stepped, next, rest).contains_key(ctr) && admit_all(
                    stepped,
                    next,
                    rest,
                )[ctr] == stepped[ctr]);
            } else {
                let j = i - 1;
                assert(rest[j] == items[i]);
                assert(admit_all(stepped, next, rest).contains_key(((next + j) as u64))
                    && admit_all(stepped, next, rest)[((next + j) as u64)] == rest[j]);
                assert(((next + j) as u64) == ((ctr + i) as u64));
            }
        }
    }
}

} // verus!
