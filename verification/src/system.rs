use vstd::prelude::*;
use vstd::string::StringExecFns;

use crate::action::Workflows;
use crate::addr::{lemma_last_seg_join, path_file_name, spec_last_seg, AddrType};
use crate::const_vars::{
    MOD_LIST_YML, NET_RES_YML, RESOURCE_YML, SPEC_DIR, VALUE_JSON, VARS_YML, WORKFLOWS_YML,
};
use crate::error::{ErrorKind, SpecError, SpecResult};
use crate::fsmodel::{FileBody, TextFs};
use crate::keyed::{keyed_at, keyed_has, keyed_insert, keyed_unique, lemma_keyed_insert};
use crate::module::{CaculateResSpec, ModuleSpec, ModuleSpecRef, TargetModel};
use crate::types::{lemma_join_assoc, lemma_join_ne, LocalizeOptions, ValuePath};
use crate::update::{FetchTask, UpdateOptions};
use crate::vars::{merge_scope, spec_merged_value, ValueDict, VarCollection};

verus! {

/// Whether a module reference takes part in update and localization.
pub open spec fn ref_effective(m: ModuleSpecRef) -> bool {
    m.spec_effective()
}

/// The references update and localization walk, in collection order.
pub open spec fn effective_refs(refs: Seq<ModuleSpecRef>) -> Seq<ModuleSpecRef> {
    refs.filter(|m: ModuleSpecRef| ref_effective(m))
}

/// An address in the system's network space, four octets.
#[derive(Clone, Copy, Debug, PartialEq, Eq, Structural)]
pub struct Ipv4Addr {
    pub a: u8,
    pub b: u8,
    pub c: u8,
    pub d: u8,
}

impl Ipv4Addr {
    pub fn new(a: u8, b: u8, c: u8, d: u8) -> (r: Self)
        ensures
            r == (Ipv4Addr { a, b, c, d }),
    {
        Ipv4Addr { a, b, c, d }
    }
}

/// The network space a model allocates from: a master address and an
/// inclusive range.
#[derive(Clone, Copy, Debug, PartialEq, Eq, Structural)]
pub struct NetResSpace {
    pub master: Ipv4Addr,
    pub range_from: Ipv4Addr,
    pub range_to: Ipv4Addr,
}

impl NetResSpace {
    pub fn new(master: Ipv4Addr, range: (Ipv4Addr, Ipv4Addr)) -> (r: Self)
        ensures
            r.master == master,
            r.range_from == range.0,
            r.range_to == range.1,
    {
        NetResSpace { master, range_from: range.0, range_to: range.1 }
    }
}

/// One provisioned node: its computing resources and its addresses.
#[derive(Debug)]
pub struct Vps {
    res: CaculateResSpec,
    ips: Vec<Ipv4Addr>,
}

impl Vps {
    pub closed spec fn spec_res(&self) -> CaculateResSpec {
        self.res
    }

    pub closed spec fn spec_ips(&self) -> Seq<Ipv4Addr> {
        self.ips@
    }

    pub fn new(res: CaculateResSpec, ips: Vec<Ipv4Addr>) -> (r: Self)
        ensures
            r.spec_res() == res,
            r.spec_ips() == ips@,
    {
        Vps { res, ips }
    }

    pub fn res(&self) -> (r: &CaculateResSpec)
        ensures
            *r == self.spec_res(),
    {
        &self.res
    }

    pub fn ip_count(&self) -> (r: usize)
        ensures
            r == self.spec_ips().len(),
    {
        self.ips.len()
    }

    pub fn ip_at(&self, i: usize) -> (r: &Ipv4Addr)
        requires
            i < self.spec_ips().len(),
        ensures
            *r == self.spec_ips()[i as int],
    {
        &self.ips[i]
    }

    pub fn duplicate(&self) -> (r: Self)
        ensures
            r.spec_res() == self.spec_res(),
            r.spec_ips() == self.spec_ips(),
    {
        let n = self.ips.len();
        let mut ips: Vec<Ipv4Addr> = Vec::new();
        let mut i: usize = 0;
        while i < n
            invariant
                0 <= i <= n,
                n == self.ips@.len(),
                ips@.len() == i,
                forall|j: int| 0 <= j < i ==> ips@[j] == self.ips@[j],
            decreases n - i,
        {
            let ip = self.ips[i];
            ips.push(ip);
            i += 1;
        }
        proof {
            assert(ips@ =~= self.ips@);
        }
        Vps { res: self.res, ips }
    }
}

/// The nodes a model provisions.
#[derive(Debug)]
pub struct ModelResource {
    vps: Vec<Vps>,
}

impl ModelResource {
    pub closed spec fn spec_vps(&self) -> Seq<Vps> {
        self.vps@
    }

    /// Observational content: each node's resources and addresses.
    pub open spec fn spec_model(&self) -> Seq<(CaculateResSpec, Seq<Ipv4Addr>)> {
        self.spec_vps().map_values(|v: Vps| (v.spec_res(), v.spec_ips()))
    }

    pub fn from(vps: Vec<Vps>) -> (r: Self)
        ensures
            r.spec_vps() == vps@,
    {
        ModelResource { vps }
    }

    pub fn vps_count(&self) -> (r: usize)
        ensures
            r == self.spec_vps().len(),
    {
        self.vps.len()
    }

    pub fn vps_at(&self, i: usize) -> (r: &Vps)
        requires
            i < self.spec_vps().len(),
        ensures
            *r == self.spec_vps()[i as int],
    {
        &self.vps[i]
    }

    pub fn duplicate(&self) -> (r: Self)
        ensures
            r.spec_model() == self.spec_model(),
    {
        let n = self.vps.len();
        let mut vps: Vec<Vps> = Vec::new();
        let mut i: usize = 0;
        while i < n
            invariant
                0 <= i <= n,
                n == self.vps@.len(),
                vps@.len() == i,
                forall|j: int|
                    0 <= j < i ==> vps@[j].spec_res() == self.vps@[j].spec_res()
                        && vps@[j].spec_ips() == self.vps@[j].spec_ips(),
            decreases n - i,
        {
            let item = self.vps[i].duplicate();
            vps.push(item);
            i += 1;
        }
        let r = ModelResource { vps };
        proof {
            assert(r.spec_model() =~= self.spec_model());
        }
        r
    }
}

/// The modules of a system model: resolved specs and remote references.
#[derive(Debug)]
pub struct ModulesList {
    mods: Vec<ModuleSpec>,
    refs: Vec<ModuleSpecRef>,
}

impl ModulesList {
    pub closed spec fn spec_mods(&self) -> Seq<ModuleSpec> {
        self.mods@
    }

    pub closed spec fn spec_refs(&self) -> Seq<ModuleSpecRef> {
        self.refs@
    }

    pub fn new() -> (r: Self)
        ensures
            r.spec_mods().len() == 0,
            r.spec_refs().len() == 0,
    {
        ModulesList { mods: Vec::new(), refs: Vec::new() }
    }

    pub fn add_mod(&mut self, modx: ModuleSpec)
        ensures
            final(self).spec_mods() == old(self).spec_mods().push(modx),
            final(self).spec_refs() == old(self).spec_refs(),
    {
        self.mods.push(modx);
    }

    pub fn add_ref(&mut self, modx: ModuleSpecRef)
        ensures
            final(self).spec_refs() == old(self).spec_refs().push(modx),
            final(self).spec_mods() == old(self).spec_mods(),
    {
        self.refs.push(modx);
    }

    pub fn ref_count(&self) -> (r: usize)
        ensures
            r == self.spec_refs().len(),
    {
        self.refs.len()
    }

    pub fn ref_at(&self, i: usize) -> (r: &ModuleSpecRef)
        requires
            i < self.spec_refs().len(),
        ensures
            *r == self.spec_refs()[i as int],
    {
        &self.refs[i]
    }

    /// Observational content of the resolved specs.
    pub open spec fn spec_mods_model(&self) -> Seq<(Seq<char>, Seq<TargetModel>)> {
        self.spec_mods().map_values(|m: ModuleSpec| m.spec_model())
    }

    /// A value-for-value copy of references and resolved specs alike.
    pub fn duplicate(&self) -> (r: Self)
        ensures
            r.spec_refs() == self.spec_refs(),
            r.spec_mods_model() == self.spec_mods_model(),
    {
        let n = self.refs.len();
        let mut refs: Vec<ModuleSpecRef> = Vec::new();
        let mut i: usize = 0;
        while i < n
            invariant
                0 <= i <= n,
                n == self.refs@.len(),
                refs@.len() == i,
                forall|j: int| 0 <= j < i ==> refs@[j] == self.refs@[j],
            decreases n - i,
        {
            let item = self.refs[i].duplicate();
            refs.push(item);
            i += 1;
        }
        let m = self.mods.len();
        let mut mods: Vec<ModuleSpec> = Vec::new();
        let mut k: usize = 0;
        while k < m
            invariant
                0 <= k <= m,
                m == self.mods@.len(),
                mods@.len() == k,
                forall|j: int|
                    0 <= j < k ==> (#[trigger] mods@[j]).spec_model() == self.mods@[j].spec_model(),
            decreases m - k,
        {
            let item = self.mods[k].duplicate();
            mods.push(item);
            k += 1;
        }
        let r = ModulesList { mods, refs };
        proof {
            assert(r.refs@ =~= self.refs@);
            assert(r.mods@.map_values(|mx: ModuleSpec| mx.spec_model()) =~= self.mods@.map_values(
                |mx: ModuleSpec| mx.spec_model(),
            ));
        }
        r
    }
}

/// A reference to a whole system model at a remote address.
#[derive(Debug)]
pub struct SysModelSpecRef {
    name: String,
    addr: AddrType,
}

impl SysModelSpecRef {
    pub closed spec fn spec_name(&self) -> Seq<char> {
        self.name@
    }

    pub closed spec fn spec_addr(&self) -> AddrType {
        self.addr
    }

    pub fn from(name: &str, addr: AddrType) -> (r: Self)
        ensures
            r.spec_name() == name@,
            r.spec_addr() == addr,
    {
        SysModelSpecRef { name: String::from_str(name), addr }
    }

    pub fn name(&self) -> (r: &str)
        ensures
            r@ == self.spec_name(),
    {
        self.name.as_str()
    }

    pub fn addr(&self) -> (r: &AddrType)
        ensures
            *r == self.spec_addr(),
    {
        &self.addr
    }
}

/// A whole system model: modules, variables, resources, network space and
/// workflow actions, plus the location it was loaded from.  `local` is
/// `None` for a freshly built model and set exactly by loading; update and
/// localization demand it.
#[derive(Debug)]
pub struct SysModelSpec {
    name: String,
    mod_list: ModulesList,
    vars: VarCollection,
    res: ModelResource,
    net: NetResSpace,
    local: Option<String>,
    actions: Workflows,
}

impl SysModelSpec {
    pub closed spec fn spec_name(&self) -> Seq<char> {
        self.name@
    }

    pub closed spec fn spec_refs(&self) -> Seq<ModuleSpecRef> {
        self.mod_list.spec_refs()
    }

    pub closed spec fn spec_mods(&self) -> Seq<ModuleSpec> {
        self.mod_list.spec_mods()
    }

    pub closed spec fn spec_vars(&self) -> Seq<crate::vars::VarType> {
        self.vars.spec_vars()
    }

    pub closed spec fn spec_res(&self) -> Seq<(CaculateResSpec, Seq<Ipv4Addr>)> {
        self.res.spec_model()
    }

    pub closed spec fn spec_net(&self) -> NetResSpace {
        self.net
    }

    pub closed spec fn spec_local(&self) -> Option<String> {
        self.local
    }

    pub closed spec fn spec_actions(&self) -> Seq<crate::action::GxlAction> {
        self.actions.spec_actions()
    }

    /// A freshly built model: no modules yet, no on-disk location.
    pub fn new(
        name: &str,
        actions: Workflows,
        net: NetResSpace,
        res: ModelResource,
        vars: VarCollection,
    ) -> (r: Self)
        ensures
            r.spec_name() == name@,
            r.spec_refs().len() == 0,
            r.spec_mods().len() == 0,
            r.spec_vars() == vars.spec_vars(),
            r.spec_res() == res.spec_model(),
            r.spec_net() == net,
            r.spec_local() is None,
            r.spec_actions() == actions.spec_actions(),
    {
        SysModelSpec {
            name: String::from_str(name),
            mod_list: ModulesList::new(),
            vars,
            res,
            net,
            local: None,
            actions,
        }
    }

    pub fn add_mod(&mut self, modx: ModuleSpec)
        ensures
            final(self).spec_mods() == old(self).spec_mods().push(modx),
            final(self).spec_refs() == old(self).spec_refs(),
            final(self).spec_name() == old(self).spec_name(),
            final(self).spec_vars() == old(self).spec_vars(),
            final(self).spec_res() == old(self).spec_res(),
            final(self).spec_net() == old(self).spec_net(),
            final(self).spec_local() == old(self).spec_local(),
            final(self).spec_actions() == old(self).spec_actions(),
    {
        self.mod_list.add_mod(modx);
    }

    pub fn add_mod_ref(&mut self, modx: ModuleSpecRef)
        ensures
            final(self).spec_refs() == old(self).spec_refs().push(modx),
            final(self).spec_mods() == old(self).spec_mods(),
            final(self).spec_name() == old(self).spec_name(),
            final(self).spec_vars() == old(self).spec_vars(),
            final(self).spec_res() == old(self).spec_res(),
            final(self).spec_net() == old(self).spec_net(),
            final(self).spec_local() == old(self).spec_local(),
            final(self).spec_actions() == old(self).spec_actions(),
    {
        self.mod_list.add_ref(modx);
    }

    pub fn name(&self) -> (r: &str)
        ensures
            r@ == self.spec_name(),
    {
        self.name.as_str()
    }

    pub fn mod_list(&self) -> (r: &ModulesList)
        ensures
            r.spec_refs() == self.spec_refs(),
            r.spec_mods() == self.spec_mods(),
    {
        &self.mod_list
    }

    pub fn vars(&self) -> (r: &VarCollection)
        ensures
            r.spec_vars() == self.spec_vars(),
    {
        &self.vars
    }

    pub fn local(&self) -> (r: &Option<String>)
        ensures
            *r == self.spec_local(),
    {
        &self.local
    }

    pub closed spec fn spec_mods_model(&self) -> Seq<(Seq<char>, Seq<TargetModel>)> {
        self.mod_list.spec_mods_model()
    }

    /// Where the five record files of a model saved under `base`/`name` go.
    pub open spec fn spec_sys_keys(root: Seq<char>) -> (Seq<char>, Seq<char>, Seq<char>, Seq<
        char,
    >, Seq<char>) {
        let spd = ValuePath::spec_join(root, SPEC_DIR@);
        (
            ValuePath::spec_join(spd, MOD_LIST_YML@),
            ValuePath::spec_join(spd, RESOURCE_YML@),
            ValuePath::spec_join(spd, NET_RES_YML@),
            ValuePath::spec_join(spd, VARS_YML@),
            ValuePath::spec_join(root, WORKFLOWS_YML@),
        )
    }

    /// Persist under `base`/`name`: module list, resources, network space
    /// and variables under the spec directory, the workflows beside it.
    pub fn save_local(&self, fs: &mut TextFs, path: &ValuePath, name: &str) -> (r: SpecResult<()>)
        ensures
            r is Ok,
            ({
                let root = ValuePath::spec_join(path.spec_path(), name@);
                let keys = Self::spec_sys_keys(root);
                &&& final(fs).spec_has_dir(root)
                &&& final(fs).spec_has_dir(ValuePath::spec_join(root, SPEC_DIR@))
                &&& (final(fs).spec_file(keys.0) matches FileBody::ModList(ml) && ml.spec_refs()
                    == self.spec_refs() && ml.spec_mods_model() == self.spec_mods_model())
                &&& (final(fs).spec_file(keys.1) matches FileBody::Res(rm) && rm.spec_model()
                    == self.spec_res())
                &&& final(fs).spec_file(keys.2) == FileBody::Net(self.spec_net())
                &&& (final(fs).spec_file(keys.3) matches FileBody::Vars(vc) && vc.spec_vars()
                    == self.spec_vars())
                &&& (final(fs).spec_file(keys.4) matches FileBody::Flows(w) && w.spec_actions()
                    == self.spec_actions())
                &&& final(fs).spec_has_file(keys.0) && final(fs).spec_has_file(keys.1) && final(fs).spec_has_file(keys.2) && final(fs).spec_has_file(keys.3) && final(fs).spec_has_file(keys.4)
                &&& forall|p2: Seq<char>|
                    p2 != keys.0 && p2 != keys.1 && p2 != keys.2 && p2 != keys.3 && p2 != keys.4
                        ==> final(fs).spec_has_file(p2) == old(fs).spec_has_file(p2)
                &&& forall|p2: Seq<char>|
                    p2 != keys.0 && p2 != keys.1 && p2 != keys.2 && p2 != keys.3 && p2 != keys.4
                        && old(fs).spec_has_file(p2) ==> final(fs).spec_file(p2) == old(fs).spec_file(p2)
            }),
    {
        let root = path.join(name);
        let spd = root.join(SPEC_DIR);
        fs.ensure_dir(root.path_string());
        fs.ensure_dir(spd.path_string());
        proof {
            lemma_sys_keys_distinct(root.spec_path());
        }
        fs.write_file(spd.join(MOD_LIST_YML).path_string(), FileBody::ModList(self.mod_list.duplicate()));
        fs.write_file(spd.join(RESOURCE_YML).path_string(), FileBody::Res(self.res.duplicate()));
        fs.write_file(spd.join(NET_RES_YML).path_string(), FileBody::Net(self.net));
        fs.write_file(spd.join(VARS_YML).path_string(), FileBody::Vars(self.vars.duplicate()));
        fs.write_file(root.join(WORKFLOWS_YML).path_string(), FileBody::Flows(self.actions.duplicate()));
        Ok(())
    }

    /// Persist under `base`/ this model's own name.
    pub fn save_to(&self, fs: &mut TextFs, path: &ValuePath) -> (r: SpecResult<()>)
        ensures
            r is Ok,
            ({
                let root = ValuePath::spec_join(path.spec_path(), self.spec_name());
                let keys = Self::spec_sys_keys(root);
                &&& final(fs).spec_has_dir(root)
                &&& (final(fs).spec_file(keys.0) matches FileBody::ModList(ml) && ml.spec_refs()
                    == self.spec_refs() && ml.spec_mods_model() == self.spec_mods_model())
                &&& (final(fs).spec_file(keys.1) matches FileBody::Res(rm) && rm.spec_model()
                    == self.spec_res())
                &&& final(fs).spec_file(keys.2) == FileBody::Net(self.spec_net())
                &&& (final(fs).spec_file(keys.3) matches FileBody::Vars(vc) && vc.spec_vars()
                    == self.spec_vars())
                &&& (final(fs).spec_file(keys.4) matches FileBody::Flows(w) && w.spec_actions()
                    == self.spec_actions())
                &&& final(fs).spec_has_file(keys.0) && final(fs).spec_has_file(keys.1) && final(fs).spec_has_file(keys.2) && final(fs).spec_has_file(keys.3) && final(fs).spec_has_file(keys.4)
                &&& forall|p2: Seq<char>|
                    p2 != keys.0 && p2 != keys.1 && p2 != keys.2 && p2 != keys.3 && p2 != keys.4
                        ==> final(fs).spec_has_file(p2) == old(fs).spec_has_file(p2)
            }),
    {
        let name = self.name.clone();
        self.save_local(fs, path, name.as_str())
    }

    /// Reconstitute a model from `root`: the name is the path's last
    /// segment, every sub-record comes from its own file, and the local
    /// marker records the location.  Fails with a serialization kind when
    /// the name is empty or any file is missing or of the wrong shape.
    pub fn load_from(fs: &TextFs, root: &ValuePath) -> (r: SpecResult<SysModelSpec>)
        ensures
            ({
                let keys = Self::spec_sys_keys(root.spec_path());
                let well = spec_last_seg(root.spec_path()).len() > 0 && fs.spec_has_file(keys.0)
                    && (fs.spec_file(keys.0) is ModList) && fs.spec_has_file(keys.1) && (
                fs.spec_file(keys.1) is Res) && fs.spec_has_file(keys.2) && (fs.spec_file(
                    keys.2,
                ) is Net) && fs.spec_has_file(keys.3) && (fs.spec_file(keys.3) is Vars)
                    && fs.spec_has_file(keys.4) && (fs.spec_file(keys.4) is Flows);
                if well {
                    r matches Ok(s) && {
                        &&& s.spec_name() == spec_last_seg(root.spec_path())
                        &&& (fs.spec_file(keys.0) matches FileBody::ModList(ml) && s.spec_refs()
                            == ml.spec_refs() && s.spec_mods_model() == ml.spec_mods_model())
                        &&& (fs.spec_file(keys.1) matches FileBody::Res(rm) && s.spec_res()
                            == rm.spec_model())
                        &&& fs.spec_file(keys.2) == FileBody::Net(s.spec_net())
                        &&& (fs.spec_file(keys.3) matches FileBody::Vars(vc) && s.spec_vars()
                            == vc.spec_vars())
                        &&& (fs.spec_file(keys.4) matches FileBody::Flows(w) && s.spec_actions()
                            == w.spec_actions())
                        &&& s.spec_local() matches Some(l) && l@ == root.spec_path()
                    }
                } else {
                    r matches Err(e) && e.spec_kind() == ErrorKind::SerializationFailure
                }
            }),
    {
        let name = path_file_name(root.path())?;
        let spd = root.join(SPEC_DIR);
        let mod_list = match fs.read_file(spd.join(MOD_LIST_YML).path()) {
            Some(FileBody::ModList(ml)) => ml.duplicate(),
            _ => {
                return Err(SpecError::new(ErrorKind::SerializationFailure));
            }
        };
        let res = match fs.read_file(spd.join(RESOURCE_YML).path()) {
            Some(FileBody::Res(rm)) => rm.duplicate(),
            _ => {
                return Err(SpecError::new(ErrorKind::SerializationFailure));
            }
        };
        let net = match fs.read_file(spd.join(NET_RES_YML).path()) {
            Some(FileBody::Net(n)) => *n,
            _ => {
                return Err(SpecError::new(ErrorKind::SerializationFailure));
            }
        };
        let vars = match fs.read_file(spd.join(VARS_YML).path()) {
            Some(FileBody::Vars(vc)) => vc.duplicate(),
            _ => {
                return Err(SpecError::new(ErrorKind::SerializationFailure));
            }
        };
        let actions = match fs.read_file(root.join(WORKFLOWS_YML).path()) {
            Some(FileBody::Flows(w)) => w.duplicate(),
            _ => {
                return Err(SpecError::new(ErrorKind::SerializationFailure));
            }
        };
        Ok(
            SysModelSpec {
                name,
                mod_list,
                vars,
                res,
                net,
                local: Some(root.path_string()),
                actions,
            },
        )
    }

    /// Plan the update of every effective module reference, in collection
    /// order: each is fetched into its own subdirectory of the model's
    /// location under the given policy.  Ineffective references are
    /// skipped.  Demands a persisted model.
    #[verifier::loop_isolation(false)]
    pub fn update_local(&self, options: &UpdateOptions) -> (r: SpecResult<Vec<FetchTask>>)
        ensures
            self.spec_local() is None ==> (r matches Err(e) && e.spec_kind()
                == ErrorKind::MissingLocalPath),
            self.spec_local() matches Some(l) ==> r matches Ok(plan) && {
                let eff = effective_refs(self.spec_refs());
                &&& plan@.len() == eff.len()
                &&& forall|j: int|
                    0 <= j < eff.len() ==> {
                        &&& (#[trigger] plan@[j]).name@ == eff[j].spec_name()
                        &&& plan@[j].addr == eff[j].spec_addr()
                        &&& plan@[j].dest.spec_path() == ValuePath::spec_join(
                            l@,
                            eff[j].spec_name(),
                        )
                        &&& plan@[j].policy == options.spec_policy()
                    }
            },
    {
        let base = match &self.local {
            Some(l) => ValuePath::new(l.as_str()),
            None => {
                return Err(SpecError::new(ErrorKind::MissingLocalPath));
            }
        };
        let n = self.mod_list.ref_count();
        let ghost refs = self.spec_refs();
        let mut plan: Vec<FetchTask> = Vec::new();
        let mut i: usize = 0;
        while i < n
            invariant
                0 <= i <= n,
                n == refs.len(),
                ({
                    let eff = effective_refs(refs.take(i as int));
                    &&& plan@.len() == eff.len()
                    &&& forall|j: int|
                        0 <= j < eff.len() ==> {
                            &&& (#[trigger] plan@[j]).name@ == eff[j].spec_name()
                            &&& plan@[j].addr == eff[j].spec_addr()
                            &&& plan@[j].dest.spec_path() == ValuePath::spec_join(
                                base.spec_path(),
                                eff[j].spec_name(),
                            )
                            &&& plan@[j].policy == options.spec_policy()
                        }
                }),
            decreases n - i,
        {
            let mref = self.mod_list.ref_at(i);
            proof {
                reveal(Seq::filter);
                assert(refs.take(i + 1).drop_last() =~= refs.take(i as int));
                assert(refs.take(i + 1).last() == refs[i as int]);
                assert(effective_refs(refs.take(i + 1)) == if ref_effective(refs[i as int]) {
                    effective_refs(refs.take(i as int)).push(refs[i as int])
                } else {
                    effective_refs(refs.take(i as int))
                });
            }
            if mref.effective() {
                let task = FetchTask {
                    name: String::from_str(mref.name()),
                    addr: mref.addr().duplicate(),
                    dest: base.join(mref.name()),
                    policy: *options.policy(),
                };
                plan.push(task);
            }
            i += 1;
        }
        proof {
            assert(refs.take(n as int) =~= refs);
        }
        Ok(plan)
    }

    /// Localize this model: write the value snapshot once — an existing
    /// snapshot is never overwritten — from the model's variable defaults
    /// merged with the caller's global dictionary, and hand back one
    /// localization target per effective module reference.  Demands a
    /// persisted model; strict merging fails with a missing-variable kind.
    #[verifier::loop_isolation(false)]
    pub fn localize(&self, fs: &mut TextFs, options: &LocalizeOptions) -> (r: SpecResult<
        Vec<ModLocalizeTarget>,
    >)
        ensures
            self.spec_local() is None ==> (r matches Err(e) && e.spec_kind()
                == ErrorKind::MissingLocalPath) && final(fs).spec_files() == old(fs).spec_files(),
            self.spec_local() matches Some(l) ==> {
                let snap = ValuePath::spec_join(
                    ValuePath::spec_join(l@, "value"@),
                    VALUE_JSON@,
                );
                match r {
                    Ok(targets) => {
                        &&& ({
                            let eff = effective_refs(self.spec_refs());
                            targets@.len() == eff.len() && (forall|j: int|
                                0 <= j < eff.len() ==> (#[trigger] targets@[j]).name@
                                    == eff[j].spec_name() && targets@[j].dst.spec_path()
                                    == ValuePath::spec_join(l@, eff[j].spec_name()))
                        })
                        &&& old(fs).spec_has_file(snap) ==> final(fs).spec_files() == old(fs).spec_files()
                        &&& !old(fs).spec_has_file(snap) ==> {
                            &&& (options.spec_use_default() || forall|i: int|
                                0 <= i < self.spec_vars().len() ==> spec_merged_value(
                                    self.spec_vars()[i],
                                    options.spec_global(),
                                    Seq::empty(),
                                ) is Some)
                            &&& final(fs).spec_has_file(snap)
                            &&& (final(fs).spec_file(snap) matches FileBody::Dict(d)
                                && d.spec_entries() == Seq::new(
                                self.spec_vars().len(),
                                |i: int|
                                    (
                                        self.spec_vars()[i].spec_name_string(),
                                        match spec_merged_value(
                                            self.spec_vars()[i],
                                            options.spec_global(),
                                            Seq::empty(),
                                        ) {
                                            Some(v) => v,
                                            None => self.spec_vars()[i].spec_value(),
                                        },
                                    ),
                            ))
                            &&& forall|p2: Seq<char>|
                                p2 != snap ==> final(fs).spec_has_file(p2) == old(fs).spec_has_file(p2)
                            &&& forall|p2: Seq<char>|
                                p2 != snap && old(fs).spec_has_file(p2) ==> final(fs).spec_file(p2)
                                    == old(fs).spec_file(p2)
                        }
                    },
                    Err(e) => {
                        &&& e.spec_kind() == ErrorKind::MissingVariable
                        &&& !options.spec_use_default()
                        &&& !old(fs).spec_has_file(snap)
                        &&& exists|i: int|
                            0 <= i < self.spec_vars().len() && spec_merged_value(
                                #[trigger] self.spec_vars()[i],
                                options.spec_global(),
                                Seq::empty(),
                            ) is None
                        &&& final(fs).spec_files() == old(fs).spec_files()
                    },
                }
            },
    {
        let base = match &self.local {
            Some(l) => ValuePath::new(l.as_str()),
            None => {
                return Err(SpecError::new(ErrorKind::MissingLocalPath));
            }
        };
        let snap_dir = base.join("value");
        let snap = snap_dir.join(VALUE_JSON);

        let n = self.mod_list.ref_count();
        let ghost refs = self.spec_refs();
        let mut targets: Vec<ModLocalizeTarget> = Vec::new();
        let mut i: usize = 0;
        while i < n
            invariant
                0 <= i <= n,
                n == refs.len(),
                ({
                    let eff = effective_refs(refs.take(i as int));
                    &&& targets@.len() == eff.len()
                    &&& forall|j: int|
                        0 <= j < eff.len() ==> (#[trigger] targets@[j]).name@
                            == eff[j].spec_name() && targets@[j].dst.spec_path()
                            == ValuePath::spec_join(base.spec_path(), eff[j].spec_name())
                }),
            decreases n - i,
        {
            let mref = self.mod_list.ref_at(i);
            proof {
                reveal(Seq::filter);
                assert(refs.take(i + 1).drop_last() =~= refs.take(i as int));
                assert(refs.take(i + 1).last() == refs[i as int]);
                assert(effective_refs(refs.take(i + 1)) == if ref_effective(refs[i as int]) {
                    effective_refs(refs.take(i as int)).push(refs[i as int])
                } else {
                    effective_refs(refs.take(i as int))
                });
            }
            if mref.effective() {
                let target = ModLocalizeTarget {
                    name: String::from_str(mref.name()),
                    dst: base.join(mref.name()),
                };
                targets.push(target);
            }
            i += 1;
        }
        proof {
            assert(refs.take(n as int) =~= refs);
        }

        if !fs.file_exists(snap.path()) {
            let empty = ValueDict::new();
            let merged = match merge_scope(
                &self.vars,
                options.global_value(),
                &empty,
                options.use_default_value(),
            ) {
                Ok(d) => d,
                Err(e) => {
                    return Err(e);
                }
            };
            proof {
                let g = options.spec_global();
                let target = Seq::new(
                    self.spec_vars().len(),
                    |i: int|
                        (
                            self.spec_vars()[i].spec_name_string(),
                            match spec_merged_value(self.spec_vars()[i], g, Seq::empty()) {
                                Some(v) => v,
                                None => self.spec_vars()[i].spec_value(),
                            },
                        ),
                );
                assert(merged.spec_entries() =~= target);
            }
            fs.write_file(snap.path_string(), FileBody::Dict(merged));
        }
        Ok(targets)
    }
}

/// One module the localization pipeline descends into: its name and the
/// destination context derived for it.
#[derive(Debug)]
pub struct ModLocalizeTarget {
    pub name: String,
    pub dst: ValuePath,
}

impl SysModelSpec {
    /// The setup task of this model: one echo per workflow action, in
    /// order.
    pub fn make_setup_task(&self) -> (r: SpecResult<crate::task::CombinedTask>)
        ensures
            r matches Ok(t) && {
                &&& t.spec_name() == self.spec_name()
                &&& t.spec_subs().len() == self.spec_actions().len()
                &&& forall|j: int|
                    0 <= j < self.spec_actions().len() ==> (#[trigger] t.spec_subs()[j]).spec_cmd()
                        == self.spec_actions()[j].spec_code()
            },
    {
        let mut task = crate::task::CombinedTask::new(self.name.as_str());
        let n = self.actions.len();
        let mut i: usize = 0;
        while i < n
            invariant
                0 <= i <= n,
                n == self.spec_actions().len(),
                task.spec_name() == self.spec_name(),
                task.spec_subs().len() == i,
                forall|j: int|
                    0 <= j < i ==> (#[trigger] task.spec_subs()[j]).spec_cmd()
                        == self.spec_actions()[j].spec_code(),
            decreases n - i,
        {
            let sub = crate::task::EchoTask::new(self.actions.action_at(i).code());
            task.add_sub(sub);
            i += 1;
        }
        Ok(task)
    }
}

impl crate::types::Persistable<SysModelSpec> for SysModelSpec {
    fn save_to(
        &self,
        fs: &mut TextFs,
        path: &ValuePath,
        name: Option<String>,
    ) -> SpecResult<()> {
        match name {
            Some(n) => self.save_local(fs, path, n.as_str()),
            None => self.save_to(fs, path),
        }
    }

    fn load_from(fs: &TextFs, path: &ValuePath) -> SpecResult<SysModelSpec> {
        SysModelSpec::load_from(fs, path)
    }
}

impl crate::types::Localizable<Vec<ModLocalizeTarget>> for SysModelSpec {
    fn localize(&self, fs: &mut TextFs, options: &LocalizeOptions) -> SpecResult<
        Vec<ModLocalizeTarget>,
    > {
        self.localize(fs, options)
    }
}

impl crate::types::AsyncUpdateable for SysModelSpecRef {
    /// Resolve the referenced model into `path` as its address names it.
    fn update_local(
        &self,
        path: &ValuePath,
        options: &UpdateOptions,
        cache: &crate::update::CacheState,
    ) -> SpecResult<crate::update::ResolveStep> {
        self.addr.resolve(path, options.policy(), cache)
    }

    /// Resolve, then rename the fetched directory to the given name.
    fn update_rename(
        &self,
        path: &ValuePath,
        name: &str,
        options: &UpdateOptions,
        cache: &crate::update::CacheState,
    ) -> SpecResult<crate::update::ResolveStep> {
        self.addr.resolve_rename(path, name, options.policy(), cache)
    }
}

/// The variable definitions every example model starts with.
fn example_vars() -> (r: VarCollection)
    ensures
        r.spec_vars().len() == 3,
{
    let v0 = crate::vars::VarType::of_str(String::from_str("IP"), String::from_str("10.0.0.1"));
    let v1 = crate::vars::VarType::of_bool(String::from_str("pass"), false);
    let v2 = crate::vars::VarType::of_int(String::from_str("SPEED_LIMIT"), 1000);
    proof {
        reveal_strlit("IP");
        reveal_strlit("pass");
        reveal_strlit("SPEED_LIMIT");
        assert(v0.spec_name() == "IP"@ && v1.spec_name() == "pass"@ && v2.spec_name()
            == "SPEED_LIMIT"@);
        assert("IP"@.len() == 2 && "pass"@.len() == 4 && "SPEED_LIMIT"@.len() == 11);
    }
    let mut list: Vec<crate::vars::VarType> = Vec::new();
    list.push(v0);
    list.push(v1);
    list.push(v2);
    proof {
        assert(list@.len() == 3);
        assert(list@[0].spec_name() != list@[1].spec_name());
        assert(list@[0].spec_name() != list@[2].spec_name());
        assert(list@[1].spec_name() != list@[2].spec_name());
        assert(crate::vars::spec_dedup_vars(list@).len() == 3) by {
            let s3 = list@;
            assert(s3 =~= seq![v0, v1, v2]);
            let s2 = s3.drop_last();
            assert(s2 =~= seq![v0, v1]);
            let s1 = s2.drop_last();
            assert(s1 =~= seq![v0]);
            let s0 = s1.drop_last();
            assert(s0 =~= Seq::<crate::vars::VarType>::empty());
            assert(s1.last() == v0 && s2.last() == v1 && s3.last() == v2);
            assert(crate::vars::spec_dedup_vars(s0) =~= Seq::<crate::vars::VarType>::empty());
            assert(!crate::vars::vars_contain_name(
                Seq::<crate::vars::VarType>::empty(),
                v0.spec_name(),
            ));
            assert(crate::vars::spec_dedup_vars(s1) =~= seq![v0]);
            assert(!crate::vars::vars_contain_name(seq![v0], v1.spec_name()));
            assert(crate::vars::spec_dedup_vars(s2) =~= seq![v0, v1]);
            assert(!crate::vars::vars_contain_name(seq![v0, v1], v2.spec_name()));
            assert(crate::vars::spec_dedup_vars(s3) =~= seq![v0, v1, v2]);
        }
    }
    VarCollection::define(list)
}

/// The network space and resources every example model starts with.
fn example_net_res() -> (r: (NetResSpace, ModelResource))
    ensures
        r.1.spec_vps().len() == 1,
{
    let net = NetResSpace::new(
        Ipv4Addr::new(10, 0, 0, 1),
        (Ipv4Addr::new(10, 0, 0, 1), Ipv4Addr::new(10, 0, 0, 10)),
    );
    let mut ips: Vec<Ipv4Addr> = Vec::new();
    ips.push(net.master);
    let mut vps: Vec<Vps> = Vec::new();
    vps.push(Vps::new(CaculateResSpec::new(4, 8), ips));
    let res = ModelResource::from(vps);
    (net, res)
}

/// An example model: template workflows, one provisioned node, three
/// variables, and three module references of which two are ineffective.
pub fn make_sys_spec_example() -> (r: SpecResult<SysModelSpec>)
    ensures
        r matches Ok(s) && {
            &&& s.spec_refs().len() == 3
            &&& !s.spec_refs()[0].spec_effective()
            &&& s.spec_refs()[1].spec_effective()
            &&& !s.spec_refs()[2].spec_effective()
            &&& s.spec_local() is None
        },
{
    let repo = "https://e.coding.net/dy-sec/galaxy-open/modspec.git";
    let (net, res) = example_net_res();
    let vars = example_vars();
    let actions = <Workflows as crate::init::SysIniter>::sys_tpl_init();
    let mut model = SysModelSpec::new("example-sys", actions, net, res, vars);
    let mod_name = "example_mod1";
    model.add_mod_ref(
        ModuleSpecRef::from(
            mod_name,
            AddrType::Git(crate::addr::GitAddr::from(repo).branch("master").path(mod_name)),
            crate::module::TargetNode::new(
                crate::module::CpuArch::Arm,
                crate::module::OsCPE::MAC14,
                crate::module::RunSPC::Host,
            ),
        ).with_effective(false),
    );
    let mod_name = "postgresql";
    model.add_mod_ref(
        ModuleSpecRef::from(
            mod_name,
            AddrType::Git(crate::addr::GitAddr::from(repo).branch("master").path(mod_name)),
            crate::module::TargetNode::new(
                crate::module::CpuArch::Arm,
                crate::module::OsCPE::MAC14,
                crate::module::RunSPC::Host,
            ),
        ),
    );
    model.add_mod_ref(
        ModuleSpecRef::from(
            "mysql-example",
            AddrType::Git(crate::addr::GitAddr::from("http://github").tag("v1.0.0")),
            crate::module::TargetNode::new(
                crate::module::CpuArch::X86,
                crate::module::OsCPE::UBT22,
                crate::module::RunSPC::K8S,
            ),
        ).with_effective(false),
    );
    Ok(model)
}

/// A fresh model under the given name, its module references pointed at
/// the given repository, all ineffective until the operator enables them.
pub fn make_sys_spec_new(name: &str, repo: &str) -> (r: SpecResult<SysModelSpec>)
    ensures
        r matches Ok(s) && {
            &&& s.spec_name() == name@
            &&& s.spec_refs().len() == 3
            &&& forall|j: int| 0 <= j < 3 ==> !(#[trigger] s.spec_refs()[j]).spec_effective()
            &&& s.spec_local() is None
        },
{
    let (net, res) = example_net_res();
    let vars = example_vars();
    let actions = <Workflows as crate::init::SysIniter>::sys_tpl_init();
    let mut model = SysModelSpec::new(name, actions, net, res, vars);
    model.add_mod_ref(
        ModuleSpecRef::from(
            "example_mod1",
            AddrType::Git(crate::addr::GitAddr::from(repo).path("example_mod1")),
            crate::module::TargetNode::new(
                crate::module::CpuArch::Arm,
                crate::module::OsCPE::MAC14,
                crate::module::RunSPC::Host,
            ),
        ).with_effective(false),
    );
    model.add_mod_ref(
        ModuleSpecRef::from(
            "postgresql",
            AddrType::Git(crate::addr::GitAddr::from(repo).path("postgresql")),
            crate::module::TargetNode::new(
                crate::module::CpuArch::Arm,
                crate::module::OsCPE::MAC14,
                crate::module::RunSPC::Host,
            ),
        ).with_effective(false),
    );
    model.add_mod_ref(
        ModuleSpecRef::from(
            "mysql-example",
            AddrType::Git(crate::addr::GitAddr::from("http://github").tag("v1.0.0")),
            crate::module::TargetNode::new(
                crate::module::CpuArch::X86,
                crate::module::OsCPE::UBT22,
                crate::module::RunSPC::K8S,
            ),
        ).with_effective(false),
    );
    Ok(model)
}

/// The five per-model file paths are pairwise distinct.
proof fn lemma_sys_keys_distinct(root: Seq<char>)
    ensures
        ({
            let keys = SysModelSpec::spec_sys_keys(root);
            &&& keys.0 != keys.1 && keys.0 != keys.2 && keys.0 != keys.3 && keys.0 != keys.4
            &&& keys.1 != keys.2 && keys.1 != keys.3 && keys.1 != keys.4
            &&& keys.2 != keys.3 && keys.2 != keys.4
            &&& keys.3 != keys.4
        }),
{
    reveal_strlit("mod_list.yml");
    reveal_strlit("resource.yml");
    reveal_strlit("net_res.yml");
    reveal_strlit("vars.yml");
    reveal_strlit("workflows.yml");
    reveal_strlit("spec");
    let spd = ValuePath::spec_join(root, SPEC_DIR@);
    assert(MOD_LIST_YML@[0] == 'm' && RESOURCE_YML@[0] == 'r' && NET_RES_YML@[0] == 'n'
        && VARS_YML@[0] == 'v' && WORKFLOWS_YML@[0] == 'w' && SPEC_DIR@[0] == 's');
    lemma_join_ne(spd, MOD_LIST_YML@, RESOURCE_YML@);
    lemma_join_ne(spd, MOD_LIST_YML@, NET_RES_YML@);
    lemma_join_ne(spd, MOD_LIST_YML@, VARS_YML@);
    lemma_join_ne(spd, RESOURCE_YML@, NET_RES_YML@);
    lemma_join_ne(spd, RESOURCE_YML@, VARS_YML@);
    lemma_join_ne(spd, NET_RES_YML@, VARS_YML@);
    lemma_join_assoc(root, SPEC_DIR@, MOD_LIST_YML@);
    lemma_join_assoc(root, SPEC_DIR@, RESOURCE_YML@);
    lemma_join_assoc(root, SPEC_DIR@, NET_RES_YML@);
    lemma_join_assoc(root, SPEC_DIR@, VARS_YML@);
    let f0 = SPEC_DIR@ + seq!['/'] + MOD_LIST_YML@;
    let f1 = SPEC_DIR@ + seq!['/'] + RESOURCE_YML@;
    let f2 = SPEC_DIR@ + seq!['/'] + NET_RES_YML@;
    let f3 = SPEC_DIR@ + seq!['/'] + VARS_YML@;
    assert(f0[0] == 's' && f1[0] == 's' && f2[0] == 's' && f3[0] == 's');
    assert(WORKFLOWS_YML@[0] == 'w');
    lemma_join_ne(root, f0, WORKFLOWS_YML@);
    lemma_join_ne(root, f1, WORKFLOWS_YML@);
    lemma_join_ne(root, f2, WORKFLOWS_YML@);
    lemma_join_ne(root, f3, WORKFLOWS_YML@);
}

/// Law: a model saved under its name is loaded back from that location
/// with every persisted file found and holding exactly what was saved; the
/// name comes back as the path's last segment.  Only the local-path marker
/// differs, as loading sets it.
pub proof fn lemma_sys_model_round_trip(
    files: Seq<(String, FileBody)>,
    base: Seq<char>,
    name: Seq<char>,
    keys: (String, String, String, String, String),
    bodies: (FileBody, FileBody, FileBody, FileBody, FileBody),
)
    requires
        keyed_unique(files),
        name.len() > 0,
        forall|k: int| 0 <= k < name.len() ==> name[k] != '/',
        ({
            let root = ValuePath::spec_join(base, name);
            let ks = SysModelSpec::spec_sys_keys(root);
            keys.0@ == ks.0 && keys.1@ == ks.1 && keys.2@ == ks.2 && keys.3@ == ks.3 && keys.4@
                == ks.4
        }),
    ensures
        ({
            let root = ValuePath::spec_join(base, name);
            let ks = SysModelSpec::spec_sys_keys(root);
            let saved = keyed_insert(
                keyed_insert(
                    keyed_insert(
                        keyed_insert(keyed_insert(files, keys.0, bodies.0), keys.1, bodies.1),
                        keys.2,
                        bodies.2,
                    ),
                    keys.3,
                    bodies.3,
                ),
                keys.4,
                bodies.4,
            );
            &&& spec_last_seg(root) == name
            &&& keyed_has(saved, ks.0) && keyed_at(saved, ks.0) == bodies.0
            &&& keyed_has(saved, ks.1) && keyed_at(saved, ks.1) == bodies.1
            &&& keyed_has(saved, ks.2) && keyed_at(saved, ks.2) == bodies.2
            &&& keyed_has(saved, ks.3) && keyed_at(saved, ks.3) == bodies.3
            &&& keyed_has(saved, ks.4) && keyed_at(saved, ks.4) == bodies.4
        }),
{
    let root = ValuePath::spec_join(base, name);
    lemma_last_seg_join(base, name);
    lemma_sys_keys_distinct(root);
    let s0 = files;
    let s1 = keyed_insert(s0, keys.0, bodies.0);
    let s2 = keyed_insert(s1, keys.1, bodies.1);
    let s3 = keyed_insert(s2, keys.2, bodies.2);
    let s4 = keyed_insert(s3, keys.3, bodies.3);
    lemma_keyed_insert(s0, keys.0, bodies.0);
    lemma_keyed_insert(s1, keys.1, bodies.1);
    lemma_keyed_insert(s2, keys.2, bodies.2);
    lemma_keyed_insert(s3, keys.3, bodies.3);
    lemma_keyed_insert(s4, keys.4, bodies.4);
}

/// Law: an ineffective module reference is absent from the update plan and
/// from the localization targets — everything the traversals keep is
/// effective — while the persisted module list keeps every reference,
/// ineffective ones included (the save contract above stores the
/// references unfiltered).
pub proof fn lemma_ineffective_refs_skipped(refs: Seq<ModuleSpecRef>)
    ensures
        forall|j: int|
            0 <= j < effective_refs(refs).len() ==> (#[trigger] effective_refs(
                refs,
            )[j]).spec_effective(),
        forall|r: ModuleSpecRef|
            refs.contains(r) && !r.spec_effective() ==> !effective_refs(refs).contains(r),
    decreases refs.len(),
{
    reveal(Seq::filter);
    if refs.len() > 0 {
        lemma_ineffective_refs_skipped(refs.drop_last());
        assert(effective_refs(refs) == if ref_effective(refs.last()) {
            effective_refs(refs.drop_last()).push(refs.last())
        } else {
            effective_refs(refs.drop_last())
        });
        assert forall|j: int|
            0 <= j < effective_refs(refs).len() implies (#[trigger] effective_refs(
            refs,
        )[j]).spec_effective() by {
            if j < effective_refs(refs.drop_last()).len() {
                assert(effective_refs(refs)[j] == effective_refs(refs.drop_last())[j]);
            }
        }
        assert forall|r: ModuleSpecRef|
            refs.contains(r) && !r.spec_effective() implies !effective_refs(refs).contains(r) by {
            if effective_refs(refs).contains(r) {
                let j = choose|j: int|
                    0 <= j < effective_refs(refs).len() && effective_refs(refs)[j] == r;
                assert(effective_refs(refs)[j].spec_effective());
            }
        }
    }
}

} // verus!
