use vstd::prelude::*;
use vstd::string::StringExecFns;

use crate::action::Workflows;
use crate::addr::{lemma_last_seg_join, path_file_name, spec_last_seg, AddrType};
use crate::const_vars::{SPEC_DIR, SPEC_TOML, VALUE_JSON};
use crate::error::{ErrorKind, SpecError, SpecResult};
use crate::fsmodel::{spec_render_jobs, FileBody, TextFs};
use crate::keyed::{keyed_at, keyed_has, keyed_insert, keyed_unique, lemma_keyed_insert};
use crate::types::{lemma_join_ne, starts_with, LocalizeOptions, ValuePath};
use crate::update::{CacheState, ResolveStep, UpdateOptions};
use crate::vars::{spec_overridden, ValueDict, ValueType, VarCollection};

verus! {

#[derive(Clone, Copy, Debug, PartialEq, Eq, Structural)]
pub enum CpuArch {
    Arm,
    X86,
}

#[derive(Clone, Copy, Debug, PartialEq, Eq, Structural)]
pub enum OsCPE {
    MAC14,
    UBT22,
}

#[derive(Clone, Copy, Debug, PartialEq, Eq, Structural)]
pub enum RunSPC {
    Host,
    K8S,
}

/// The node a module targets: its processor, operating system and runtime.
#[derive(Clone, Copy, Debug, PartialEq, Eq, Structural)]
pub struct TargetNode {
    pub arch: CpuArch,
    pub os: OsCPE,
    pub spc: RunSPC,
}

impl TargetNode {
    pub fn new(arch: CpuArch, os: OsCPE, spc: RunSPC) -> (r: Self)
        ensures
            r == (TargetNode { arch, os, spc }),
    {
        TargetNode { arch, os, spc }
    }
}

/// What a build of a module produces.
#[derive(Debug)]
pub struct Artifact {
    name: String,
    version: String,
    origin: String,
}

impl Artifact {
    pub closed spec fn spec_name(&self) -> Seq<char> {
        self.name@
    }

    pub closed spec fn spec_version(&self) -> Seq<char> {
        self.version@
    }

    pub closed spec fn spec_origin(&self) -> Seq<char> {
        self.origin@
    }

    pub fn new(name: &str, version: &str, origin: &str) -> (r: Self)
        ensures
            r.spec_name() == name@,
            r.spec_version() == version@,
            r.spec_origin() == origin@,
    {
        Artifact {
            name: String::from_str(name),
            version: String::from_str(version),
            origin: String::from_str(origin),
        }
    }

    pub fn name(&self) -> (r: &str)
        ensures
            r@ == self.spec_name(),
    {
        self.name.as_str()
    }

    pub fn version(&self) -> (r: &str)
        ensures
            r@ == self.spec_version(),
    {
        self.version.as_str()
    }

    pub fn origin(&self) -> (r: &str)
        ensures
            r@ == self.spec_origin(),
    {
        self.origin.as_str()
    }

    pub fn duplicate(&self) -> (r: Self)
        ensures
            r == *self,
    {
        let r = Artifact {
            name: self.name.clone(),
            version: self.version.clone(),
            origin: self.origin.clone(),
        };
        proof {
            assert(r == *self);
        }
        r
    }
}

/// The configuration templates a target ships.
#[derive(Debug)]
pub struct ConfSpec {
    tpls: Vec<String>,
}

impl ConfSpec {
    pub closed spec fn spec_tpls(&self) -> Seq<String> {
        self.tpls@
    }

    pub fn new(tpls: Vec<String>) -> (r: Self)
        ensures
            r.spec_tpls() == tpls@,
    {
        ConfSpec { tpls }
    }

    pub fn len(&self) -> (r: usize)
        ensures
            r == self.spec_tpls().len(),
    {
        self.tpls.len()
    }

    pub fn tpl_at(&self, i: usize) -> (r: &str)
        requires
            i < self.spec_tpls().len(),
        ensures
            r@ == self.spec_tpls()[i as int]@,
    {
        self.tpls[i].as_str()
    }

    pub fn duplicate(&self) -> (r: Self)
        ensures
            r.spec_tpls() == self.spec_tpls(),
    {
        ConfSpec { tpls: dup_strings(&self.tpls) }
    }
}

/// Where a target's logs are collected from.
#[derive(Debug)]
pub struct LogsSpec {
    rules: Vec<String>,
}

impl LogsSpec {
    pub closed spec fn spec_rules(&self) -> Seq<String> {
        self.rules@
    }

    pub fn new(rules: Vec<String>) -> (r: Self)
        ensures
            r.spec_rules() == rules@,
    {
        LogsSpec { rules }
    }

    /// The template default: no collection rules yet.
    pub fn tpl_init() -> (r: Self)
        ensures
            r.spec_rules().len() == 0,
    {
        LogsSpec { rules: Vec::new() }
    }

    pub fn len(&self) -> (r: usize)
        ensures
            r == self.spec_rules().len(),
    {
        self.rules.len()
    }

    pub fn rule_at(&self, i: usize) -> (r: &str)
        requires
            i < self.spec_rules().len(),
        ensures
            r@ == self.spec_rules()[i as int]@,
    {
        self.rules[i].as_str()
    }

    pub fn duplicate(&self) -> (r: Self)
        ensures
            r.spec_rules() == self.spec_rules(),
    {
        LogsSpec { rules: dup_strings(&self.rules) }
    }
}

pub(crate) fn dup_strings(v: &Vec<String>) -> (r: Vec<String>)
    ensures
        r@ == v@,
{
    let n = v.len();
    let mut out: Vec<String> = Vec::new();
    let mut i: usize = 0;
    while i < n
        invariant
            0 <= i <= n,
            n == v@.len(),
            out@.len() == i,
            forall|j: int| 0 <= j < i ==> out@[j] == v@[j],
        decreases n - i,
    {
        let item = v[i].clone();
        out.push(item);
        i += 1;
    }
    proof {
        assert(out@ =~= v@);
    }
    out
}

/// The computing resources a target asks for.
#[derive(Clone, Copy, Debug, PartialEq, Eq, Structural)]
pub struct CaculateResSpec {
    pub cpu: u32,
    pub mem: u32,
}

impl CaculateResSpec {
    pub fn new(cpu: u32, mem: u32) -> (r: Self)
        ensures
            r == (CaculateResSpec { cpu, mem }),
    {
        CaculateResSpec { cpu, mem }
    }
}

/// A reference to a module inside a system model: its name, where to fetch
/// it from, the node it targets, and whether update and localization walk
/// it.  An ineffective reference is skipped by both but stays in the
/// persisted model.
#[derive(Debug)]
pub struct ModuleSpecRef {
    name: String,
    addr: AddrType,
    node: TargetNode,
    effective: bool,
}

impl ModuleSpecRef {
    pub closed spec fn spec_name(&self) -> Seq<char> {
        self.name@
    }

    pub closed spec fn spec_name_string(&self) -> String {
        self.name
    }

    pub closed spec fn spec_addr(&self) -> AddrType {
        self.addr
    }

    pub closed spec fn spec_node(&self) -> TargetNode {
        self.node
    }

    pub closed spec fn spec_effective(&self) -> bool {
        self.effective
    }

    pub fn from(name: &str, addr: AddrType, node: TargetNode) -> (r: Self)
        ensures
            r.spec_name() == name@,
            r.spec_addr() == addr,
            r.spec_node() == node,
            r.spec_effective(),
    {
        ModuleSpecRef { name: String::from_str(name), addr, node, effective: true }
    }

    pub fn with_effective(self, effective: bool) -> (r: Self)
        ensures
            r.spec_name() == self.spec_name(),
            r.spec_addr() == self.spec_addr(),
            r.spec_node() == self.spec_node(),
            r.spec_effective() == effective,
    {
        ModuleSpecRef { effective, ..self }
    }

    pub fn name(&self) -> (r: &str)
        ensures
            r@ == self.spec_name(),
    {
        self.name.as_str()
    }

    pub fn addr(&self) -> (r: &AddrType)
        ensures
            *r == self.spec_addr(),
    {
        &self.addr
    }

    pub fn node(&self) -> (r: &TargetNode)
        ensures
            *r == self.spec_node(),
    {
        &self.node
    }

    pub fn effective(&self) -> (r: bool)
        ensures
            r == self.spec_effective(),
    {
        self.effective
    }

    pub fn duplicate(&self) -> (r: Self)
        ensures
            r == *self,
    {
        let r = ModuleSpecRef {
            name: self.name.clone(),
            addr: self.addr.duplicate(),
            node: self.node,
            effective: self.effective,
        };
        proof {
            assert(r == *self);
        }
        r
    }
}

/// The observational content of one target spec, every field abstracted.
pub type TargetModel = (
    Seq<char>,
    Artifact,
    Seq<crate::action::GxlAction>,
    Seq<String>,
    Seq<String>,
    CaculateResSpec,
    Seq<crate::vars::VarType>,
);

/// One target-specific slice of a module: everything one target node needs.
#[derive(Debug)]
pub struct ModTargetSpec {
    target: String,
    artifact: Artifact,
    actions: Workflows,
    conf_spec: ConfSpec,
    logs_spec: LogsSpec,
    res_spec: CaculateResSpec,
    vars: VarCollection,
}

impl ModTargetSpec {
    pub closed spec fn spec_target(&self) -> Seq<char> {
        self.target@
    }

    pub closed spec fn spec_artifact(&self) -> Artifact {
        self.artifact
    }

    pub closed spec fn spec_actions(&self) -> Seq<crate::action::GxlAction> {
        self.actions.spec_actions()
    }

    pub closed spec fn spec_conf_tpls(&self) -> Seq<String> {
        self.conf_spec.spec_tpls()
    }

    pub closed spec fn spec_logs_rules(&self) -> Seq<String> {
        self.logs_spec.spec_rules()
    }

    pub closed spec fn spec_res(&self) -> CaculateResSpec {
        self.res_spec
    }

    pub closed spec fn spec_vars(&self) -> Seq<crate::vars::VarType> {
        self.vars.spec_vars()
    }

    /// Observational content: every field abstracted.
    pub open spec fn spec_model(&self) -> TargetModel {
        (
            self.spec_target(),
            self.spec_artifact(),
            self.spec_actions(),
            self.spec_conf_tpls(),
            self.spec_logs_rules(),
            self.spec_res(),
            self.spec_vars(),
        )
    }

    /// Assemble a fresh target spec; log collection starts from the
    /// template default.
    pub fn init(
        target: &str,
        artifact: Artifact,
        actions: Workflows,
        conf_spec: ConfSpec,
        res_spec: CaculateResSpec,
        vars: VarCollection,
    ) -> (r: Self)
        ensures
            r.spec_target() == target@,
            r.spec_artifact() == artifact,
            r.spec_actions() == actions.spec_actions(),
            r.spec_conf_tpls() == conf_spec.spec_tpls(),
            r.spec_logs_rules().len() == 0,
            r.spec_res() == res_spec,
            r.spec_vars() == vars.spec_vars(),
    {
        ModTargetSpec {
            target: String::from_str(target),
            artifact,
            actions,
            conf_spec,
            logs_spec: LogsSpec::tpl_init(),
            res_spec,
            vars,
        }
    }

    pub fn target(&self) -> (r: &str)
        ensures
            r@ == self.spec_target(),
    {
        self.target.as_str()
    }

    pub fn vars(&self) -> (r: &VarCollection)
        ensures
            r.spec_vars() == self.spec_vars(),
    {
        &self.vars
    }

    pub fn duplicate(&self) -> (r: Self)
        ensures
            r.spec_target() == self.spec_target(),
            r.spec_artifact() == self.spec_artifact(),
            r.spec_actions() == self.spec_actions(),
            r.spec_conf_tpls() == self.spec_conf_tpls(),
            r.spec_logs_rules() == self.spec_logs_rules(),
            r.spec_res() == self.spec_res(),
            r.spec_vars() == self.spec_vars(),
    {
        ModTargetSpec {
            target: self.target.clone(),
            artifact: self.artifact.duplicate(),
            actions: self.actions.duplicate(),
            conf_spec: self.conf_spec.duplicate(),
            logs_spec: self.logs_spec.duplicate(),
            res_spec: self.res_spec,
            vars: self.vars.duplicate(),
        }
    }
}

impl ModTargetSpec {
    /// Where the six record files of a target saved under `base`/target go.
    pub open spec fn spec_target_keys(tp: Seq<char>) -> (Seq<char>, Seq<char>, Seq<char>, Seq<
        char,
    >, Seq<char>, Seq<char>) {
        (
            ValuePath::spec_join(tp, crate::const_vars::ARTIFACT_TOML@),
            ValuePath::spec_join(tp, crate::const_vars::WORKFLOWS_YML@),
            ValuePath::spec_join(tp, crate::const_vars::CONF_SPEC_TOML@),
            ValuePath::spec_join(tp, crate::const_vars::LOGS_SPEC_TOML@),
            ValuePath::spec_join(tp, crate::const_vars::RES_SPEC_TOML@),
            ValuePath::spec_join(tp, crate::const_vars::VARS_TOML@),
        )
    }

    /// Persist under `root`/target: artifact, workflows, configuration
    /// spec, log spec, resource spec and variables, each in its own file;
    /// the destination directory is created.
    pub fn save_to(&self, fs: &mut TextFs, root: &ValuePath) -> (r: SpecResult<()>)
        ensures
            r is Ok,
            ({
                let tp = ValuePath::spec_join(root.spec_path(), self.spec_target());
                let keys = Self::spec_target_keys(tp);
                &&& final(fs).spec_has_dir(tp)
                &&& final(fs).spec_file(keys.0) == FileBody::Art(self.spec_artifact())
                &&& (final(fs).spec_file(keys.1) matches FileBody::Flows(w) && w.spec_actions()
                    == self.spec_actions())
                &&& (final(fs).spec_file(keys.2) matches FileBody::Conf(c) && c.spec_tpls()
                    == self.spec_conf_tpls())
                &&& (final(fs).spec_file(keys.3) matches FileBody::Logs(lg) && lg.spec_rules()
                    == self.spec_logs_rules())
                &&& final(fs).spec_file(keys.4) == FileBody::ResSpec(self.spec_res())
                &&& (final(fs).spec_file(keys.5) matches FileBody::Vars(vc) && vc.spec_vars()
                    == self.spec_vars())
                &&& final(fs).spec_has_file(keys.0) && final(fs).spec_has_file(keys.1) && final(fs).spec_has_file(keys.2) && final(fs).spec_has_file(keys.3) && final(fs).spec_has_file(keys.4) && final(fs).spec_has_file(keys.5)
                &&& forall|p2: Seq<char>|
                    p2 != keys.0 && p2 != keys.1 && p2 != keys.2 && p2 != keys.3 && p2 != keys.4
                        && p2 != keys.5 ==> final(fs).spec_has_file(p2) == old(fs).spec_has_file(
                        p2,
                    )
                &&& forall|p2: Seq<char>|
                    p2 != keys.0 && p2 != keys.1 && p2 != keys.2 && p2 != keys.3 && p2 != keys.4
                        && p2 != keys.5 && old(fs).spec_has_file(p2) ==> final(fs).spec_file(p2)
                        == old(fs).spec_file(p2)
            }),
    {
        let tp = root.join(self.target.as_str());
        fs.ensure_dir(tp.path_string());
        proof {
            lemma_target_keys_distinct(tp.spec_path());
        }
        fs.write_file(
            tp.join(crate::const_vars::ARTIFACT_TOML).path_string(),
            FileBody::Art(self.artifact.duplicate()),
        );
        fs.write_file(
            tp.join(crate::const_vars::WORKFLOWS_YML).path_string(),
            FileBody::Flows(self.actions.duplicate()),
        );
        fs.write_file(
            tp.join(crate::const_vars::CONF_SPEC_TOML).path_string(),
            FileBody::Conf(self.conf_spec.duplicate()),
        );
        fs.write_file(
            tp.join(crate::const_vars::LOGS_SPEC_TOML).path_string(),
            FileBody::Logs(self.logs_spec.duplicate()),
        );
        fs.write_file(
            tp.join(crate::const_vars::RES_SPEC_TOML).path_string(),
            FileBody::ResSpec(self.res_spec),
        );
        fs.write_file(
            tp.join(crate::const_vars::VARS_TOML).path_string(),
            FileBody::Vars(self.vars.duplicate()),
        );
        Ok(())
    }

    /// Reconstitute a target spec from `tp`: the target name is the path's
    /// last segment, everything else comes from its own file.  Fails with a
    /// serialization kind when the name is empty or any file is missing or
    /// of the wrong shape.
    pub fn load_from(fs: &TextFs, tp: &ValuePath) -> (r: SpecResult<ModTargetSpec>)
        ensures
            ({
                let keys = Self::spec_target_keys(tp.spec_path());
                let well = spec_last_seg(tp.spec_path()).len() > 0 && fs.spec_has_file(keys.0) && (
                fs.spec_file(keys.0) is Art) && fs.spec_has_file(keys.1) && (fs.spec_file(
                    keys.1,
                ) is Flows) && fs.spec_has_file(keys.2) && (fs.spec_file(keys.2) is Conf)
                    && fs.spec_has_file(keys.3) && (fs.spec_file(keys.3) is Logs)
                    && fs.spec_has_file(keys.4) && (fs.spec_file(keys.4) is ResSpec)
                    && fs.spec_has_file(keys.5) && (fs.spec_file(keys.5) is Vars);
                if well {
                    r matches Ok(t) && {
                        &&& t.spec_target() == spec_last_seg(tp.spec_path())
                        &&& FileBody::Art(t.spec_artifact()) == fs.spec_file(keys.0)
                        &&& (fs.spec_file(keys.1) matches FileBody::Flows(w) && t.spec_actions()
                            == w.spec_actions())
                        &&& (fs.spec_file(keys.2) matches FileBody::Conf(c) && t.spec_conf_tpls()
                            == c.spec_tpls())
                        &&& (fs.spec_file(keys.3) matches FileBody::Logs(lg)
                            && t.spec_logs_rules() == lg.spec_rules())
                        &&& FileBody::ResSpec(t.spec_res()) == fs.spec_file(keys.4)
                        &&& (fs.spec_file(keys.5) matches FileBody::Vars(vc) && t.spec_vars()
                            == vc.spec_vars())
                    }
                } else {
                    r matches Err(e) && e.spec_kind() == ErrorKind::SerializationFailure
                }
            }),
    {
        let target = path_file_name(tp.path())?;
        let artifact = match fs.read_file(tp.join(crate::const_vars::ARTIFACT_TOML).path()) {
            Some(FileBody::Art(a)) => a.duplicate(),
            _ => {
                return Err(SpecError::new(ErrorKind::SerializationFailure));
            }
        };
        let actions = match fs.read_file(tp.join(crate::const_vars::WORKFLOWS_YML).path()) {
            Some(FileBody::Flows(w)) => w.duplicate(),
            _ => {
                return Err(SpecError::new(ErrorKind::SerializationFailure));
            }
        };
        let conf_spec = match fs.read_file(tp.join(crate::const_vars::CONF_SPEC_TOML).path()) {
            Some(FileBody::Conf(c)) => c.duplicate(),
            _ => {
                return Err(SpecError::new(ErrorKind::SerializationFailure));
            }
        };
        let logs_spec = match fs.read_file(tp.join(crate::const_vars::LOGS_SPEC_TOML).path()) {
            Some(FileBody::Logs(lg)) => lg.duplicate(),
            _ => {
                return Err(SpecError::new(ErrorKind::SerializationFailure));
            }
        };
        let res_spec = match fs.read_file(tp.join(crate::const_vars::RES_SPEC_TOML).path()) {
            Some(FileBody::ResSpec(rs)) => *rs,
            _ => {
                return Err(SpecError::new(ErrorKind::SerializationFailure));
            }
        };
        let vars = match fs.read_file(tp.join(crate::const_vars::VARS_TOML).path()) {
            Some(FileBody::Vars(vc)) => vc.duplicate(),
            _ => {
                return Err(SpecError::new(ErrorKind::SerializationFailure));
            }
        };
        Ok(ModTargetSpec { target, artifact, actions, conf_spec, logs_spec, res_spec, vars })
    }
}

/// The six per-target file paths are pairwise distinct.
proof fn lemma_target_keys_distinct(tp: Seq<char>)
    ensures
        ({
            let keys = ModTargetSpec::spec_target_keys(tp);
            &&& keys.0 != keys.1 && keys.0 != keys.2 && keys.0 != keys.3 && keys.0 != keys.4
                && keys.0 != keys.5
            &&& keys.1 != keys.2 && keys.1 != keys.3 && keys.1 != keys.4 && keys.1 != keys.5
            &&& keys.2 != keys.3 && keys.2 != keys.4 && keys.2 != keys.5
            &&& keys.3 != keys.4 && keys.3 != keys.5
            &&& keys.4 != keys.5
        }),
{
    reveal_strlit("artifact.toml");
    reveal_strlit("workflows.yml");
    reveal_strlit("conf_spec.toml");
    reveal_strlit("logs_spec.toml");
    reveal_strlit("res_spec.toml");
    reveal_strlit("vars.toml");
    assert(crate::const_vars::ARTIFACT_TOML@[0] == 'a' && crate::const_vars::WORKFLOWS_YML@[0]
        == 'w' && crate::const_vars::CONF_SPEC_TOML@[0] == 'c'
        && crate::const_vars::LOGS_SPEC_TOML@[0] == 'l' && crate::const_vars::RES_SPEC_TOML@[0]
        == 'r' && crate::const_vars::VARS_TOML@[0] == 'v');
    lemma_join_ne(tp, crate::const_vars::ARTIFACT_TOML@, crate::const_vars::WORKFLOWS_YML@);
    lemma_join_ne(tp, crate::const_vars::ARTIFACT_TOML@, crate::const_vars::CONF_SPEC_TOML@);
    lemma_join_ne(tp, crate::const_vars::ARTIFACT_TOML@, crate::const_vars::LOGS_SPEC_TOML@);
    lemma_join_ne(tp, crate::const_vars::ARTIFACT_TOML@, crate::const_vars::RES_SPEC_TOML@);
    lemma_join_ne(tp, crate::const_vars::ARTIFACT_TOML@, crate::const_vars::VARS_TOML@);
    lemma_join_ne(tp, crate::const_vars::WORKFLOWS_YML@, crate::const_vars::CONF_SPEC_TOML@);
    lemma_join_ne(tp, crate::const_vars::WORKFLOWS_YML@, crate::const_vars::LOGS_SPEC_TOML@);
    lemma_join_ne(tp, crate::const_vars::WORKFLOWS_YML@, crate::const_vars::RES_SPEC_TOML@);
    lemma_join_ne(tp, crate::const_vars::WORKFLOWS_YML@, crate::const_vars::VARS_TOML@);
    lemma_join_ne(tp, crate::const_vars::CONF_SPEC_TOML@, crate::const_vars::LOGS_SPEC_TOML@);
    lemma_join_ne(tp, crate::const_vars::CONF_SPEC_TOML@, crate::const_vars::RES_SPEC_TOML@);
    lemma_join_ne(tp, crate::const_vars::CONF_SPEC_TOML@, crate::const_vars::VARS_TOML@);
    lemma_join_ne(tp, crate::const_vars::LOGS_SPEC_TOML@, crate::const_vars::RES_SPEC_TOML@);
    lemma_join_ne(tp, crate::const_vars::LOGS_SPEC_TOML@, crate::const_vars::VARS_TOML@);
    lemma_join_ne(tp, crate::const_vars::RES_SPEC_TOML@, crate::const_vars::VARS_TOML@);
}

/// Law: saving a target spec and loading it from the same location
/// reproduces every persisted file exactly, and the target name comes back
/// as the path's last segment.
pub proof fn lemma_mod_target_round_trip(
    files: Seq<(String, FileBody)>,
    base: Seq<char>,
    target: Seq<char>,
    keys: (String, String, String, String, String, String),
    bodies: (FileBody, FileBody, FileBody, FileBody, FileBody, FileBody),
)
    requires
        keyed_unique(files),
        target.len() > 0,
        forall|k: int| 0 <= k < target.len() ==> target[k] != '/',
        ({
            let tp = ValuePath::spec_join(base, target);
            let ks = ModTargetSpec::spec_target_keys(tp);
            keys.0@ == ks.0 && keys.1@ == ks.1 && keys.2@ == ks.2 && keys.3@ == ks.3 && keys.4@
                == ks.4 && keys.5@ == ks.5
        }),
    ensures
        ({
            let tp = ValuePath::spec_join(base, target);
            let ks = ModTargetSpec::spec_target_keys(tp);
            let saved = keyed_insert(
                keyed_insert(
                    keyed_insert(
                        keyed_insert(
                            keyed_insert(keyed_insert(files, keys.0, bodies.0), keys.1, bodies.1),
                            keys.2,
                            bodies.2,
                        ),
                        keys.3,
                        bodies.3,
                    ),
                    keys.4,
                    bodies.4,
                ),
                keys.5,
                bodies.5,
            );
            &&& spec_last_seg(tp) == target
            &&& keyed_has(saved, ks.0) && keyed_at(saved, ks.0) == bodies.0
            &&& keyed_has(saved, ks.1) && keyed_at(saved, ks.1) == bodies.1
            &&& keyed_has(saved, ks.2) && keyed_at(saved, ks.2) == bodies.2
            &&& keyed_has(saved, ks.3) && keyed_at(saved, ks.3) == bodies.3
            &&& keyed_has(saved, ks.4) && keyed_at(saved, ks.4) == bodies.4
            &&& keyed_has(saved, ks.5) && keyed_at(saved, ks.5) == bodies.5
        }),
{
    let tp = ValuePath::spec_join(base, target);
    lemma_last_seg_join(base, target);
    lemma_target_keys_distinct(tp);
    let s0 = files;
    let s1 = keyed_insert(s0, keys.0, bodies.0);
    let s2 = keyed_insert(s1, keys.1, bodies.1);
    let s3 = keyed_insert(s2, keys.2, bodies.2);
    let s4 = keyed_insert(s3, keys.3, bodies.3);
    let s5 = keyed_insert(s4, keys.4, bodies.4);
    lemma_keyed_insert(s0, keys.0, bodies.0);
    lemma_keyed_insert(s1, keys.1, bodies.1);
    lemma_keyed_insert(s2, keys.2, bodies.2);
    lemma_keyed_insert(s3, keys.3, bodies.3);
    lemma_keyed_insert(s4, keys.4, bodies.4);
    lemma_keyed_insert(s5, keys.5, bodies.5);
}

/// A resolved module: its name and its target-specific slices.
#[derive(Debug)]
pub struct ModuleSpec {
    name: String,
    targets: Vec<ModTargetSpec>,
}

impl ModuleSpec {
    pub closed spec fn spec_name(&self) -> Seq<char> {
        self.name@
    }

    pub closed spec fn spec_targets(&self) -> Seq<ModTargetSpec> {
        self.targets@
    }

    pub fn new(name: &str, targets: Vec<ModTargetSpec>) -> (r: Self)
        ensures
            r.spec_name() == name@,
            r.spec_targets() == targets@,
    {
        ModuleSpec { name: String::from_str(name), targets }
    }

    pub fn name(&self) -> (r: &str)
        ensures
            r@ == self.spec_name(),
    {
        self.name.as_str()
    }

    /// Observational content: the name and each target's content.
    pub open spec fn spec_model(&self) -> (Seq<char>, Seq<TargetModel>) {
        (self.spec_name(), self.spec_targets().map_values(|t: ModTargetSpec| t.spec_model()))
    }

    pub fn duplicate(&self) -> (r: Self)
        ensures
            r.spec_model() == self.spec_model(),
    {
        let n = self.targets.len();
        let mut targets: Vec<ModTargetSpec> = Vec::new();
        let mut i: usize = 0;
        while i < n
            invariant
                0 <= i <= n,
                n == self.targets@.len(),
                targets@.len() == i,
                forall|j: int|
                    0 <= j < i ==> (#[trigger] targets@[j]).spec_model()
                        == self.targets@[j].spec_model(),
            decreases n - i,
        {
            let item = self.targets[i].duplicate();
            targets.push(item);
            i += 1;
        }
        let r = ModuleSpec { name: self.name.clone(), targets };
        proof {
            assert(r.targets@.map_values(|t: ModTargetSpec| t.spec_model()) =~= self.targets@
                .map_values(|t: ModTargetSpec| t.spec_model()));
        }
        r
    }
}

/// One file the renderer is to produce: the template it came from, where
/// the output goes, and the comment-stripped template text the renderer
/// substitutes variables into.
#[derive(Debug)]
pub struct RenderJob {
    pub src: String,
    pub dst: String,
    pub content: String,
}

/// What updating one module amounts to: clear the prior spec tree, then
/// run the resolve step, whose fetch lands outside the verified core.
#[derive(Debug)]
pub struct ModUpdatePlan {
    pub clear: ValuePath,
    pub step: ResolveStep,
}

/// A module instantiated with bound values.  `local` is `None` for a
/// freshly built instance and set exactly by loading; update and
/// localization demand it.
#[derive(Debug)]
pub struct RunningModule {
    name: String,
    spec: ModuleSpecRef,
    value: ValueDict,
    local: Option<String>,
}

impl RunningModule {
    pub closed spec fn spec_name(&self) -> Seq<char> {
        self.name@
    }

    pub closed spec fn spec_module_ref(&self) -> ModuleSpecRef {
        self.spec
    }

    pub closed spec fn spec_value_entries(&self) -> Seq<(String, ValueType)> {
        self.value.spec_entries()
    }

    pub closed spec fn spec_local(&self) -> Option<String> {
        self.local
    }

    /// A fresh instance named after its reference, not yet on disk.
    pub fn new(spec: ModuleSpecRef, value: ValueDict) -> (r: Self)
        ensures
            r.spec_name() == spec.spec_name(),
            r.spec_module_ref() == spec,
            r.spec_value_entries() == value.spec_entries(),
            r.spec_local() is None,
    {
        let name = String::from_str(spec.name());
        RunningModule { name, spec, value, local: None }
    }

    pub fn name(&self) -> (r: &str)
        ensures
            r@ == self.spec_name(),
    {
        self.name.as_str()
    }

    pub fn module_ref(&self) -> (r: &ModuleSpecRef)
        ensures
            *r == self.spec_module_ref(),
    {
        &self.spec
    }

    pub fn value(&self) -> (r: &ValueDict)
        ensures
            r.spec_entries() == self.spec_value_entries(),
    {
        &self.value
    }

    pub fn local(&self) -> (r: &Option<String>)
        ensures
            *r == self.spec_local(),
    {
        &self.local
    }

    /// The directory this instance persists under.
    pub open spec fn spec_root(&self, base: Seq<char>) -> Seq<char> {
        ValuePath::spec_join(base, self.spec_name())
    }

    /// Persist under `path`/name: the reference record and the bound
    /// values, each in its own file; the destination directory is created.
    pub fn save_to(&self, fs: &mut TextFs, path: &ValuePath) -> (r: SpecResult<()>)
        ensures
            r is Ok,
            ({
                let root = self.spec_root(path.spec_path());
                let k1 = ValuePath::spec_join(root, SPEC_TOML@);
                let k2 = ValuePath::spec_join(root, VALUE_JSON@);
                &&& final(fs).spec_has_dir(root)
                &&& final(fs).spec_has_file(k1)
                &&& final(fs).spec_file(k1) == FileBody::ModRef(self.spec_module_ref())
                &&& final(fs).spec_has_file(k2)
                &&& (final(fs).spec_file(k2) matches FileBody::Dict(d) && d.spec_entries()
                    == self.spec_value_entries())
                &&& forall|p2: Seq<char>|
                    p2 != k1 && p2 != k2 ==> final(fs).spec_has_file(p2) == old(fs).spec_has_file(p2)
                &&& forall|p2: Seq<char>|
                    p2 != k1 && p2 != k2 && old(fs).spec_has_file(p2) ==> final(fs).spec_file(p2)
                        == old(fs).spec_file(p2)
            }),
    {
        let root = path.join(self.name.as_str());
        fs.ensure_dir(root.path_string());
        let k1 = root.join(SPEC_TOML);
        let k2 = root.join(VALUE_JSON);
        proof {
            reveal_strlit("spec.toml");
            reveal_strlit("value.json");
            assert(SPEC_TOML@[0] == 's' && VALUE_JSON@[0] == 'v');
            lemma_join_ne(root.spec_path(), SPEC_TOML@, VALUE_JSON@);
        }
        fs.write_file(k1.path_string(), FileBody::ModRef(self.spec.duplicate()));
        fs.write_file(k2.path_string(), FileBody::Dict(self.value.duplicate()));
        Ok(())
    }

    /// Reconstitute an instance from `path`: the name is the path's last
    /// segment, the reference and values come from their files, and the
    /// local marker records the location.  Fails with a serialization kind
    /// when the name is empty or either file is missing or of the wrong
    /// shape.
    pub fn load_from(fs: &TextFs, path: &ValuePath) -> (r: SpecResult<RunningModule>)
        ensures
            ({
                let k1 = ValuePath::spec_join(path.spec_path(), SPEC_TOML@);
                let k2 = ValuePath::spec_join(path.spec_path(), VALUE_JSON@);
                let well = spec_last_seg(path.spec_path()).len() > 0 && fs.spec_has_file(k1) && (
                fs.spec_file(k1) is ModRef) && fs.spec_has_file(k2) && (fs.spec_file(k2) is Dict);
                if well {
                    r matches Ok(m) && {
                        &&& m.spec_name() == spec_last_seg(path.spec_path())
                        &&& FileBody::ModRef(m.spec_module_ref()) == fs.spec_file(k1)
                        &&& (fs.spec_file(k2) matches FileBody::Dict(d) && m.spec_value_entries()
                            == d.spec_entries())
                        &&& m.spec_local() matches Some(l) && l@ == path.spec_path()
                    }
                } else {
                    r matches Err(e) && e.spec_kind() == ErrorKind::SerializationFailure
                }
            }),
    {
        let name = path_file_name(path.path())?;
        let k1 = path.join(SPEC_TOML);
        let k2 = path.join(VALUE_JSON);
        let spec_body = match fs.read_file(k1.path()) {
            Some(FileBody::ModRef(m)) => m.duplicate(),
            _ => {
                return Err(SpecError::new(ErrorKind::SerializationFailure));
            }
        };
        let value = match fs.read_file(k2.path()) {
            Some(FileBody::Dict(d)) => d.duplicate(),
            _ => {
                return Err(SpecError::new(ErrorKind::SerializationFailure));
            }
        };
        Ok(RunningModule { name, spec: spec_body, value, local: Some(path.path_string()) })
    }

    /// Plan this instance's update: clear the prior spec tree, then fetch
    /// the reference into it under the name `spec`.  Demands a persisted
    /// instance.
    pub fn update(&self, options: &UpdateOptions, cache: &CacheState) -> (r: SpecResult<
        ModUpdatePlan,
    >)
        ensures
            self.spec_local() is None ==> (r matches Err(e) && e.spec_kind()
                == ErrorKind::MissingLocalPath),
            self.spec_local() matches Some(l) ==> match r {
                Ok(plan) => {
                    &&& plan.clear.spec_path() == ValuePath::spec_join(l@, SPEC_DIR@)
                    &&& self.spec_module_ref().spec_addr().spec_dir_name() matches Some(d)
                        && plan.step.local.spec_path() == ValuePath::spec_join(l@, d)
                    &&& crate::update::spec_resolve_action(options.spec_policy(), *cache) == Some(
                        plan.step.action,
                    )
                    &&& plan.step.rename_to matches Some(n) && n@ == SPEC_DIR@
                },
                Err(e) => {
                    ||| e.spec_kind() == ErrorKind::MalformedInput
                        && self.spec_module_ref().spec_addr().spec_dir_name() is None
                    ||| e.spec_kind() == ErrorKind::PathCollision
                        && crate::update::spec_resolve_action(options.spec_policy(), *cache) is None
                },
            },
    {
        let local = match &self.local {
            Some(l) => ValuePath::new(l.as_str()),
            None => {
                return Err(SpecError::new(ErrorKind::MissingLocalPath));
            }
        };
        let step = self.spec.addr().resolve_rename(&local, SPEC_DIR, options.policy(), cache)?;
        let clear = local.join(SPEC_DIR);
        Ok(ModUpdatePlan { clear, step })
    }

    /// Localize this instance: write the value snapshot once — an existing
    /// snapshot is never overwritten — and hand back one render job per
    /// template file under the spec tree, its text comment-stripped, its
    /// output path under the local tree.  Demands a persisted instance;
    /// fails with a malformed-input kind when a template defeats the lexer.
    #[verifier::loop_isolation(false)]
    pub fn localize(&self, fs: &mut TextFs, options: &LocalizeOptions) -> (r: SpecResult<
        Vec<RenderJob>,
    >)
        ensures
            self.spec_local() is None ==> (r matches Err(e) && e.spec_kind()
                == ErrorKind::MissingLocalPath) && final(fs).spec_files() == old(fs).spec_files(),
            self.spec_local() matches Some(l) ==> {
                let snap = ValuePath::spec_join(l@, VALUE_JSON@);
                let srcp = ValuePath::spec_join(l@, SPEC_DIR@) + seq!['/'];
                let dstp = ValuePath::spec_join(l@, crate::const_vars::LOCAL_DIR@) + seq!['/'];
                match r {
                    Ok(jobs) => {
                        &&& (spec_render_jobs(old(fs).spec_files(), srcp, dstp) matches Some(rs)
                            && jobs@.len() == rs.len() && (forall|j: int|
                            0 <= j < rs.len() ==> jobs@[j].dst@ == rs[j].0 && jobs@[j].content@
                                == rs[j].1))
                        &&& old(fs).spec_has_file(snap) ==> final(fs).spec_files() == old(fs).spec_files()
                        &&& !old(fs).spec_has_file(snap) ==> {
                            &&& final(fs).spec_has_file(snap)
                            &&& (final(fs).spec_file(snap) matches FileBody::Dict(d)
                                && d.spec_entries() == spec_overridden(
                                self.spec_value_entries(),
                                options.spec_global(),
                            ))
                            &&& forall|p2: Seq<char>|
                                p2 != snap ==> final(fs).spec_has_file(p2) == old(fs).spec_has_file(p2)
                            &&& forall|p2: Seq<char>|
                                p2 != snap && old(fs).spec_has_file(p2) ==> final(fs).spec_file(p2)
                                    == old(fs).spec_file(p2)
                        }
                    },
                    Err(e) => {
                        &&& e.spec_kind() == ErrorKind::MalformedInput
                        &&& spec_render_jobs(old(fs).spec_files(), srcp, dstp) is None
                        &&& final(fs).spec_files() == old(fs).spec_files()
                    },
                }
            },
    {
        let base = match &self.local {
            Some(l) => ValuePath::new(l.as_str()),
            None => {
                return Err(SpecError::new(ErrorKind::MissingLocalPath));
            }
        };
        let mut src_prefix = base.join(SPEC_DIR).path_string();
        src_prefix.append("/");
        let mut dst_prefix = base.join(crate::const_vars::LOCAL_DIR).path_string();
        dst_prefix.append("/");
        proof {
            reveal_strlit("/");
            assert("/"@ =~= seq!['/']);
        }
        let ghost srcp = src_prefix@;
        let ghost dstp = dst_prefix@;
        let ghost files = fs.spec_files();

        let n = fs.file_count();
        let mut jobs: Vec<RenderJob> = Vec::new();
        let mut i: usize = 0;
        while i < n
            invariant
                0 <= i <= n,
                n == files.len(),
                files == fs.spec_files(),
                srcp == src_prefix@,
                dstp == dst_prefix@,
                spec_render_jobs(files.take(i as int), srcp, dstp) matches Some(rs) && jobs@.len()
                    == rs.len() && (forall|j: int|
                    0 <= j < rs.len() ==> jobs@[j].dst@ == rs[j].0 && jobs@[j].content@
                        == rs[j].1),
            decreases n - i,
        {
            proof {
                assert(files.take(i + 1).drop_last() =~= files.take(i as int));
                assert(files.take(i + 1).last() == files[i as int]);
            }
            let p = fs.file_path_at(i);
            let matched: Option<String> = if starts_with(p, src_prefix.as_str()) {
                match fs.file_body_at(i) {
                    FileBody::Text(t) => {
                        match crate::comment::remove_comment(t.as_str()) {
                            Ok(clean) => Some(clean),
                            Err(_) => {
                                proof {
                                    crate::fsmodel::lemma_render_jobs_none_extends(
                                        files,
                                        srcp,
                                        dstp,
                                        i + 1,
                                    );
                                }
                                return Err(SpecError::new(ErrorKind::MalformedInput));
                            }
                        }
                    }
                    _ => None,
                }
            } else {
                None
            };
            match matched {
                Some(clean) => {
                    let src = String::from_str(fs.file_path_at(i));
                    let plen = src_prefix.as_str().unicode_len();
                    let suffix = fs.file_path_at(i).substring_char(
                        plen,
                        fs.file_path_at(i).unicode_len(),
                    );
                    let mut dst = dst_prefix.clone();
                    dst.append(suffix);
                    jobs.push(RenderJob { src, dst, content: clean });
                }
                None => {}
            }
            i += 1;
        }
        proof {
            assert(files.take(n as int) =~= files);
        }

        let snap = base.value_file();
        if !fs.file_exists(snap.as_str()) {
            let merged = self.value.overridden_by(options.global_value());
            fs.write_file(snap, FileBody::Dict(merged));
        }
        Ok(jobs)
    }
}

/// Law: persisting a running module and loading it from the same location
/// reproduces the reference record, the bound values, and the name, which
/// the load recovers from the path; only the local-path marker differs, as
/// loading sets it.
pub proof fn lemma_running_module_round_trip(
    files: Seq<(String, FileBody)>,
    base: Seq<char>,
    name: Seq<char>,
    k1: String,
    k2: String,
    refv: ModuleSpecRef,
    dict: ValueDict,
)
    requires
        keyed_unique(files),
        name.len() > 0,
        forall|k: int| 0 <= k < name.len() ==> name[k] != '/',
        k1@ == ValuePath::spec_join(ValuePath::spec_join(base, name), SPEC_TOML@),
        k2@ == ValuePath::spec_join(ValuePath::spec_join(base, name), VALUE_JSON@),
    ensures
        ({
            let saved = keyed_insert(keyed_insert(files, k1, FileBody::ModRef(refv)), k2,
            FileBody::Dict(dict));
            let root = ValuePath::spec_join(base, name);
            &&& spec_last_seg(root) == name
            &&& keyed_has(saved, ValuePath::spec_join(root, SPEC_TOML@))
            &&& keyed_at(saved, ValuePath::spec_join(root, SPEC_TOML@)) == FileBody::ModRef(refv)
            &&& keyed_has(saved, ValuePath::spec_join(root, VALUE_JSON@))
            &&& keyed_at(saved, ValuePath::spec_join(root, VALUE_JSON@)) == FileBody::Dict(dict)
        }),
{
    let root = ValuePath::spec_join(base, name);
    lemma_last_seg_join(base, name);
    proof_strlit_distinct();
    lemma_join_ne(root, SPEC_TOML@, VALUE_JSON@);
    lemma_keyed_insert(files, k1, FileBody::ModRef(refv));
    lemma_keyed_insert(keyed_insert(files, k1, FileBody::ModRef(refv)), k2, FileBody::Dict(dict));
}

proof fn proof_strlit_distinct()
    ensures
        SPEC_TOML@ != VALUE_JSON@,
{
    reveal_strlit("spec.toml");
    reveal_strlit("value.json");
    assert(SPEC_TOML@[0] == 's' && VALUE_JSON@[0] == 'v');
}

impl crate::types::Persistable<RunningModule> for RunningModule {
    fn save_to(&self, fs: &mut TextFs, path: &ValuePath, _name: Option<String>) -> SpecResult<()> {
        self.save_to(fs, path)
    }

    fn load_from(fs: &TextFs, path: &ValuePath) -> SpecResult<RunningModule> {
        RunningModule::load_from(fs, path)
    }
}

impl crate::types::Persistable<ModTargetSpec> for ModTargetSpec {
    fn save_to(&self, fs: &mut TextFs, path: &ValuePath, _name: Option<String>) -> SpecResult<()> {
        self.save_to(fs, path)
    }

    fn load_from(fs: &TextFs, path: &ValuePath) -> SpecResult<ModTargetSpec> {
        ModTargetSpec::load_from(fs, path)
    }
}

impl crate::types::Localizable<Vec<RenderJob>> for RunningModule {
    fn localize(&self, fs: &mut TextFs, options: &LocalizeOptions) -> SpecResult<Vec<RenderJob>> {
        self.localize(fs, options)
    }
}

/// An instance built for trying the pipeline out.
pub fn make_modins_example() -> (r: SpecResult<RunningModule>)
    ensures
        r is Ok,
{
    let name = "postgresql";
    let spec = ModuleSpecRef::from(
        name,
        AddrType::Git(
            crate::addr::GitAddr::from("https://e.coding.net/dy-sec/galaxy-open/modspec.git").path(
                name,
            ),
        ),
        TargetNode::new(CpuArch::X86, OsCPE::UBT22, RunSPC::Host),
    );
    let mut dict = ValueDict::new();
    dict.insert(String::from_str("KEY"), ValueType::of_str(String::from_str(name)));
    dict.insert(String::from_str("CACHE_SIZE"), ValueType::of_int(4));
    let sys = RunningModule::new(spec, dict);
    Ok(sys)
}

/// A fresh instance fetched from the given spec center.
pub fn make_modins_new(name: &str, spec_center: &str) -> (r: SpecResult<RunningModule>)
    ensures
        r matches Ok(m) && m.spec_name() == name@,
{
    let spec = ModuleSpecRef::from(
        name,
        AddrType::Git(crate::addr::GitAddr::from(spec_center).path(name)),
        TargetNode::new(CpuArch::X86, OsCPE::UBT22, RunSPC::Host),
    );
    let mut dict = ValueDict::new();
    dict.insert(String::from_str("KEY"), ValueType::of_str(String::from_str("postgresql")));
    dict.insert(String::from_str("CACHE_SIZE"), ValueType::of_int(4));
    let sys = RunningModule::new(spec, dict);
    Ok(sys)
}

} // verus!
