use vstd::prelude::*;
use vstd::string::StringExecFns;

use crate::const_vars::WORK_GXL;
use crate::error::{ErrorKind, SpecError, SpecResult};
use crate::fsmodel::{FileBody, TextFs};
use crate::keyed::{keyed_at, keyed_has, keyed_insert, keyed_unique, lemma_keyed_insert};
use crate::task::OperationType;
use crate::types::ValuePath;

verus! {

/// One workflow action: its operation, the file it is stored under, and
/// its script text.
#[derive(Debug)]
pub struct GxlAction {
    op: OperationType,
    file: String,
    code: String,
}

impl GxlAction {
    pub closed spec fn spec_op(&self) -> OperationType {
        self.op
    }

    pub closed spec fn spec_file(&self) -> Seq<char> {
        self.file@
    }

    pub closed spec fn spec_code(&self) -> Seq<char> {
        self.code@
    }

    pub fn new(op: OperationType, file: String, code: String) -> (r: Self)
        ensures
            r.spec_op() == op,
            r.spec_file() == file@,
            r.spec_code() == code@,
    {
        GxlAction { op, file, code }
    }

    pub fn op(&self) -> (r: &OperationType)
        ensures
            *r == self.spec_op(),
    {
        &self.op
    }

    pub fn file(&self) -> (r: &str)
        ensures
            r@ == self.spec_file(),
    {
        self.file.as_str()
    }

    pub fn code(&self) -> (r: &str)
        ensures
            r@ == self.spec_code(),
    {
        self.code.as_str()
    }

    pub fn duplicate(&self) -> (r: Self)
        ensures
            r == *self,
    {
        let r = GxlAction { op: self.op, file: self.file.clone(), code: self.code.clone() };
        proof {
            assert(r == *self);
        }
        r
    }
}

/// The ordered workflow actions of a record.
#[derive(Debug)]
pub struct Workflows {
    actions: Vec<GxlAction>,
}

impl Workflows {
    pub closed spec fn spec_actions(&self) -> Seq<GxlAction> {
        self.actions@
    }

    pub fn new(actions: Vec<GxlAction>) -> (r: Self)
        ensures
            r.spec_actions() == actions@,
    {
        Workflows { actions }
    }

    pub fn len(&self) -> (r: usize)
        ensures
            r == self.spec_actions().len(),
    {
        self.actions.len()
    }

    pub fn action_at(&self, i: usize) -> (r: &GxlAction)
        requires
            i < self.spec_actions().len(),
        ensures
            *r == self.spec_actions()[i as int],
    {
        &self.actions[i]
    }

    pub fn duplicate(&self) -> (r: Self)
        ensures
            r.spec_actions() == self.spec_actions(),
    {
        let n = self.actions.len();
        let mut out: Vec<GxlAction> = Vec::new();
        let mut i: usize = 0;
        while i < n
            invariant
                0 <= i <= n,
                n == self.actions@.len(),
                out@.len() == i,
                forall|j: int| 0 <= j < i ==> out@[j] == self.actions@[j],
            decreases n - i,
        {
            let item = self.actions[i].duplicate();
            out.push(item);
            i += 1;
        }
        let r = Workflows { actions: out };
        proof {
            assert(r.actions@ =~= self.actions@);
        }
        r
    }
}

/// System-level workflows carry the same shape.
pub type SysWorkflows = Workflows;

/// A workflow project: the main script of a workspace.
#[derive(Debug)]
pub struct GxlProject {
    main: String,
}

impl GxlProject {
    pub closed spec fn spec_main(&self) -> Seq<char> {
        self.main@
    }

    pub fn from(main: &str) -> (r: Self)
        ensures
            r.spec_main() == main@,
    {
        GxlProject { main: String::from_str(main) }
    }

    pub fn main(&self) -> (r: &str)
        ensures
            r@ == self.spec_main(),
    {
        self.main.as_str()
    }

    pub fn duplicate(&self) -> (r: Self)
        ensures
            r == *self,
    {
        let r = GxlProject { main: self.main.clone() };
        proof {
            assert(r == *self);
        }
        r
    }

    /// Where a project's main script lives under its root.
    pub open spec fn spec_work_key(base: Seq<char>) -> Seq<char> {
        ValuePath::spec_join(ValuePath::spec_join(base, "_gal"@), WORK_GXL@)
    }

    /// Persist the main script under `path`/_gal/work.gxl, creating the
    /// directory.
    pub fn save_to(&self, fs: &mut TextFs, path: &ValuePath) -> (r: SpecResult<()>)
        ensures
            r is Ok,
            ({
                let key = Self::spec_work_key(path.spec_path());
                &&& final(fs).spec_has_dir(ValuePath::spec_join(path.spec_path(), "_gal"@))
                &&& final(fs).spec_has_file(key)
                &&& final(fs).spec_file(key) matches FileBody::Text(t) && t@ == self.spec_main()
                &&& forall|p2: Seq<char>|
                    p2 != key ==> final(fs).spec_has_file(p2) == old(fs).spec_has_file(p2)
                &&& forall|p2: Seq<char>|
                    p2 != key && old(fs).spec_has_file(p2) ==> final(fs).spec_file(p2) == old(
                        fs,
                    ).spec_file(p2)
            }),
    {
        let gal = path.join("_gal");
        fs.ensure_dir(gal.path_string());
        let key = gal.join(WORK_GXL);
        fs.write_file(key.path_string(), FileBody::Text(self.main.clone()));
        Ok(())
    }

    /// Reconstitute a project from `path`/_gal/work.gxl.  Fails with a
    /// serialization kind when the script file is missing or not text.
    pub fn load_from(fs: &TextFs, path: &ValuePath) -> (r: SpecResult<GxlProject>)
        ensures
            ({
                let key = Self::spec_work_key(path.spec_path());
                if fs.spec_has_file(key) && (fs.spec_file(key) is Text) {
                    r matches Ok(g) && (fs.spec_file(key) matches FileBody::Text(t)
                        && g.spec_main() == t@)
                } else {
                    r matches Err(e) && e.spec_kind() == ErrorKind::SerializationFailure
                }
            }),
    {
        let key = path.join("_gal").join(WORK_GXL);
        match fs.read_file(key.path()) {
            Some(FileBody::Text(t)) => Ok(GxlProject { main: t.clone() }),
            _ => Err(SpecError::new(ErrorKind::SerializationFailure)),
        }
    }
}

impl crate::types::Persistable<GxlProject> for GxlProject {
    fn save_to(&self, fs: &mut TextFs, path: &ValuePath, _name: Option<String>) -> SpecResult<()> {
        self.save_to(fs, path)
    }

    fn load_from(fs: &TextFs, path: &ValuePath) -> SpecResult<GxlProject> {
        GxlProject::load_from(fs, path)
    }
}

/// Law: saving a workflow project and loading it from the same root gives
/// back exactly the saved script text.
pub proof fn lemma_gxl_project_round_trip(
    files: Seq<(String, FileBody)>,
    base: Seq<char>,
    key: String,
    main: String,
)
    requires
        keyed_unique(files),
        key@ == GxlProject::spec_work_key(base),
    ensures
        ({
            let saved = keyed_insert(files, key, FileBody::Text(main));
            &&& keyed_has(saved, GxlProject::spec_work_key(base))
            &&& keyed_at(saved, GxlProject::spec_work_key(base)) == FileBody::Text(main)
        }),
{
    lemma_keyed_insert(files, key, FileBody::Text(main));
}

} // verus!
