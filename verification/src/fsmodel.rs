use vstd::prelude::*;

use crate::action::Workflows;
use crate::keyed::{
    keyed_at, keyed_find, keyed_first_index, keyed_has, keyed_insert, keyed_unique, keyed_write,
    lemma_keyed_first_props, lemma_keyed_insert,
};
use crate::module::{Artifact, CaculateResSpec, ConfSpec, LogsSpec, ModuleSpecRef};
use crate::system::{ModelResource, ModulesList, NetResSpace};
use crate::vars::{ValueDict, VarCollection};

verus! {

/// What one persisted file holds.  Encoding a body into concrete bytes and
/// back is the serialization adapters' affair outside the verified core;
/// here a file holds its typed content directly.
#[derive(Debug)]
pub enum FileBody {
    Text(String),
    Dict(ValueDict),
    Vars(VarCollection),
    ModRef(ModuleSpecRef),
    ModList(ModulesList),
    Res(ModelResource),
    Net(NetResSpace),
    Flows(Workflows),
    Art(Artifact),
    Conf(ConfSpec),
    Logs(LogsSpec),
    ResSpec(CaculateResSpec),
}

/// Whether some entry of the directory list has these characters.
pub open spec fn dirs_has(s: Seq<String>, p: Seq<char>) -> bool {
    exists|i: int| 0 <= i < s.len() && s[i]@ == p
}

proof fn lemma_dirs_has_push(s: Seq<String>, d: String, p2: Seq<char>)
    ensures
        dirs_has(s.push(d), p2) == (dirs_has(s, p2) || d@ == p2),
{
    if dirs_has(s.push(d), p2) {
        let i = choose|i: int| 0 <= i < s.push(d).len() && s.push(d)[i]@ == p2;
        if i < s.len() {
            assert(s[i]@ == p2);
        }
    }
    if dirs_has(s, p2) {
        let i = choose|i: int| 0 <= i < s.len() && s[i]@ == p2;
        assert(s.push(d)[i]@ == p2);
    }
    if d@ == p2 {
        assert(s.push(d)[s.len() as int]@ == p2);
    }
}

/// The workspace tree the records persist into: typed files under textual
/// paths, and the directories that were created.  Whoever runs the
/// pipeline mirrors this store onto a real file system.
#[derive(Debug)]
pub struct TextFs {
    files: Vec<(String, FileBody)>,
    dirs: Vec<String>,
}

impl TextFs {
    #[verifier::type_invariant]
    spec fn inv(self) -> bool {
        keyed_unique(self.files@)
    }

    pub closed spec fn spec_files(&self) -> Seq<(String, FileBody)> {
        self.files@
    }

    pub closed spec fn spec_dirs(&self) -> Seq<String> {
        self.dirs@
    }

    pub open spec fn spec_has_file(&self, p: Seq<char>) -> bool {
        keyed_has(self.spec_files(), p)
    }

    pub open spec fn spec_file(&self, p: Seq<char>) -> FileBody {
        keyed_at(self.spec_files(), p)
    }

    pub open spec fn spec_has_dir(&self, p: Seq<char>) -> bool {
        dirs_has(self.spec_dirs(), p)
    }

    pub fn new() -> (r: Self)
        ensures
            r.spec_files() == Seq::<(String, FileBody)>::empty(),
            r.spec_dirs() == Seq::<String>::empty(),
    {
        TextFs { files: Vec::new(), dirs: Vec::new() }
    }

    /// Write a file: an existing path is overwritten in place, a new path
    /// appended.
    pub fn write_file(&mut self, path: String, body: FileBody)
        ensures
            final(self).spec_files() == keyed_insert(old(self).spec_files(), path, body),
            final(self).spec_has_file(path@),
            final(self).spec_file(path@) == body,
            forall|p2: Seq<char>|
                p2 != path@ ==> final(self).spec_has_file(p2) == old(self).spec_has_file(p2),
            forall|p2: Seq<char>|
                p2 != path@ && old(self).spec_has_file(p2) ==> final(self).spec_file(p2) == old(
                    self,
                ).spec_file(p2),
            final(self).spec_dirs() == old(self).spec_dirs(),
    {
        proof {
            use_type_invariant(&*self);
            lemma_keyed_insert(self.files@, path, body);
        }
        let mut files: Vec<(String, FileBody)> = Vec::new();
        std::mem::swap(&mut files, &mut self.files);
        keyed_write(&mut files, path, body);
        self.files = files;
    }

    pub fn read_file(&self, path: &str) -> (r: Option<&FileBody>)
        ensures
            match r {
                Some(b) => self.spec_has_file(path@) && *b == self.spec_file(path@),
                None => !self.spec_has_file(path@),
            },
    {
        match keyed_find(&self.files, path) {
            Some(i) => {
                proof {
                    lemma_keyed_first_props(self.files@, path@);
                }
                Some(&self.files[i].1)
            }
            None => None,
        }
    }

    pub fn file_exists(&self, path: &str) -> (r: bool)
        ensures
            r == self.spec_has_file(path@),
    {
        match keyed_find(&self.files, path) {
            Some(_) => true,
            None => false,
        }
    }

    /// Record that a directory exists, as saving creates the destination
    /// tree.  Already-known directories are not repeated.
    pub fn ensure_dir(&mut self, path: String)
        ensures
            final(self).spec_has_dir(path@),
            forall|p2: Seq<char>|
                p2 != path@ ==> final(self).spec_has_dir(p2) == old(self).spec_has_dir(p2),
            final(self).spec_files() == old(self).spec_files(),
    {
        proof {
            use_type_invariant(&*self);
        }
        if !self.dir_exists(path.as_str()) {
            let ghost prior = self.dirs@;
            let mut dirs: Vec<String> = Vec::new();
            std::mem::swap(&mut dirs, &mut self.dirs);
            let ghost pushed = path;
            dirs.push(path);
            self.dirs = dirs;
            proof {
                assert(self.dirs@ == prior.push(pushed));
                lemma_dirs_has_push(prior, pushed, pushed@);
                assert forall|p2: Seq<char>| p2 != pushed@ implies dirs_has(self.dirs@, p2)
                    == dirs_has(prior, p2) by {
                    lemma_dirs_has_push(prior, pushed, p2);
                }
            }
        }
    }

    pub fn dir_exists(&self, path: &str) -> (r: bool)
        ensures
            r == self.spec_has_dir(path@),
    {
        let n = self.dirs.len();
        let mut i: usize = 0;
        while i < n
            invariant
                0 <= i <= n,
                n == self.dirs@.len(),
                forall|j: int| 0 <= j < i ==> self.dirs@[j]@ != path@,
            decreases n - i,
        {
            if crate::vars::str_equal(self.dirs[i].as_str(), path) {
                return true;
            }
            i += 1;
        }
        false
    }

    pub fn file_count(&self) -> (r: usize)
        ensures
            r == self.spec_files().len(),
    {
        self.files.len()
    }

    pub fn file_path_at(&self, i: usize) -> (r: &str)
        requires
            i < self.spec_files().len(),
        ensures
            r@ == self.spec_files()[i as int].0@,
    {
        self.files[i].0.as_str()
    }

    pub fn file_body_at(&self, i: usize) -> (r: &FileBody)
        requires
            i < self.spec_files().len(),
        ensures
            *r == self.spec_files()[i as int].1,
    {
        &self.files[i].1
    }
}

/// What localizing renders from a store: every text file under the
/// template prefix, comment-stripped, destined for the matching path under
/// the output prefix; `None` when some template is malformed.
pub open spec fn spec_render_jobs(
    files: Seq<(String, FileBody)>,
    src_prefix: Seq<char>,
    dst_prefix: Seq<char>,
) -> Option<Seq<(Seq<char>, Seq<char>)>>
    decreases files.len(),
{
    if files.len() == 0 {
        Some(Seq::empty())
    } else {
        let rest = spec_render_jobs(files.drop_last(), src_prefix, dst_prefix);
        match files.last().1 {
            FileBody::Text(t) => {
                if crate::types::spec_starts_with(files.last().0@, src_prefix) {
                    match crate::comment::spec_lex(crate::comment::YmlStatus::Code, t@, 0) {
                        Some(clean) => match rest {
                            Some(rs) => Some(
                                rs.push(
                                    (
                                        dst_prefix + files.last().0@.skip(src_prefix.len() as int),
                                        clean,
                                    ),
                                ),
                            ),
                            None => None,
                        },
                        None => None,
                    }
                } else {
                    rest
                }
            }
            _ => rest,
        }
    }
}

/// A malformed template among the first `k` files spoils the whole render.
pub proof fn lemma_render_jobs_none_extends(
    files: Seq<(String, FileBody)>,
    src_prefix: Seq<char>,
    dst_prefix: Seq<char>,
    k: int,
)
    requires
        0 <= k <= files.len(),
        spec_render_jobs(files.take(k), src_prefix, dst_prefix) is None,
    ensures
        spec_render_jobs(files, src_prefix, dst_prefix) is None,
    decreases files.len() - k,
{
    if k < files.len() {
        assert(files.take(k + 1).drop_last() =~= files.take(k));
        lemma_render_jobs_none_extends(files, src_prefix, dst_prefix, k + 1);
    } else {
        assert(files.take(k) =~= files);
    }
}

/// Law: localization is idempotent.  Writing the value snapshot once makes
/// it present, so a second run leaves the store byte-for-byte as it was;
/// and because the snapshot lives outside the template tree, the render
/// jobs of the second run equal those of the first.
pub proof fn lemma_localize_idempotent(
    files: Seq<(String, FileBody)>,
    snap: String,
    body: FileBody,
    src_prefix: Seq<char>,
    dst_prefix: Seq<char>,
)
    requires
        keyed_unique(files),
        !keyed_has(files, snap@),
        !crate::types::spec_starts_with(snap@, src_prefix),
    ensures
        keyed_has(keyed_insert(files, snap, body), snap@),
        spec_render_jobs(keyed_insert(files, snap, body), src_prefix, dst_prefix)
            == spec_render_jobs(files, src_prefix, dst_prefix),
{
    lemma_keyed_insert(files, snap, body);
    let once = keyed_insert(files, snap, body);
    assert(once =~= files.push((snap, body)));
    assert(once.drop_last() =~= files);
}

} // verus!
