use vstd::prelude::*;
use vstd::string::{StrSliceExecFns, StringExecFns};

use crate::env_eval::{find_char_from, lemma_find_char_from};
use crate::error::{ErrorKind, SpecError, SpecResult};

verus! {

/// Position of the last `/`, or -1 when the sequence has none.
pub open spec fn last_slash(s: Seq<char>) -> int
    decreases s.len(),
{
    if s.len() == 0 {
        -1
    } else if s[s.len() - 1] == '/' {
        s.len() - 1
    } else {
        last_slash(s.drop_last())
    }
}

pub proof fn lemma_last_slash(s: Seq<char>)
    ensures
        -1 <= last_slash(s) < s.len(),
        last_slash(s) >= 0 ==> s[last_slash(s)] == '/',
        forall|j: int| last_slash(s) < j < s.len() ==> s[j] != '/',
    decreases s.len(),
{
    if s.len() > 0 && s[s.len() - 1] != '/' {
        lemma_last_slash(s.drop_last());
        assert(forall|j: int| 0 <= j < s.len() - 1 ==> s[j] == s.drop_last()[j]);
    }
}

/// The text after the last `/`: the whole text when it has no `/`.
pub open spec fn spec_last_seg(s: Seq<char>) -> Seq<char> {
    s.subrange(last_slash(s) + 1, s.len() as int)
}

proof fn lemma_last_slash_skip(s: Seq<char>, k: int)
    requires
        0 <= k <= s.len(),
        forall|j: int| k <= j < s.len() ==> s[j] != '/',
    ensures
        last_slash(s) == last_slash(s.take(k)),
    decreases s.len() - k,
{
    if k < s.len() {
        assert(s[s.len() - 1] != '/');
        assert(s.drop_last() =~= s.take(s.len() - 1));
        lemma_last_slash_skip(s.take(s.len() - 1), k);
        assert(s.take(s.len() - 1).take(k) =~= s.take(k));
    } else {
        assert(s.take(k) =~= s);
    }
}

/// Start of the last `/`-separated segment.
fn last_seg_start(s: &str) -> (r: usize)
    ensures
        r as int == last_slash(s@) + 1,
{
    let n = s.unicode_len();
    let mut k: usize = n;
    while k > 0
        invariant
            0 <= k <= n,
            n == s@.len(),
            forall|j: int| k <= j < s@.len() ==> s@[j] != '/',
        decreases k,
    {
        if s.get_char(k - 1) == '/' {
            proof {
                lemma_last_slash_skip(s@, k as int);
                assert(s@.take(k as int)[k - 1] == s@[k - 1]);
            }
            return k;
        }
        k -= 1;
    }
    proof {
        lemma_last_slash_skip(s@, 0);
        assert(s@.take(0) =~= Seq::<char>::empty());
    }
    0
}

/// The last `/`-separated segment of a path-like string.
pub fn last_seg(s: &str) -> (r: String)
    ensures
        r@ == spec_last_seg(s@),
{
    proof {
        lemma_last_slash(s@);
    }
    let start = last_seg_start(s);
    let n = s.unicode_len();
    let piece = s.substring_char(start, n);
    String::from_str(piece)
}

/// Position of the first `://`, or -1 when the text has none.
pub open spec fn scheme_pos(s: Seq<char>, i: int) -> int
    decreases s.len() - i,
{
    if i < 0 || i + 3 > s.len() {
        -1
    } else if s[i] == ':' && s[i + 1] == '/' && s[i + 2] == '/' {
        i
    } else {
        scheme_pos(s, i + 1)
    }
}

proof fn lemma_scheme_pos(s: Seq<char>, i: int)
    requires
        0 <= i,
    ensures
        scheme_pos(s, i) == -1 || (i <= scheme_pos(s, i) && scheme_pos(s, i) + 3 <= s.len()
            && s[scheme_pos(s, i)] == ':' && s[scheme_pos(s, i) + 1] == '/' && s[scheme_pos(s, i)
            + 2] == '/'),
    decreases s.len() - i,
{
    if i + 3 <= s.len() && !(s[i] == ':' && s[i + 1] == '/' && s[i + 2] == '/') {
        lemma_scheme_pos(s, i + 1);
    }
}

fn find_scheme(s: &str) -> (r: Option<usize>)
    ensures
        match r {
            Some(p) => scheme_pos(s@, 0) == p as int,
            None => scheme_pos(s@, 0) == -1,
        },
{
    let n = s.unicode_len();
    if n < 3 {
        proof {
            lemma_scheme_short(s@, 0);
        }
        return None;
    }
    let mut k: usize = 0;
    while k <= n - 3
        invariant
            0 <= k,
            3 <= n,
            k <= n - 2,
            n == s@.len(),
            scheme_pos(s@, 0) == scheme_pos(s@, k as int),
        decreases n - k,
    {
        if s.get_char(k) == ':' && s.get_char(k + 1) == '/' && s.get_char(k + 2) == '/' {
            return Some(k);
        }
        k += 1;
    }
    proof {
        lemma_scheme_short(s@, k as int);
    }
    None
}

proof fn lemma_scheme_short(s: Seq<char>, i: int)
    requires
        i >= 0,
        i + 3 > s.len(),
    ensures
        scheme_pos(s, i) == -1,
{
}

/// The repository directory name a remote address produces on disk: the
/// last path segment after the URL scheme, or after the `:` of an
/// `owner@host:path` address.  Text that is neither kind of address has no
/// repository name.
pub open spec fn spec_repo_name(s: Seq<char>) -> Option<Seq<char>> {
    if scheme_pos(s, 0) >= 0 {
        Some(spec_last_seg(s.subrange(scheme_pos(s, 0) + 3, s.len() as int)))
    } else if find_char_from(s, 0, '@') >= 0 && find_char_from(s, 0, ':') >= 0 {
        Some(spec_last_seg(s.subrange(find_char_from(s, 0, ':') + 1, s.len() as int)))
    } else {
        None
    }
}

/// Extract the repository name from a remote address, when it has one.
pub fn get_repo_name(addr: &str) -> (r: Option<String>)
    ensures
        match r {
            Some(name) => spec_repo_name(addr@) matches Some(t) && name@ == t,
            None => spec_repo_name(addr@) is None,
        },
{
    let n = addr.unicode_len();
    match find_scheme(addr) {
        Some(p) => {
            proof {
                lemma_scheme_pos(addr@, 0);
            }
            let tail = addr.substring_char(p + 3, n);
            Some(last_seg(tail))
        }
        None => {
            let has_at = match crate::env_eval::find_char(addr, 0, '@') {
                Some(_) => true,
                None => false,
            };
            match crate::env_eval::find_char(addr, 0, ':') {
                Some(c) if has_at => {
                    proof {
                        lemma_find_char_from(addr@, 0, ':');
                    }
                    let tail = addr.substring_char(c + 1, n);
                    Some(last_seg(tail))
                }
                _ => None,
            }
        }
    }
}

/// A git-addressable remote location: repository URL, an optional branch
/// or tag selector, and an optional in-repository subpath.
#[derive(Debug)]
pub struct GitAddr {
    repo: String,
    branch: Option<String>,
    tag: Option<String>,
    path: Option<String>,
}

impl GitAddr {
    pub closed spec fn spec_repo(&self) -> Seq<char> {
        self.repo@
    }

    pub closed spec fn spec_branch(&self) -> Option<String> {
        self.branch
    }

    pub closed spec fn spec_tag(&self) -> Option<String> {
        self.tag
    }

    pub closed spec fn spec_path(&self) -> Option<String> {
        self.path
    }

    pub fn from(repo: &str) -> (r: Self)
        ensures
            r.spec_repo() == repo@,
            r.spec_branch() is None,
            r.spec_tag() is None,
            r.spec_path() is None,
    {
        GitAddr { repo: String::from_str(repo), branch: None, tag: None, path: None }
    }

    pub fn branch(self, branch: &str) -> (r: Self)
        ensures
            r.spec_repo() == self.spec_repo(),
            r.spec_branch() matches Some(b) && b@ == branch@,
            r.spec_tag() == self.spec_tag(),
            r.spec_path() == self.spec_path(),
    {
        GitAddr { branch: Some(String::from_str(branch)), ..self }
    }

    pub fn tag(self, tag: &str) -> (r: Self)
        ensures
            r.spec_repo() == self.spec_repo(),
            r.spec_tag() matches Some(t) && t@ == tag@,
            r.spec_branch() == self.spec_branch(),
            r.spec_path() == self.spec_path(),
    {
        GitAddr { tag: Some(String::from_str(tag)), ..self }
    }

    pub fn path(self, path: &str) -> (r: Self)
        ensures
            r.spec_repo() == self.spec_repo(),
            r.spec_path() matches Some(p) && p@ == path@,
            r.spec_branch() == self.spec_branch(),
            r.spec_tag() == self.spec_tag(),
    {
        GitAddr { path: Some(String::from_str(path)), ..self }
    }

    pub fn repo(&self) -> (r: &str)
        ensures
            r@ == self.spec_repo(),
    {
        self.repo.as_str()
    }

    pub fn branch_name(&self) -> (r: &Option<String>)
        ensures
            *r == self.spec_branch(),
    {
        &self.branch
    }

    pub fn tag_name(&self) -> (r: &Option<String>)
        ensures
            *r == self.spec_tag(),
    {
        &self.tag
    }

    pub fn sub_path(&self) -> (r: &Option<String>)
        ensures
            *r == self.spec_path(),
    {
        &self.path
    }

    pub fn duplicate(&self) -> (r: Self)
        ensures
            r == *self,
    {
        let r = GitAddr {
            repo: self.repo.clone(),
            branch: clone_opt_string(&self.branch),
            tag: clone_opt_string(&self.tag),
            path: clone_opt_string(&self.path),
        };
        proof {
            assert(r == *self);
        }
        r
    }

    /// The directory name the fetched repository occupies: the last segment
    /// of the subpath when one is set, else the repository name from the
    /// remote address.
    pub open spec fn spec_dir_name(&self) -> Option<Seq<char>> {
        match self.spec_path() {
            Some(p) => Some(spec_last_seg(p@)),
            None => spec_repo_name(self.spec_repo()),
        }
    }

    pub fn dir_name(&self) -> (r: Option<String>)
        ensures
            match r {
                Some(name) => self.spec_dir_name() matches Some(t) && name@ == t,
                None => self.spec_dir_name() is None,
            },
    {
        match &self.path {
            Some(p) => Some(last_seg(p.as_str())),
            None => get_repo_name(self.repo.as_str()),
        }
    }
}

pub(crate) fn clone_opt_string(o: &Option<String>) -> (r: Option<String>)
    ensures
        r == *o,
{
    match o {
        Some(s) => Some(s.clone()),
        None => None,
    }
}

/// The kinds of remote address a reference may carry.
#[derive(Debug)]
pub enum AddrType {
    Git(GitAddr),
}

impl AddrType {
    pub fn duplicate(&self) -> (r: Self)
        ensures
            r == *self,
    {
        match self {
            AddrType::Git(g) => AddrType::Git(g.duplicate()),
        }
    }

    pub open spec fn spec_dir_name(&self) -> Option<Seq<char>> {
        match self {
            AddrType::Git(g) => g.spec_dir_name(),
        }
    }

    pub fn dir_name(&self) -> (r: Option<String>)
        ensures
            match r {
                Some(name) => self.spec_dir_name() matches Some(t) && name@ == t,
                None => self.spec_dir_name() is None,
            },
    {
        match self {
            AddrType::Git(g) => g.dir_name(),
        }
    }
}

/// Joining a slash-free name under a base leaves the name as the last
/// segment: how a record saved under its name is found again by loading.
pub proof fn lemma_last_seg_join(base: Seq<char>, name: Seq<char>)
    requires
        forall|k: int| 0 <= k < name.len() ==> name[k] != '/',
    ensures
        spec_last_seg(base + seq!['/'] + name) == name,
{
    let s = base + seq!['/'] + name;
    let bl = base.len() as int;
    assert(s[bl] == '/');
    assert(forall|j: int| bl + 1 <= j < s.len() ==> s[j] == name[j - bl - 1]);
    lemma_last_slash_skip(s, bl + 1);
    let t = s.take(bl + 1);
    assert(t[t.len() - 1] == '/');
    assert(last_slash(t) == bl);
    assert(last_slash(s) == bl);
    assert(spec_last_seg(s) =~= name);
}

/// The name a persisted record takes from its on-disk location: the last
/// path segment.  An empty segment (a path ending in `/`, or an empty
/// path) is no usable name.
pub fn path_file_name(path: &str) -> (r: SpecResult<String>)
    ensures
        spec_last_seg(path@).len() > 0 ==> (r matches Ok(name) && name@ == spec_last_seg(path@)),
        spec_last_seg(path@).len() == 0 ==> (r matches Err(e) && e.spec_kind()
            == ErrorKind::SerializationFailure),
{
    let name = last_seg(path);
    if name.as_str().unicode_len() == 0 {
        Err(SpecError::new(ErrorKind::SerializationFailure))
    } else {
        Ok(name)
    }
}

} // verus!
