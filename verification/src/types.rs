use vstd::prelude::*;
use vstd::string::{StrSliceExecFns, StringExecFns};

use crate::const_vars::VALUE_FILE;
use crate::vars::ValueDict;

verus! {

/// A path in the workspace tree, kept as plain text with `/` separators.
#[derive(Debug)]
pub struct ValuePath {
    path: String,
}

impl ValuePath {
    pub closed spec fn spec_path(&self) -> Seq<char> {
        self.path@
    }

    pub fn new(value: &str) -> (r: Self)
        ensures
            r.spec_path() == value@,
    {
        ValuePath { path: String::from_str(value) }
    }

    pub fn from_root(root: String) -> (r: Self)
        ensures
            r.spec_path() == root@,
    {
        ValuePath { path: root }
    }

    /// The joined path text: base, one separator, then the added part.
    pub open spec fn spec_join(base: Seq<char>, part: Seq<char>) -> Seq<char> {
        base + seq!['/'] + part
    }

    pub fn join(&self, value: &str) -> (r: Self)
        ensures
            r.spec_path() == Self::spec_join(self.spec_path(), value@),
    {
        let mut p = self.path.clone();
        p.append("/");
        p.append(value);
        proof {
            reveal_strlit("/");
            assert("/"@ =~= seq!['/']);
        }
        ValuePath { path: p }
    }

    pub fn join_all(&self, path: &str) -> (r: Self)
        ensures
            r.spec_path() == Self::spec_join(self.spec_path(), path@),
    {
        self.join(path)
    }

    /// Where this path's variable snapshot lives.
    pub fn value_file(&self) -> (r: String)
        ensures
            r@ == Self::spec_join(self.spec_path(), VALUE_FILE@),
    {
        let mut p = self.path.clone();
        p.append("/");
        p.append(VALUE_FILE);
        proof {
            reveal_strlit("/");
            assert("/"@ =~= seq!['/']);
        }
        p
    }

    pub fn path(&self) -> (r: &str)
        ensures
            r@ == self.spec_path(),
    {
        self.path.as_str()
    }

    pub fn path_string(&self) -> (r: String)
        ensures
            r@ == self.spec_path(),
    {
        self.path.clone()
    }

    pub fn duplicate(&self) -> (r: Self)
        ensures
            r == *self,
    {
        let r = ValuePath { path: self.path.clone() };
        proof {
            assert(r == *self);
        }
        r
    }

    /// Make sure the directory this path names exists in the workspace
    /// store, then hand the path back.
    pub fn ensure_exist(self, fs: &mut crate::fsmodel::TextFs) -> (r: crate::error::SpecResult<
        Self,
    >)
        ensures
            r matches Ok(p) && p == self,
            final(fs).spec_has_dir(self.spec_path()),
            final(fs).spec_files() == old(fs).spec_files(),
    {
        fs.ensure_dir(self.path_string());
        Ok(self)
    }
}

/// Whether `s` begins with `p`.
pub open spec fn spec_starts_with(s: Seq<char>, p: Seq<char>) -> bool {
    s.len() >= p.len() && s.subrange(0, p.len() as int) == p
}

/// Check whether `s` begins with `p`.
pub fn starts_with(s: &str, p: &str) -> (r: bool)
    ensures
        r == spec_starts_with(s@, p@),
{
    let sn = s.unicode_len();
    let pn = p.unicode_len();
    if sn < pn {
        false
    } else {
        let head = s.substring_char(0, pn);
        crate::vars::str_equal(head, p)
    }
}

/// Joining two different names under one base gives two different paths.
pub proof fn lemma_join_ne(base: Seq<char>, a: Seq<char>, b: Seq<char>)
    requires
        a != b,
    ensures
        ValuePath::spec_join(base, a) != ValuePath::spec_join(base, b),
{
    let ja = ValuePath::spec_join(base, a);
    let jb = ValuePath::spec_join(base, b);
    if ja == jb {
        assert(ja.len() == jb.len());
        assert(ja.len() == base.len() + 1 + a.len());
        assert(jb.len() == base.len() + 1 + b.len());
        assert(a.len() == b.len());
        assert forall|k: int| 0 <= k < a.len() implies a[k] == b[k] by {
            assert(ja[base.len() + 1 + k] == a[k]);
            assert(jb[base.len() + 1 + k] == b[k]);
        }
        assert(a =~= b);
    }
}

/// Nested joins flatten: joining `a`, then `b`, is joining `a/b`.
pub proof fn lemma_join_assoc(base: Seq<char>, a: Seq<char>, b: Seq<char>)
    ensures
        ValuePath::spec_join(ValuePath::spec_join(base, a), b) == ValuePath::spec_join(
            base,
            a + seq!['/'] + b,
        ),
{
    assert(ValuePath::spec_join(ValuePath::spec_join(base, a), b) =~= ValuePath::spec_join(
        base,
        a + seq!['/'] + b,
    ));
}

/// What localization is given to merge scopes with: the operator's global
/// dictionary, which always wins, and whether a name missing from every
/// scope may fall back to the definition's own default.
#[derive(Debug)]
pub struct LocalizeOptions {
    global_dict: ValueDict,
    use_default_value: bool,
}

impl LocalizeOptions {
    pub closed spec fn spec_global(&self) -> Seq<(String, crate::vars::ValueType)> {
        self.global_dict.spec_entries()
    }

    pub closed spec fn spec_use_default(&self) -> bool {
        self.use_default_value
    }

    pub fn new(global_dict: ValueDict, mod_user_value: bool) -> (r: Self)
        ensures
            r.spec_global() == global_dict.spec_entries(),
            r.spec_use_default() == mod_user_value,
    {
        LocalizeOptions { global_dict, use_default_value: mod_user_value }
    }

    pub fn global_value(&self) -> (r: &ValueDict)
        ensures
            r.spec_entries() == self.spec_global(),
    {
        &self.global_dict
    }

    pub fn with_global(self, value: ValueDict) -> (r: Self)
        ensures
            r.spec_global() == value.spec_entries(),
            r.spec_use_default() == self.spec_use_default(),
    {
        LocalizeOptions { global_dict: value, use_default_value: self.use_default_value }
    }

    pub fn use_default_value(&self) -> (r: bool)
        ensures
            r == self.spec_use_default(),
    {
        self.use_default_value
    }

    /// Strict options over an empty global dictionary.
    pub fn for_test() -> (r: Self)
        ensures
            r.spec_global().len() == 0,
            !r.spec_use_default(),
    {
        LocalizeOptions { global_dict: ValueDict::new(), use_default_value: false }
    }

    pub fn duplicate(&self) -> (r: Self)
        ensures
            r.spec_global() == self.spec_global(),
            r.spec_use_default() == self.spec_use_default(),
    {
        LocalizeOptions {
            global_dict: self.global_dict.duplicate(),
            use_default_value: self.use_default_value,
        }
    }
}

/// Records that persist into and out of the workspace store.  The exact
/// file layout each record promises stands on its inherent methods, which
/// these delegate to.
pub trait Persistable<T> {
    fn save_to(
        &self,
        fs: &mut crate::fsmodel::TextFs,
        path: &ValuePath,
        name: Option<String>,
    ) -> crate::error::SpecResult<()>;

    fn load_from(fs: &crate::fsmodel::TextFs, path: &ValuePath) -> crate::error::SpecResult<T>;
}

/// Things a remote reference resolves onto the local disk, under a force
/// policy and a reported cache state; the fetch itself runs outside the
/// verified core.
pub trait AsyncUpdateable {
    fn update_local(
        &self,
        path: &ValuePath,
        options: &crate::update::UpdateOptions,
        cache: &crate::update::CacheState,
    ) -> crate::error::SpecResult<crate::update::ResolveStep>;

    fn update_rename(
        &self,
        path: &ValuePath,
        name: &str,
        options: &crate::update::UpdateOptions,
        cache: &crate::update::CacheState,
    ) -> crate::error::SpecResult<crate::update::ResolveStep>;
}

/// Records that render into a localized output tree.  The exact behavior
/// stands on the inherent `localize` of each record.
pub trait Localizable<T> {
    fn localize(
        &self,
        fs: &mut crate::fsmodel::TextFs,
        options: &LocalizeOptions,
    ) -> crate::error::SpecResult<T>;
}

} // verus!
