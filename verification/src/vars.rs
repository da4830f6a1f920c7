use vstd::prelude::*;
use vstd::string::StringExecFns;

use crate::error::{ErrorKind, SpecError, SpecResult};
use crate::keyed::{
    keyed_at, keyed_find, keyed_has, keyed_insert, keyed_unique, keyed_write,
    lemma_keyed_first_props, lemma_keyed_insert,
};

verus! {

/// Compare two string slices by their character sequences.
pub fn str_equal(a: &str, b: &str) -> (r: bool)
    ensures
        r == (a@ == b@),
{
    let sa = String::from_str(a);
    let sb = String::from_str(b);
    sa == sb
}

/// The decimal text of a floating-point value, kept verbatim.  The crate
/// never computes with the number itself; whoever needs the numeric value
/// parses this text outside the verified core.
#[derive(Debug)]
pub struct FloatRepr {
    text: String,
}

impl FloatRepr {
    pub closed spec fn spec_text(&self) -> Seq<char> {
        self.text@
    }

    pub fn new(text: String) -> (r: Self)
        ensures
            r.spec_text() == text@,
    {
        FloatRepr { text }
    }

    pub fn text(&self) -> (r: &str)
        ensures
            r@ == self.spec_text(),
    {
        self.text.as_str()
    }

    pub fn duplicate(&self) -> (r: Self)
        ensures
            r == *self,
    {
        let r = FloatRepr { text: self.text.clone() };
        proof {
            assert(r == *self);
        }
        r
    }
}

/// A named variable schema entry: the name plus its default value.
#[derive(Debug)]
pub struct VarDefinition<T> {
    name: String,
    value: T,
}

impl<T> VarDefinition<T> {
    pub closed spec fn spec_name(&self) -> Seq<char> {
        self.name@
    }

    /// The very `String` holding the name, for exact persistence statements.
    pub closed spec fn spec_name_string(&self) -> String {
        self.name
    }

    pub closed spec fn spec_value(&self) -> T {
        self.value
    }

    pub fn new(name: String, value: T) -> (r: Self)
        ensures
            r.spec_name() == name@,
            r.spec_name_string() == name,
            r.spec_value() == value,
    {
        VarDefinition { name, value }
    }

    pub fn name(&self) -> (r: &str)
        ensures
            r@ == self.spec_name(),
    {
        self.name.as_str()
    }

    pub fn value(&self) -> (r: &T)
        ensures
            *r == self.spec_value(),
    {
        &self.value
    }

    fn name_clone(&self) -> (r: String)
        ensures
            r == self.spec_name_string(),
    {
        self.name.clone()
    }
}

/// A bare bound value, the nameless counterpart of a definition.
#[derive(Debug)]
pub struct VarValue<T> {
    value: T,
}

impl<T> VarValue<T> {
    pub closed spec fn spec_value(&self) -> T {
        self.value
    }

    pub fn new(value: T) -> (r: Self)
        ensures
            r.spec_value() == value,
    {
        VarValue { value }
    }

    pub fn value(&self) -> (r: &T)
        ensures
            *r == self.spec_value(),
    {
        &self.value
    }
}

/// A variable definition of one of the four primitive kinds.
#[derive(Debug)]
pub enum VarType {
    Str(VarDefinition<String>),
    Bool(VarDefinition<bool>),
    Int(VarDefinition<u64>),
    Float(VarDefinition<FloatRepr>),
}

/// A bound value of one of the four primitive kinds.
#[derive(Debug)]
pub enum ValueType {
    Str(VarValue<String>),
    Bool(VarValue<bool>),
    Int(VarValue<u64>),
    Float(VarValue<FloatRepr>),
}

impl VarType {
    pub open spec fn spec_name(&self) -> Seq<char> {
        match self {
            VarType::Str(d) => d.spec_name(),
            VarType::Bool(d) => d.spec_name(),
            VarType::Int(d) => d.spec_name(),
            VarType::Float(d) => d.spec_name(),
        }
    }

    pub open spec fn spec_name_string(&self) -> String {
        match self {
            VarType::Str(d) => d.spec_name_string(),
            VarType::Bool(d) => d.spec_name_string(),
            VarType::Int(d) => d.spec_name_string(),
            VarType::Float(d) => d.spec_name_string(),
        }
    }

    /// The default value the definition projects into a dictionary.
    pub closed spec fn spec_value(&self) -> ValueType {
        match self {
            VarType::Str(d) => ValueType::Str(VarValue { value: d.spec_value() }),
            VarType::Bool(d) => ValueType::Bool(VarValue { value: d.spec_value() }),
            VarType::Int(d) => ValueType::Int(VarValue { value: d.spec_value() }),
            VarType::Float(d) => ValueType::Float(VarValue { value: d.spec_value() }),
        }
    }

    pub fn of_str(name: String, value: String) -> (r: Self)
        ensures
            r.spec_name() == name@,
            r.spec_name_string() == name,
            r.spec_value() == ValueType::str_value(value),
    {
        VarType::Str(VarDefinition::new(name, value))
    }

    pub fn of_bool(name: String, value: bool) -> (r: Self)
        ensures
            r.spec_name() == name@,
            r.spec_name_string() == name,
            r.spec_value() == ValueType::bool_value(value),
    {
        VarType::Bool(VarDefinition::new(name, value))
    }

    pub fn of_int(name: String, value: u64) -> (r: Self)
        ensures
            r.spec_name() == name@,
            r.spec_name_string() == name,
            r.spec_value() == ValueType::int_value(value),
    {
        VarType::Int(VarDefinition::new(name, value))
    }

    pub fn of_float(name: String, text: String) -> (r: Self)
        ensures
            r.spec_name() == name@,
            r.spec_name_string() == name,
            r.spec_value().spec_float_text() == Some(text@),
    {
        VarType::Float(VarDefinition::new(name, FloatRepr::new(text)))
    }

    pub fn name(&self) -> (r: &str)
        ensures
            r@ == self.spec_name(),
    {
        match self {
            VarType::Str(d) => d.name(),
            VarType::Bool(d) => d.name(),
            VarType::Int(d) => d.name(),
            VarType::Float(d) => d.name(),
        }
    }

    /// Project the schema entry into its bound default value.
    pub fn var_value(&self) -> (r: ValueType)
        ensures
            r == self.spec_value(),
    {
        match self {
            VarType::Str(d) => ValueType::Str(VarValue::new(d.value().clone())),
            VarType::Bool(d) => ValueType::Bool(VarValue::new(*d.value())),
            VarType::Int(d) => ValueType::Int(VarValue::new(*d.value())),
            VarType::Float(d) => ValueType::Float(VarValue::new(d.value().duplicate())),
        }
    }

    /// The `String` holding the name, duplicated for dictionary keys.
    pub fn name_string(&self) -> (r: String)
        ensures
            r == self.spec_name_string(),
    {
        match self {
            VarType::Str(d) => d.name_clone(),
            VarType::Bool(d) => d.name_clone(),
            VarType::Int(d) => d.name_clone(),
            VarType::Float(d) => d.name_clone(),
        }
    }
}

impl ValueType {
    /// The abstract value of a string-kind entry, `None` for the other kinds.
    pub open spec fn spec_str_value(&self) -> Option<Seq<char>> {
        match self {
            ValueType::Str(v) => Some(v.spec_value()@),
            _ => None,
        }
    }

    pub open spec fn spec_float_text(&self) -> Option<Seq<char>> {
        match self {
            ValueType::Float(v) => Some(v.spec_value().spec_text()),
            _ => None,
        }
    }

    pub closed spec fn str_value(value: String) -> ValueType {
        ValueType::Str(VarValue { value })
    }

    pub closed spec fn bool_value(value: bool) -> ValueType {
        ValueType::Bool(VarValue { value })
    }

    pub closed spec fn int_value(value: u64) -> ValueType {
        ValueType::Int(VarValue { value })
    }

    pub fn of_str(value: String) -> (r: Self)
        ensures
            r == ValueType::str_value(value),
            r.spec_str_value() == Some(value@),
    {
        ValueType::Str(VarValue::new(value))
    }

    pub fn of_bool(value: bool) -> (r: Self)
        ensures
            r == ValueType::bool_value(value),
    {
        ValueType::Bool(VarValue::new(value))
    }

    pub fn of_int(value: u64) -> (r: Self)
        ensures
            r == ValueType::int_value(value),
    {
        ValueType::Int(VarValue::new(value))
    }

    pub fn of_float(text: String) -> (r: Self)
        ensures
            r.spec_float_text() == Some(text@),
    {
        ValueType::Float(VarValue::new(FloatRepr::new(text)))
    }

    pub fn duplicate(&self) -> (r: Self)
        ensures
            r == *self,
    {
        match self {
            ValueType::Str(v) => {
                let r = ValueType::Str(VarValue::new(v.value().clone()));
                proof {
                    assert(r == *self);
                }
                r
            }
            ValueType::Bool(v) => {
                let r = ValueType::Bool(VarValue::new(*v.value()));
                proof {
                    assert(r == *self);
                }
                r
            }
            ValueType::Int(v) => {
                let r = ValueType::Int(VarValue::new(*v.value()));
                proof {
                    assert(r == *self);
                }
                r
            }
            ValueType::Float(v) => {
                let r = ValueType::Float(VarValue::new(v.value().duplicate()));
                proof {
                    assert(r == *self);
                }
                r
            }
        }
    }
}

/// An insertion-ordered mapping from variable names to bound values, keys
/// unique.
#[derive(Debug)]
pub struct ValueDict {
    entries: Vec<(String, ValueType)>,
}

impl ValueDict {
    #[verifier::type_invariant]
    spec fn inv(self) -> bool {
        keyed_unique(self.entries@)
    }

    pub closed spec fn spec_entries(&self) -> Seq<(String, ValueType)> {
        self.entries@
    }

    pub open spec fn spec_has(&self, k: Seq<char>) -> bool {
        keyed_has(self.spec_entries(), k)
    }

    pub open spec fn spec_get(&self, k: Seq<char>) -> ValueType {
        keyed_at(self.spec_entries(), k)
    }

    pub fn new() -> (r: Self)
        ensures
            r.spec_entries() == Seq::<(String, ValueType)>::empty(),
    {
        ValueDict { entries: Vec::new() }
    }

    pub fn len(&self) -> (r: usize)
        ensures
            r == self.spec_entries().len(),
    {
        self.entries.len()
    }

    /// Bind a name: an existing binding is overwritten in place, a new name
    /// is appended, so insertion order is preserved.
    pub fn insert(&mut self, key: String, value: ValueType)
        ensures
            final(self).spec_entries() == keyed_insert(old(self).spec_entries(), key, value),
            final(self).spec_has(key@),
            final(self).spec_get(key@) == value,
            forall|k2: Seq<char>|
                k2 != key@ ==> final(self).spec_has(k2) == old(self).spec_has(k2),
            forall|k2: Seq<char>|
                k2 != key@ && old(self).spec_has(k2) ==> final(self).spec_get(k2) == old(
                    self,
                ).spec_get(k2),
    {
        proof {
            use_type_invariant(&*self);
            lemma_keyed_insert(self.entries@, key, value);
        }
        let mut entries: Vec<(String, ValueType)> = Vec::new();
        std::mem::swap(&mut entries, &mut self.entries);
        keyed_write(&mut entries, key, value);
        self.entries = entries;
    }

    pub fn get(&self, key: &str) -> (r: Option<&ValueType>)
        ensures
            match r {
                Some(v) => self.spec_has(key@) && *v == self.spec_get(key@),
                None => !self.spec_has(key@),
            },
    {
        match keyed_find(&self.entries, key) {
            Some(i) => {
                proof {
                    lemma_keyed_first_props(self.entries@, key@);
                }
                Some(&self.entries[i].1)
            }
            None => None,
        }
    }

    pub fn contains_key(&self, key: &str) -> (r: bool)
        ensures
            r == self.spec_has(key@),
    {
        match keyed_find(&self.entries, key) {
            Some(_) => true,
            None => false,
        }
    }

    pub fn key_at(&self, i: usize) -> (r: &str)
        requires
            i < self.spec_entries().len(),
        ensures
            r@ == self.spec_entries()[i as int].0@,
    {
        self.entries[i].0.as_str()
    }

    pub fn value_at(&self, i: usize) -> (r: &ValueType)
        requires
            i < self.spec_entries().len(),
        ensures
            *r == self.spec_entries()[i as int].1,
    {
        &self.entries[i].1
    }

    /// A value-for-value copy with the same names in the same order.
    pub fn duplicate(&self) -> (r: Self)
        ensures
            r.spec_entries() == self.spec_entries(),
    {
        proof {
            use_type_invariant(&*self);
        }
        let n = self.entries.len();
        let mut out: Vec<(String, ValueType)> = Vec::new();
        let mut i: usize = 0;
        while i < n
            invariant
                0 <= i <= n,
                n == self.entries@.len(),
                out@.len() == i,
                forall|j: int| 0 <= j < i ==> out@[j] == self.entries@[j],
            decreases n - i,
        {
            let key = self.entries[i].0.clone();
            let value = self.entries[i].1.duplicate();
            out.push((key, value));
            i += 1;
        }
        let r = ValueDict { entries: out };
        proof {
            assert(r.entries@ =~= self.entries@);
        }
        r
    }
}

/// A mapping from environment-variable names to their textual values.  It
/// stands in for the process environment: whoever runs the pipeline reads
/// the real environment and hands it over as plain values.
#[derive(Debug)]
pub struct EnvDict {
    entries: Vec<(String, String)>,
}

impl EnvDict {
    #[verifier::type_invariant]
    spec fn inv(self) -> bool {
        keyed_unique(self.entries@)
    }

    pub closed spec fn spec_entries(&self) -> Seq<(String, String)> {
        self.entries@
    }

    pub open spec fn spec_has(&self, k: Seq<char>) -> bool {
        keyed_has(self.spec_entries(), k)
    }

    pub open spec fn spec_get(&self, k: Seq<char>) -> Seq<char> {
        keyed_at(self.spec_entries(), k)@
    }

    pub fn new() -> (r: Self)
        ensures
            r.spec_entries() == Seq::<(String, String)>::empty(),
    {
        EnvDict { entries: Vec::new() }
    }

    pub fn set(&mut self, key: String, value: String)
        ensures
            final(self).spec_entries() == keyed_insert(old(self).spec_entries(), key, value),
            final(self).spec_has(key@),
            final(self).spec_get(key@) == value@,
            forall|k2: Seq<char>|
                k2 != key@ ==> final(self).spec_has(k2) == old(self).spec_has(k2),
            forall|k2: Seq<char>|
                k2 != key@ && old(self).spec_has(k2) ==> final(self).spec_get(k2) == old(
                    self,
                ).spec_get(k2),
    {
        proof {
            use_type_invariant(&*self);
            lemma_keyed_insert(self.entries@, key, value);
        }
        let mut entries: Vec<(String, String)> = Vec::new();
        std::mem::swap(&mut entries, &mut self.entries);
        keyed_write(&mut entries, key, value);
        self.entries = entries;
    }

    pub fn get(&self, key: &str) -> (r: Option<&str>)
        ensures
            match r {
                Some(v) => self.spec_has(key@) && v@ == self.spec_get(key@),
                None => !self.spec_has(key@),
            },
    {
        match keyed_find(&self.entries, key) {
            Some(i) => {
                proof {
                    lemma_keyed_first_props(self.entries@, key@);
                }
                Some(self.entries[i].1.as_str())
            }
            None => None,
        }
    }
}

/// Whether some definition in the sequence carries this name.
pub open spec fn vars_contain_name(s: Seq<VarType>, n: Seq<char>) -> bool {
    exists|j: int| 0 <= j < s.len() && s[j].spec_name() == n
}

/// What `VarCollection::define` keeps: of entries sharing a name, the first.
pub open spec fn spec_dedup_vars(s: Seq<VarType>) -> Seq<VarType>
    decreases s.len(),
{
    if s.len() == 0 {
        Seq::empty()
    } else {
        let q = spec_dedup_vars(s.drop_last());
        if vars_contain_name(q, s.last().spec_name()) {
            q
        } else {
            q.push(s.last())
        }
    }
}

/// An insertion-ordered collection of variable definitions, names unique.
#[derive(Debug)]
pub struct VarCollection {
    vars: Vec<VarType>,
}

impl VarCollection {
    #[verifier::type_invariant]
    spec fn inv(self) -> bool {
        forall|i: int, j: int|
            0 <= i < j < self.vars@.len() ==> self.vars@[i].spec_name() != self.vars@[j].spec_name()
    }

    pub closed spec fn spec_vars(&self) -> Seq<VarType> {
        self.vars@
    }

    pub open spec fn spec_names_unique(s: Seq<VarType>) -> bool {
        forall|i: int, j: int| 0 <= i < j < s.len() ==> s[i].spec_name() != s[j].spec_name()
    }

    /// Build a collection from a list of definitions.  Of two definitions
    /// with the same name the first stays, later ones are dropped.
    pub fn define(list: Vec<VarType>) -> (r: Self)
        ensures
            r.spec_vars() == spec_dedup_vars(list@),
            Self::spec_names_unique(r.spec_vars()),
    {
        let n = list.len();
        let mut kept: Vec<VarType> = Vec::new();
        let mut i: usize = 0;
        while i < n
            invariant
                0 <= i <= n,
                n == list@.len(),
                kept@ == spec_dedup_vars(list@.take(i as int)),
                Self::spec_names_unique(kept@),
            decreases n - i,
        {
            let name_known = Self::names_contain(&kept, list[i].name());
            proof {
                assert(list@.take(i + 1).drop_last() =~= list@.take(i as int));
                assert(list@.take(i + 1).last() == list@[i as int]);
            }
            if !name_known {
                let item = Self::duplicate_var(&list, i);
                kept.push(item);
            }
            i += 1;
        }
        proof {
            assert(list@.take(n as int) =~= list@);
        }
        VarCollection { vars: kept }
    }

    fn duplicate_var(list: &Vec<VarType>, i: usize) -> (r: VarType)
        requires
            i < list@.len(),
        ensures
            r == list@[i as int],
    {
        let item: &VarType = &list[i];
        match item {
            VarType::Str(d) => {
                let r = VarType::Str(VarDefinition::new(d.name_clone(), d.value().clone()));
                proof {
                    assert(r == list@[i as int]);
                }
                r
            }
            VarType::Bool(d) => {
                let r = VarType::Bool(VarDefinition::new(d.name_clone(), *d.value()));
                proof {
                    assert(r == list@[i as int]);
                }
                r
            }
            VarType::Int(d) => {
                let r = VarType::Int(VarDefinition::new(d.name_clone(), *d.value()));
                proof {
                    assert(r == list@[i as int]);
                }
                r
            }
            VarType::Float(d) => {
                let r = VarType::Float(VarDefinition::new(d.name_clone(), d.value().duplicate()));
                proof {
                    assert(r == list@[i as int]);
                }
                r
            }
        }
    }

    fn names_contain(kept: &Vec<VarType>, name: &str) -> (r: bool)
        ensures
            r == vars_contain_name(kept@, name@),
    {
        let n = kept.len();
        let mut i: usize = 0;
        while i < n
            invariant
                0 <= i <= n,
                n == kept@.len(),
                forall|j: int| 0 <= j < i ==> kept@[j].spec_name() != name@,
            decreases n - i,
        {
            if str_equal(kept[i].name(), name) {
                return true;
            }
            i += 1;
        }
        false
    }

    pub fn len(&self) -> (r: usize)
        ensures
            r == self.spec_vars().len(),
    {
        self.vars.len()
    }

    pub fn var_at(&self, i: usize) -> (r: &VarType)
        requires
            i < self.spec_vars().len(),
        ensures
            *r == self.spec_vars()[i as int],
    {
        &self.vars[i]
    }

    /// A value-for-value copy.
    pub fn duplicate(&self) -> (r: Self)
        ensures
            r.spec_vars() == self.spec_vars(),
    {
        proof {
            use_type_invariant(&*self);
        }
        let n = self.vars.len();
        let mut out: Vec<VarType> = Vec::new();
        let mut i: usize = 0;
        while i < n
            invariant
                0 <= i <= n,
                n == self.vars@.len(),
                out@.len() == i,
                forall|j: int| 0 <= j < i ==> out@[j] == self.vars@[j],
            decreases n - i,
        {
            let item = Self::duplicate_var(&self.vars, i);
            out.push(item);
            i += 1;
        }
        let r = VarCollection { vars: out };
        proof {
            assert(r.vars@ =~= self.vars@);
        }
        r
    }

    /// Project every definition's default into a dictionary, keeping order.
    pub fn value_dict(&self) -> (r: ValueDict)
        ensures
            r.spec_entries() == Seq::new(
                self.spec_vars().len(),
                |i: int| (self.spec_vars()[i].spec_name_string(), self.spec_vars()[i].spec_value()),
            ),
    {
        proof {
            use_type_invariant(&*self);
        }
        let n = self.vars.len();
        let mut out: Vec<(String, ValueType)> = Vec::new();
        let mut i: usize = 0;
        while i < n
            invariant
                0 <= i <= n,
                n == self.vars@.len(),
                out@.len() == i,
                forall|j: int|
                    0 <= j < i ==> out@[j] == (
                    self.vars@[j].spec_name_string(),
                    self.vars@[j].spec_value(),
                ),
                forall|i2: int, j2: int|
                    0 <= i2 < j2 < self.vars@.len() ==> self.vars@[i2].spec_name()
                        != self.vars@[j2].spec_name(),
            decreases n - i,
        {
            let key = self.vars[i].name_string();
            let value = self.vars[i].var_value();
            out.push((key, value));
            i += 1;
        }
        let r = ValueDict { entries: out };
        proof {
            assert forall|i2: int, j2: int|
                0 <= i2 < j2 < r.entries@.len() implies r.entries@[i2].0@ != r.entries@[j2].0@ by {
                assert(r.entries@[i2].0 == self.vars@[i2].spec_name_string());
                assert(r.entries@[j2].0 == self.vars@[j2].spec_name_string());
                assert(self.vars@[i2].spec_name() != self.vars@[j2].spec_name());
            }
            assert(r.entries@ =~= Seq::new(
                self.vars@.len(),
                |i: int| (self.vars@[i].spec_name_string(), self.vars@[i].spec_value()),
            ));
        }
        r
    }
}

/// The decimal digit character for one value below ten.
pub open spec fn dec_digit(d: nat) -> char {
    if d == 0 {
        '0'
    } else if d == 1 {
        '1'
    } else if d == 2 {
        '2'
    } else if d == 3 {
        '3'
    } else if d == 4 {
        '4'
    } else if d == 5 {
        '5'
    } else if d == 6 {
        '6'
    } else if d == 7 {
        '7'
    } else if d == 8 {
        '8'
    } else {
        '9'
    }
}

/// The decimal text of a number, most significant digit first.
pub open spec fn spec_dec(n: nat) -> Seq<char>
    decreases n,
{
    if n < 10 {
        seq![dec_digit(n)]
    } else {
        spec_dec(n / 10).push(dec_digit(n % 10))
    }
}

fn digit_str(d: u64) -> (r: &'static str)
    requires
        d < 10,
    ensures
        r@ == seq![dec_digit(d as nat)],
{
    proof {
        reveal_strlit("0");
        reveal_strlit("1");
        reveal_strlit("2");
        reveal_strlit("3");
        reveal_strlit("4");
        reveal_strlit("5");
        reveal_strlit("6");
        reveal_strlit("7");
        reveal_strlit("8");
        reveal_strlit("9");
    }
    if d == 0 {
        "0"
    } else if d == 1 {
        "1"
    } else if d == 2 {
        "2"
    } else if d == 3 {
        "3"
    } else if d == 4 {
        "4"
    } else if d == 5 {
        "5"
    } else if d == 6 {
        "6"
    } else if d == 7 {
        "7"
    } else if d == 8 {
        "8"
    } else {
        "9"
    }
}

/// Render a number in decimal.
pub fn u64_to_text(n: u64) -> (r: String)
    ensures
        r@ == spec_dec(n as nat),
    decreases n,
{
    if n < 10 {
        String::from_str(digit_str(n))
    } else {
        let mut s = u64_to_text(n / 10);
        s.append(digit_str(n % 10));
        proof {
            assert(s@ =~= spec_dec(n as nat));
        }
        s
    }
}

impl ValueType {
    /// The textual rendering of the value: the string itself, `true` or
    /// `false`, the decimal digits, or the kept float text.
    pub open spec fn spec_text(&self) -> Seq<char> {
        match self {
            ValueType::Str(v) => v.spec_value()@,
            ValueType::Bool(v) => if v.spec_value() {
                "true"@
            } else {
                "false"@
            },
            ValueType::Int(v) => spec_dec(v.spec_value() as nat),
            ValueType::Float(v) => v.spec_value().spec_text(),
        }
    }

    pub fn to_text(&self) -> (r: String)
        ensures
            r@ == self.spec_text(),
    {
        match self {
            ValueType::Str(v) => v.value().clone(),
            ValueType::Bool(v) => {
                if *v.value() {
                    String::from_str("true")
                } else {
                    String::from_str("false")
                }
            }
            ValueType::Int(v) => u64_to_text(*v.value()),
            ValueType::Float(v) => String::from_str(v.value().text()),
        }
    }
}

/// One dictionary overridden by another: every name keeps its place and
/// takes the global value when the global dictionary defines it.
pub open spec fn spec_overridden(
    value: Seq<(String, ValueType)>,
    global: Seq<(String, ValueType)>,
) -> Seq<(String, ValueType)> {
    Seq::new(
        value.len(),
        |i: int|
            (
                value[i].0,
                if keyed_has(global, value[i].0@) {
                    keyed_at(global, value[i].0@)
                } else {
                    value[i].1
                },
            ),
    )
}

impl ValueDict {
    /// This dictionary with the global dictionary's values winning for the
    /// names it defines; names and order stay as they are.
    pub fn overridden_by(&self, global: &ValueDict) -> (r: ValueDict)
        ensures
            r.spec_entries() == spec_overridden(self.spec_entries(), global.spec_entries()),
    {
        proof {
            use_type_invariant(&*self);
        }
        let n = self.entries.len();
        let mut out: Vec<(String, ValueType)> = Vec::new();
        let mut i: usize = 0;
        while i < n
            invariant
                0 <= i <= n,
                n == self.entries@.len(),
                out@.len() == i,
                forall|j: int|
                    0 <= j < i ==> out@[j] == spec_overridden(
                        self.entries@,
                        global.spec_entries(),
                    )[j],
                keyed_unique(self.entries@),
            decreases n - i,
        {
            let key = self.entries[i].0.clone();
            let value = match global.get(key.as_str()) {
                Some(v) => v.duplicate(),
                None => self.entries[i].1.duplicate(),
            };
            out.push((key, value));
            i += 1;
        }
        let r = ValueDict { entries: out };
        proof {
            assert forall|i2: int, j2: int|
                0 <= i2 < j2 < r.entries@.len() implies r.entries@[i2].0@ != r.entries@[j2].0@ by {
                assert(r.entries@[i2].0 == self.entries@[i2].0);
                assert(r.entries@[j2].0 == self.entries@[j2].0);
            }
            assert(r.entries@ =~= spec_overridden(self.entries@, global.spec_entries()));
        }
        r
    }
}

/// The value the scope merge binds to one definition, when it finds one:
/// the global dictionary always wins; otherwise the inherited scope.
pub open spec fn spec_merged_value(
    def: VarType,
    global: Seq<(String, ValueType)>,
    inherited: Seq<(String, ValueType)>,
) -> Option<ValueType> {
    if keyed_has(global, def.spec_name()) {
        Some(keyed_at(global, def.spec_name()))
    } else if keyed_has(inherited, def.spec_name()) {
        Some(keyed_at(inherited, def.spec_name()))
    } else {
        None
    }
}

/// Merge variable scopes for localization, one entry per definition, in
/// definition order.  A name the global dictionary defines always takes the
/// global value; otherwise the inherited scope is consulted; otherwise the
/// definition's own default is used when `use_default` allows it, and the
/// merge fails with a missing-variable error when it does not.
pub fn merge_scope(
    defs: &VarCollection,
    global: &ValueDict,
    inherited: &ValueDict,
    use_default: bool,
) -> (r: SpecResult<ValueDict>)
    ensures
        r is Ok <==> (use_default || forall|i: int|
            0 <= i < defs.spec_vars().len() ==> spec_merged_value(
                defs.spec_vars()[i],
                global.spec_entries(),
                inherited.spec_entries(),
            ) is Some),
        r matches Ok(d) ==> d.spec_entries() == Seq::new(
            defs.spec_vars().len(),
            |i: int|
                (
                    defs.spec_vars()[i].spec_name_string(),
                    match spec_merged_value(
                        defs.spec_vars()[i],
                        global.spec_entries(),
                        inherited.spec_entries(),
                    ) {
                        Some(v) => v,
                        None => defs.spec_vars()[i].spec_value(),
                    },
                ),
        ),
        r matches Err(e) ==> e.spec_kind() == ErrorKind::MissingVariable,
{
    proof {
        use_type_invariant(&*defs);
    }
    let n = defs.len();
    let mut out: Vec<(String, ValueType)> = Vec::new();
    let mut i: usize = 0;
    while i < n
        invariant
            0 <= i <= n,
            n == defs.spec_vars().len(),
            out@.len() == i,
            forall|j: int|
                0 <= j < i ==> out@[j] == (
                defs.spec_vars()[j].spec_name_string(),
                match spec_merged_value(
                    defs.spec_vars()[j],
                    global.spec_entries(),
                    inherited.spec_entries(),
                ) {
                    Some(v) => v,
                    None => defs.spec_vars()[j].spec_value(),
                },
            ),
            use_default || forall|j: int|
                0 <= j < i ==> spec_merged_value(
                    defs.spec_vars()[j],
                    global.spec_entries(),
                    inherited.spec_entries(),
                ) is Some,
            forall|i2: int, j2: int|
                0 <= i2 < j2 < defs.spec_vars().len() ==> defs.spec_vars()[i2].spec_name()
                    != defs.spec_vars()[j2].spec_name(),
        decreases n - i,
    {
        let def = defs.var_at(i);
        let name = def.name();
        let value: ValueType = match global.get(name) {
            Some(v) => v.duplicate(),
            None => match inherited.get(name) {
                Some(v) => v.duplicate(),
                None => {
                    if use_default {
                        def.var_value()
                    } else {
                        let msg = String::from_str(name);
                        return Err(SpecError::new(ErrorKind::MissingVariable).with_context(msg));
                    }
                }
            },
        };
        let key = def.name_string();
        out.push((key, value));
        i += 1;
    }
    let r = ValueDict { entries: out };
    proof {
        assert forall|i2: int, j2: int|
            0 <= i2 < j2 < r.entries@.len() implies r.entries@[i2].0@ != r.entries@[j2].0@ by {
            assert(r.entries@[i2].0 == defs.spec_vars()[i2].spec_name_string());
            assert(r.entries@[j2].0 == defs.spec_vars()[j2].spec_name_string());
        }
        assert(r.entries@ =~= Seq::new(
            defs.spec_vars().len(),
            |i: int|
                (
                    defs.spec_vars()[i].spec_name_string(),
                    match spec_merged_value(
                        defs.spec_vars()[i],
                        global.spec_entries(),
                        inherited.spec_entries(),
                    ) {
                        Some(v) => v,
                        None => defs.spec_vars()[i].spec_value(),
                    },
                ),
        ));
    }
    Ok(r)
}

} // verus!
