//! The class loader: the classes loaded so far, each under the name that it
//! was loaded by.  A class is loaded once; loading a name again gives back
//! the class loaded first.  A class is only taken in after its superclass
//! and its interfaces, so that following superclasses from any class goes
//! to classes loaded earlier and ends.

use internship::IStr;
use vstd::prelude::*;
use crate::class::{Class, SpecClass, names_view, spec_class};
use crate::strings::{istr_as_str, istr_clone, istr_eq, istr_eq_str, istr_new, istr_view};

verus! {

/// A loaded class: the name that it was loaded by, and the class.
pub struct SpecEntry {
    pub key: Seq<char>,
    pub class: SpecClass,
}

/// The index of the first entry loaded under `name`.
pub open spec fn find_key(entries: Seq<SpecEntry>, name: Seq<char>) -> Option<int>
    decreases entries.len(),
{
    if entries.len() == 0 {
        None
    } else {
        match find_key(entries.drop_last(), name) {
            Some(i) => Some(i),
            None => if entries.last().key == name {
                Some(entries.len() - 1)
            } else {
                None
            },
        }
    }
}

/// The first of `names` that no entry is loaded under.
pub open spec fn first_missing(entries: Seq<SpecEntry>, names: Seq<Seq<char>>) -> Option<Seq<char>>
    decreases names.len(),
{
    if names.len() == 0 {
        None
    } else if find_key(entries, names[0]) is None {
        Some(names[0])
    } else {
        first_missing(entries, names.drop_first())
    }
}

/// The first class that must be loaded before `class` can be: its
/// superclass, then its interfaces in order.
pub open spec fn missing_dependency(entries: Seq<SpecEntry>, class: SpecClass) -> Option<Seq<char>> {
    match class.super_class {
        Some(n) => if find_key(entries, n) is None {
            Some(n)
        } else {
            first_missing(entries, class.interfaces)
        },
        None => first_missing(entries, class.interfaces),
    }
}

/// Every entry's superclass is loaded under an earlier entry.
pub open spec fn supers_loaded_earlier(entries: Seq<SpecEntry>) -> bool {
    forall|i: int|
        0 <= i < entries.len() ==> match #[trigger] entries[i].class.super_class {
            Some(n) => find_key(entries, n) matches Some(k) && k < i,
            None => true,
        }
}

/// Whether the class of entry `i` is the class of entry `j` or a subclass
/// of it.
pub open spec fn spec_is_subclass(entries: Seq<SpecEntry>, i: int, j: int) -> bool
    decreases i,
{
    if i == j {
        true
    } else if i < 0 || i >= entries.len() {
        false
    } else {
        match entries[i].class.super_class {
            Some(n) => match find_key(entries, n) {
                Some(k) => if 0 <= k < i {
                    spec_is_subclass(entries, k, j)
                } else {
                    false
                },
                None => false,
            },
            None => false,
        }
    }
}

pub proof fn lemma_find_key(entries: Seq<SpecEntry>, name: Seq<char>)
    ensures
        match find_key(entries, name) {
            Some(i) => 0 <= i < entries.len() && entries[i].key == name && forall|k: int|
                0 <= k < i ==> entries[k].key != name,
            None => forall|k: int| 0 <= k < entries.len() ==> entries[k].key != name,
        },
    decreases entries.len(),
{
    if entries.len() > 0 {
        let d = entries.drop_last();
        lemma_find_key(d, name);
        assert forall|k: int| 0 <= k < d.len() implies d[k] == entries[k] by {}
    }
}

/// Appending a class whose superclass is loaded keeps superclasses loaded
/// earlier.
pub proof fn lemma_push_keeps_order(entries: Seq<SpecEntry>, e: SpecEntry)
    requires
        supers_loaded_earlier(entries),
        match e.class.super_class {
            Some(n) => find_key(entries, n) is Some,
            None => true,
        },
    ensures
        supers_loaded_earlier(entries.push(e)),
{
    let pushed = entries.push(e);
    assert forall|i: int| 0 <= i < pushed.len() implies match #[trigger] pushed[i].class.super_class {
        Some(n) => find_key(pushed, n) matches Some(k) && k < i,
        None => true,
    } by {
        match pushed[i].class.super_class {
            Some(n) => {
                lemma_find_key_push(entries, e, n);
                lemma_find_key(entries, n);
                if i < entries.len() {
                    assert(pushed[i] == entries[i]);
                }
            },
            None => {},
        }
    }
}

pub proof fn lemma_find_key_push(entries: Seq<SpecEntry>, e: SpecEntry, name: Seq<char>)
    ensures
        find_key(entries.push(e), name) == match find_key(entries, name) {
            Some(i) => Some(i),
            None => if e.key == name {
                Some(entries.len() as int)
            } else {
                None
            },
        },
{
    assert(entries.push(e).drop_last() =~= entries);
}

pub enum SpecLoadResult {
    Loaded(int),
    Missing(Seq<char>),
    Invalid,
}

/// Loading `name`, whose class file reads as `parsed`, into `entries`: the
/// outcome and the entries afterwards.
pub open spec fn spec_load(entries: Seq<SpecEntry>, name: Seq<char>, parsed: Option<SpecClass>) -> (SpecLoadResult, Seq<SpecEntry>) {
    match find_key(entries, name) {
        Some(i) => (SpecLoadResult::Loaded(i), entries),
        None => match parsed {
            None => (SpecLoadResult::Invalid, entries),
            Some(c) => match missing_dependency(entries, c) {
                Some(n) => (SpecLoadResult::Missing(n), entries),
                None => (
                    SpecLoadResult::Loaded(entries.len() as int),
                    entries.push(SpecEntry { key: name, class: c }),
                ),
            },
        },
    }
}

/// A class that loads is found under its name afterwards, at the index
/// that the load returned, and holds what its class file reads as; every
/// name found before is found at the same index afterwards.
pub proof fn law_load_then_find(entries: Seq<SpecEntry>, name: Seq<char>, parsed: Option<SpecClass>)
    ensures
        ({
            let (result, after) = spec_load(entries, name, parsed);
            &&& result matches SpecLoadResult::Loaded(i) ==> 0 <= i < after.len() && find_key(
                after,
                name,
            ) == Some(i)
            &&& result matches SpecLoadResult::Loaded(i) ==> (find_key(entries, name) is None
                ==> after[i].class == parsed->0)
            &&& forall|n: Seq<char>| #[trigger]
                find_key(entries, n) is Some ==> find_key(after, n) == find_key(entries, n)
        }),
{
    lemma_find_key(entries, name);
    let (result, after) = spec_load(entries, name, parsed);
    if find_key(entries, name) is None {
        if let Some(c) = parsed {
            if missing_dependency(entries, c) is None {
                let e = SpecEntry { key: name, class: c };
                lemma_find_key_push(entries, e, name);
                assert forall|n: Seq<char>| #[trigger]
                    find_key(entries, n) is Some implies find_key(after, n) == find_key(entries, n) by {
                    lemma_find_key_push(entries, e, n);
                }
            }
        }
    }
}

/// Loading a name that is already loaded changes nothing and returns the
/// index of the class loaded first, whatever the class file holds.
pub proof fn law_load_again(entries: Seq<SpecEntry>, name: Seq<char>, parsed: Option<SpecClass>, again: Option<SpecClass>)
    ensures
        ({
            let (result, after) = spec_load(entries, name, parsed);
            result matches SpecLoadResult::Loaded(i) ==> spec_load(after, name, again) == (
            SpecLoadResult::Loaded(i), after)
        }),
{
    law_load_then_find(entries, name, parsed);
}

/// Loading keeps every superclass loaded before the classes that extend
/// it.
pub proof fn law_load_keeps_order(entries: Seq<SpecEntry>, name: Seq<char>, parsed: Option<SpecClass>)
    requires
        supers_loaded_earlier(entries),
    ensures
        supers_loaded_earlier(spec_load(entries, name, parsed).1),
{
    if find_key(entries, name) is None {
        if let Some(c) = parsed {
            if missing_dependency(entries, c) is None {
                lemma_push_keeps_order(entries, SpecEntry { key: name, class: c });
            }
        }
    }
}

/// A class is a subclass of its superclass and of every class that its
/// superclass is a subclass of, whatever the flags of either: with
/// superclasses loaded first, following the superclass one step keeps the
/// relation.
pub proof fn law_subclass_through_super(entries: Seq<SpecEntry>, i: int, k: int, j: int)
    requires
        supers_loaded_earlier(entries),
        0 <= i < entries.len(),
        entries[i].class.super_class matches Some(n) && find_key(entries, n) == Some(k),
    ensures
        spec_is_subclass(entries, i, k),
        spec_is_subclass(entries, k, j) ==> spec_is_subclass(entries, i, j),
{
    assert(match entries[i].class.super_class {
        Some(n) => find_key(entries, n) matches Some(k) && k < i,
        None => true,
    });
    lemma_find_key(entries, entries[i].class.super_class->0);
    assert(spec_is_subclass(entries, k, k));
}

/// Every class is a subclass of itself.
pub proof fn law_subclass_reflexive(entries: Seq<SpecEntry>, i: int)
    ensures
        spec_is_subclass(entries, i, i),
{
}

/// A subclass of a subclass of a class is a subclass of that class.
pub proof fn law_subclass_transitive(entries: Seq<SpecEntry>, i: int, j: int, k: int)
    requires
        spec_is_subclass(entries, i, j),
        spec_is_subclass(entries, j, k),
    ensures
        spec_is_subclass(entries, i, k),
    decreases i,
{
    if i != j && i != k {
        let n = entries[i].class.super_class->0;
        let m = find_key(entries, n)->0;
        law_subclass_transitive(entries, m, j, k);
    }
}

/// With superclasses loaded first, a proper superclass lies at an earlier
/// index, so two distinct classes are never subclasses of each other.
pub proof fn law_subclass_antisymmetric(entries: Seq<SpecEntry>, i: int, j: int)
    requires
        spec_is_subclass(entries, i, j),
        spec_is_subclass(entries, j, i),
    ensures
        i == j,
{
    lemma_subclass_earlier(entries, i, j);
    lemma_subclass_earlier(entries, j, i);
}

pub proof fn lemma_subclass_earlier(entries: Seq<SpecEntry>, i: int, j: int)
    requires
        spec_is_subclass(entries, i, j),
    ensures
        j <= i,
    decreases i,
{
    if i != j {
        let n = entries[i].class.super_class->0;
        let m = find_key(entries, n)->0;
        lemma_subclass_earlier(entries, m, j);
    }
}

/// The outcome of loading a class.
#[derive(Debug)]
pub enum LoadResult {
    /// The class is loaded, at this index.
    Loaded(usize),
    /// This class must be loaded first.
    Missing(IStr),
    /// The class file is malformed.
    Invalid,
}

impl View for LoadResult {
    type V = SpecLoadResult;

    open spec fn view(&self) -> SpecLoadResult {
        match self {
            LoadResult::Loaded(i) => SpecLoadResult::Loaded(*i as int),
            LoadResult::Missing(n) => SpecLoadResult::Missing(istr_view(*n)),
            LoadResult::Invalid => SpecLoadResult::Invalid,
        }
    }
}


/// What one step of loading a class, and first the classes it needs, came
/// to.
#[derive(Debug)]
pub enum PendingStep {
    /// The class was taken in, or the class it needs was put on the list.
    Progress,
    /// The class needs a class that is already waiting on the list, which
    /// no order of loading can satisfy.
    Cycle(IStr),
    /// The class file is malformed.
    Invalid,
}

/// The classes loaded so far.
#[derive(Debug)]
pub struct ClassLoader {
    keys: Vec<IStr>,
    classes: Vec<Class>,
}

impl View for ClassLoader {
    type V = Seq<SpecEntry>;

    closed spec fn view(&self) -> Seq<SpecEntry> {
        Seq::new(
            self.keys@.len(),
            |i: int| SpecEntry { key: istr_view(self.keys@[i]), class: self.classes@[i]@ },
        )
    }
}

impl ClassLoader {
    /// Well-formed: one class per key, and superclasses loaded first.
    pub closed spec fn wf(&self) -> bool {
        &&& self.keys@.len() == self.classes@.len()
        &&& supers_loaded_earlier(self@)
    }

    pub fn new() -> (r: ClassLoader)
        ensures
            r.wf(),
            r@ == Seq::<SpecEntry>::empty(),
    {
        let r = ClassLoader { keys: Vec::new(), classes: Vec::new() };
        assert(r@ =~= Seq::<SpecEntry>::empty());
        r
    }

    /// The number of classes loaded.
    pub fn len(&self) -> (r: usize)
        requires
            self.wf(),
        ensures
            r == self@.len(),
    {
        self.keys.len()
    }

    /// The index of the class loaded under `name`.
    pub fn find(&self, name: &str) -> (r: Option<usize>)
        requires
            self.wf(),
        ensures
            match r {
                Some(i) => find_key(self@, name@) == Some(i as int),
                None => find_key(self@, name@) is None,
            },
    {
        proof {
            lemma_find_key(self@, name@);
        }
        let mut i: usize = 0;
        while i < self.keys.len()
            invariant
                self.wf(),
                i <= self.keys@.len(),
                forall|k: int| 0 <= k < i ==> self@[k].key != name@,
                match find_key(self@, name@) {
                    Some(j) => 0 <= j < self@.len() && self@[j].key == name@ && forall|k: int|
                        0 <= k < j ==> self@[k].key != name@,
                    None => forall|k: int| 0 <= k < self@.len() ==> self@[k].key != name@,
                },
            decreases self.keys.len() - i,
        {
            if istr_eq_str(&self.keys[i], name) {
                assert(self@[i as int].key == name@);
                return Some(i);
            }
            assert(self@[i as int].key != name@);
            i = i + 1;
        }
        None
    }

    /// The class loaded under `name`, if there is one.
    pub fn get_class(&self, name: &str) -> (r: Option<&Class>)
        requires
            self.wf(),
        ensures
            match r {
                Some(c) => find_key(self@, name@) matches Some(i) && self@[i].class == c@,
                None => find_key(self@, name@) is None,
            },
    {
        proof {
            lemma_find_key(self@, name@);
        }
        match self.find(name) {
            Some(i) => Some(&self.classes[i]),
            None => None,
        }
    }

    /// The class at index `index`.
    pub fn class_at(&self, index: usize) -> (r: &Class)
        requires
            self.wf(),
            index < self@.len(),
        ensures
            r@ == self@[index as int].class,
    {
        &self.classes[index]
    }

    /// The first of `names` that nothing is loaded under.
    fn first_missing_name(&self, names: &[IStr]) -> (r: Option<IStr>)
        requires
            self.wf(),
        ensures
            match r {
                Some(n) => first_missing(self@, crate::class::names_view(names@)) == Some(
                    istr_view(n),
                ),
                None => first_missing(self@, crate::class::names_view(names@)) is None,
            },
    {
        let mut i: usize = 0;
        assert(crate::class::names_view(names@).skip(0) =~= crate::class::names_view(names@));
        while i < names.len()
            invariant
                self.wf(),
                i <= names@.len(),
                first_missing(self@, crate::class::names_view(names@)) == first_missing(
                    self@,
                    crate::class::names_view(names@).skip(i as int),
                ),
            decreases names.len() - i,
        {
            let ghost rest = crate::class::names_view(names@).skip(i as int);
            assert(rest[0] == istr_view(names@[i as int]));
            assert(rest.drop_first() =~= crate::class::names_view(names@).skip(i + 1));
            if self.find(istr_as_str(&names[i])).is_none() {
                return Some(crate::strings::istr_clone(&names[i]));
            }
            i = i + 1;
        }
        assert(crate::class::names_view(names@).skip(i as int).len() == 0);
        None
    }

    /// Loads the class `name` from the bytes of its class file, which must
    /// be a well-formed class file unless `name` is loaded already (see
    /// `try_load_class`). A name that is already loaded gives its class back
    /// and reads nothing; a class whose superclass or one of whose interfaces
    /// is not loaded yet is not taken in, and the first such name is
    /// returned.
    pub fn load_class(&mut self, name: &str, contents: Vec<u8>) -> (r: LoadResult)
        requires
            old(self).wf(),
            find_key(old(self)@, name@) is None ==> spec_class(contents@) is Some,
        ensures
            final(self).wf(),
            (r@, final(self)@) == spec_load(old(self)@, name@, spec_class(contents@)),
            !(r is Invalid),
    {
        self.try_load_class(name, contents)
    }

    /// Loads a class as `load_class` does, answering `Invalid` where the
    /// name is not loaded yet and the bytes are not a well-formed class file.
    pub fn try_load_class(&mut self, name: &str, contents: Vec<u8>) -> (r: LoadResult)
        requires
            old(self).wf(),
        ensures
            final(self).wf(),
            (r@, final(self)@) == spec_load(old(self)@, name@, spec_class(contents@)),
    {
        if let Some(i) = self.find(name) {
            return LoadResult::Loaded(i);
        }
        let class = match Class::try_parse(contents) {
            Some(c) => c,
            None => return LoadResult::Invalid,
        };
        match class.super_class() {
            Some(super_name) => {
                if self.find(super_name).is_none() {
                    return LoadResult::Missing(istr_new(super_name));
                }
            },
            None => {},
        }
        if let Some(n) = self.first_missing_name(class.interfaces()) {
            return LoadResult::Missing(n);
        }
        let ghost old_entries = self@;
        let ghost entry = SpecEntry { key: name@, class: class@ };
        proof {
            lemma_push_keeps_order(old_entries, entry);
        }
        let index = self.keys.len();
        self.keys.push(istr_new(name));
        self.classes.push(class);
        assert(self@ =~= old_entries.push(entry));
        LoadResult::Loaded(index)
    }

    /// Whether `name` is among `names`.
    fn names_contain(names: &Vec<IStr>, name: &IStr) -> (r: bool)
        ensures
            r == names_view(names@).contains(istr_view(*name)),
    {
        let mut i: usize = 0;
        while i < names.len()
            invariant
                i <= names.len(),
                forall|k: int| 0 <= k < i ==> names_view(names@)[k] != istr_view(*name),
            decreases names.len() - i,
        {
            if istr_eq(&names[i], name) {
                assert(names_view(names@)[i as int] == istr_view(*name));
                return true;
            }
            i = i + 1;
        }
        proof {
            if names_view(names@).contains(istr_view(*name)) {
                let k = choose|k: int| 0 <= k < names_view(names@).len() && names_view(names@)[k] == istr_view(*name);
                assert(names_view(names@)[k] != istr_view(*name));
            }
        }
        false
    }

    /// Takes off the end of `pending`, a list of names to load with the
    /// first name wanted last, every name that is loaded already. When the
    /// list runs empty the index of its first name is returned; otherwise
    /// the name left last is not loaded yet, and its class file is wanted.
    pub fn settle(&self, pending: &mut Vec<IStr>) -> (r: Option<usize>)
        requires
            self.wf(),
        ensures
            ({
                let o = names_view(old(pending)@);
                let f = names_view(final(pending)@);
                &&& f.len() <= o.len()
                &&& f == o.take(f.len() as int)
                &&& forall|k: int| f.len() <= k < o.len() ==> #[trigger] find_key(self@, o[k]) is Some
                &&& f.len() > 0 ==> find_key(self@, f.last()) is None
                &&& match r {
                    Some(i) => o.len() > 0 && f.len() == 0 && find_key(self@, o[0]) == Some(i as int),
                    None => f.len() > 0 || o.len() == 0,
                }
            }),
    {
        let ghost o = names_view(pending@);
        let mut last: Option<usize> = None;
        while pending.len() > 0
            invariant
                self.wf(),
                o == names_view(old(pending)@),
                pending.len() <= o.len(),
                names_view(pending@) == o.take(pending.len() as int),
                forall|k: int| pending.len() <= k < o.len() ==> #[trigger] find_key(self@, o[k]) is Some,
                match last {
                    Some(i) => pending.len() < o.len() && find_key(self@, o[pending.len() as int]) == Some(i as int),
                    None => pending.len() == o.len(),
                },
            decreases pending.len(),
        {
            let top = pending.len() - 1;
            assert(names_view(pending@)[top as int] == istr_view(pending@[top as int]));
            match self.find(istr_as_str(&pending[top])) {
                Some(i) => {
                    pending.pop();
                    assert(names_view(pending@) =~= o.take(pending.len() as int));
                    last = Some(i);
                },
                None => {
                    assert(names_view(pending@).last() == names_view(pending@)[top as int]);
                    assert(find_key(self@, names_view(pending@).last()) is None);
                    assert(names_view(pending@).len() == pending.len());
                    return None;
                },
            }
        }
        assert(names_view(pending@) =~= Seq::<Seq<char>>::empty());
        last
    }

    /// Loads the class named last on `pending` from the bytes of its class
    /// file; the list is left as it is, for `settle` to take the name off,
    /// except that when the class needs a class not loaded yet, that name is
    /// put on the list, unless it waits there already.
    pub fn load_pending(&mut self, pending: &mut Vec<IStr>, contents: Vec<u8>) -> (r: PendingStep)
        requires
            old(self).wf(),
            old(pending).len() > 0,
        ensures
            final(self).wf(),
            ({
                let o = names_view(old(pending)@);
                let (result, after) = spec_load(old(self)@, o.last(), spec_class(contents@));
                &&& final(self)@ == after
                &&& match result {
                    SpecLoadResult::Loaded(_) => r is Progress && final(pending)@ == old(pending)@,
                    SpecLoadResult::Missing(n) => if o.contains(n) {
                        r matches PendingStep::Cycle(c) && istr_view(c) == n && final(pending)@ == old(pending)@
                    } else {
                        r is Progress && names_view(final(pending)@) == o.push(n)
                    },
                    SpecLoadResult::Invalid => r is Invalid && final(pending)@ == old(pending)@,
                }
            }),
    {
        let top = pending.len() - 1;
        let name = istr_clone(&pending[top]);
        assert(names_view(pending@).last() == istr_view(name));
        match self.try_load_class(istr_as_str(&name), contents) {
            LoadResult::Loaded(_) => PendingStep::Progress,
            LoadResult::Missing(dependency) => {
                if Self::names_contain(pending, &dependency) {
                    PendingStep::Cycle(dependency)
                } else {
                    pending.push(dependency);
                    assert(names_view(pending@) =~= names_view(old(pending)@).push(istr_view(dependency)));
                    PendingStep::Progress
                }
            },
            LoadResult::Invalid => PendingStep::Invalid,
        }
    }

    /// Whether the class at index `i` is the class at index `j` or one of
    /// its subclasses.
    pub fn is_subclass(&self, i: usize, j: usize) -> (r: bool)
        requires
            self.wf(),
            i < self@.len(),
        ensures
            r == spec_is_subclass(self@, i as int, j as int),
    {
        let mut current: usize = i;
        loop
            invariant
                self.wf(),
                current < self@.len(),
                spec_is_subclass(self@, i as int, j as int) == spec_is_subclass(
                    self@,
                    current as int,
                    j as int,
                ),
            decreases current,
        {
            if current == j {
                return true;
            }
            let ghost entry = self@[current as int];
            assert(entry.class == self.classes@[current as int]@);
            match self.classes[current].super_class() {
                Some(super_name) => {
                    match self.find(super_name) {
                        Some(k) => {
                            assert(supers_loaded_earlier(self@));
                            assert(match self@[current as int].class.super_class {
                                Some(n) => find_key(self@, n) matches Some(k) && k < current,
                                None => true,
                            });
                            current = k;
                        },
                        None => {
                            return false;
                        },
                    }
                },
                None => {
                    return false;
                },
            }
        }
    }
}

} // verus!
