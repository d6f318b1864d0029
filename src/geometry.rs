//! Geometry records of named windows: the size a window had when it was
//! last resized, kept under the window's logical name.
use vstd::prelude::*;

verus! {

/// The width and height of a window.
#[derive(Clone, Copy, Debug, PartialEq, Eq, Structural)]
pub struct Size {
    pub width: u32,
    pub height: u32,
}

/// The size recorded for one named window.
#[derive(Clone, Debug)]
pub struct GeometryRecord {
    pub name: String,
    pub size: Size,
}

/// The size recorded under `name`: the first record that carries the name.
pub open spec fn lookup(records: Seq<GeometryRecord>, name: Seq<char>) -> Option<Size>
    decreases records.len(),
{
    if records.len() == 0 {
        None
    } else if records[0].name@ == name {
        Some(records[0].size)
    } else {
        lookup(records.drop_first(), name)
    }
}

/// The size a window named `name` opens with: the recorded one, else the
/// default.
pub open spec fn restored(records: Seq<GeometryRecord>, name: Seq<char>, default: Size) -> Size {
    match lookup(records, name) {
        Some(s) => s,
        None => default,
    }
}

/// The records of the named windows, one per name.
#[derive(Clone, Debug)]
pub struct GeometryStore {
    pub records: Vec<GeometryRecord>,
}

proof fn lemma_lookup_absent(records: Seq<GeometryRecord>, name: Seq<char>)
    requires
        forall|j: int| 0 <= j < records.len() ==> (#[trigger] records[j]).name@ != name,
    ensures
        lookup(records, name) == None::<Size>,
    decreases records.len(),
{
    if records.len() > 0 {
        assert(records[0].name@ != name);
        assert forall|j: int| 0 <= j < records.len() - 1 implies (
        #[trigger] records.drop_first()[j]).name@ != name by {
            assert(records.drop_first()[j] == records[j + 1]);
        }
        lemma_lookup_absent(records.drop_first(), name);
    }
}

proof fn lemma_lookup_first(records: Seq<GeometryRecord>, i: int, name: Seq<char>)
    requires
        0 <= i < records.len(),
        records[i].name@ == name,
        forall|j: int| 0 <= j < i ==> (#[trigger] records[j]).name@ != name,
    ensures
        lookup(records, name) == Some(records[i].size),
    decreases i,
{
    if i > 0 {
        assert(records[0].name@ != name);
        assert forall|j: int| 0 <= j < i - 1 implies (
        #[trigger] records.drop_first()[j]).name@ != name by {
            assert(records.drop_first()[j] == records[j + 1]);
        }
        lemma_lookup_first(records.drop_first(), i - 1, name);
    }
}

proof fn lemma_lookup_update(
    records: Seq<GeometryRecord>,
    i: int,
    r: GeometryRecord,
    name: Seq<char>,
)
    requires
        0 <= i < records.len(),
        records[i].name@ == r.name@,
        forall|j: int| 0 <= j < i ==> (#[trigger] records[j]).name@ != r.name@,
    ensures
        lookup(records.update(i, r), name) == if name == r.name@ {
            Some(r.size)
        } else {
            lookup(records, name)
        },
    decreases i,
{
    let u = records.update(i, r);
    if i > 0 {
        assert(records[0].name@ != r.name@);
        assert(u.drop_first() =~= records.drop_first().update(i - 1, r));
        assert forall|j: int| 0 <= j < i - 1 implies (
        #[trigger] records.drop_first()[j]).name@ != r.name@ by {
            assert(records.drop_first()[j] == records[j + 1]);
        }
        lemma_lookup_update(records.drop_first(), i - 1, r, name);
    } else {
        assert(u.drop_first() =~= records.drop_first());
    }
}

proof fn lemma_lookup_push(records: Seq<GeometryRecord>, r: GeometryRecord, name: Seq<char>)
    requires
        forall|j: int| 0 <= j < records.len() ==> (#[trigger] records[j]).name@ != r.name@,
    ensures
        lookup(records.push(r), name) == if name == r.name@ {
            Some(r.size)
        } else {
            lookup(records, name)
        },
    decreases records.len(),
{
    let p = records.push(r);
    if records.len() == 0 {
        assert(p.drop_first() =~= Seq::<GeometryRecord>::empty());
    } else {
        assert(records[0].name@ != r.name@);
        assert(p.drop_first() =~= records.drop_first().push(r));
        assert forall|j: int| 0 <= j < records.len() - 1 implies (
        #[trigger] records.drop_first()[j]).name@ != r.name@ by {
            assert(records.drop_first()[j] == records[j + 1]);
        }
        lemma_lookup_push(records.drop_first(), r, name);
    }
}

impl GeometryStore {
    /// A store that holds no record.
    pub fn new() -> (st: GeometryStore)
        ensures
            st.records@.len() == 0,
            forall|name: Seq<char>| lookup(st.records@, name) == None::<Size>,
    {
        GeometryStore { records: Vec::new() }
    }

    /// The index of the first record named `name`, if there is one.
    fn position(&self, name: &String) -> (r: Option<usize>)
        ensures
            match r {
                Some(i) => {
                    &&& i < self.records@.len()
                    &&& self.records@[i as int].name@ == name@
                    &&& forall|j: int| 0 <= j < i ==> (#[trigger] self.records@[j]).name@ != name@
                },
                None => forall|j: int|
                    0 <= j < self.records@.len() ==> (#[trigger] self.records@[j]).name@ != name@,
            },
    {
        let mut i: usize = 0;
        while i < self.records.len()
            invariant
                i <= self.records@.len(),
                forall|j: int| 0 <= j < i ==> (#[trigger] self.records@[j]).name@ != name@,
            decreases self.records@.len() - i,
        {
            if self.records[i].name == *name {
                return Some(i);
            }
            i = i + 1;
        }
        None
    }

    /// The size recorded for the window `name`, or `default` when there is
    /// no record of it.
    pub fn restore_or_default(&self, name: &String, default: Size) -> (s: Size)
        ensures
            s == restored(self.records@, name@, default),
    {
        match self.position(name) {
            Some(i) => {
                proof {
                    lemma_lookup_first(self.records@, i as int, name@);
                }
                self.records[i].size
            },
            None => {
                proof {
                    lemma_lookup_absent(self.records@, name@);
                }
                default
            },
        }
    }

    /// Records that the window `name` now has the size `size`; the records
    /// of the other windows stay as they were.
    pub fn persist_on_change(&mut self, name: &String, size: Size)
        ensures
            lookup(final(self).records@, name@) == Some(size),
            forall|other: Seq<char>|
                other != name@ ==> lookup(final(self).records@, other) == lookup(
                    old(self).records@,
                    other,
                ),
    {
        let r = GeometryRecord { name: name.clone(), size };
        match self.position(name) {
            Some(i) => {
                proof {
                    assert forall|other: Seq<char>|
                        lookup(self.records@.update(i as int, r), other) == if other == r.name@ {
                            Some(r.size)
                        } else {
                            lookup(self.records@, other)
                        } by {
                        lemma_lookup_update(self.records@, i as int, r, other);
                    }
                }
                self.records.set(i, r);
            },
            None => {
                proof {
                    assert forall|other: Seq<char>|
                        lookup(self.records@.push(r), other) == if other == r.name@ {
                            Some(r.size)
                        } else {
                            lookup(self.records@, other)
                        } by {
                        lemma_lookup_push(self.records@, r, other);
                    }
                }
                self.records.push(r);
            },
        }
    }
}

/// A record once written is what the next restore of that window gives,
/// whatever the default; writing one window's record leaves what every
/// other window restores unchanged.
pub proof fn lemma_persist_then_restore(
    before: Seq<GeometryRecord>,
    after: Seq<GeometryRecord>,
    name: Seq<char>,
    size: Size,
)
    requires
        lookup(after, name) == Some(size),
        forall|other: Seq<char>| other != name ==> lookup(after, other) == lookup(before, other),
    ensures
        forall|default: Size| restored(after, name, default) == size,
        forall|other: Seq<char>, default: Size|
            other != name ==> restored(after, other, default) == restored(before, other, default),
{
}

} // verus!
