//! The port registry: which ports are open, and the handle of each.

use crate::text::same_text;
use vstd::prelude::*;

verus! {

/// One open port: its name and its handle.
struct PortEntry<H> {
    name: String,
    handle: H,
}

/// Whether entry `i` exists and carries `name`.
spec fn named_at<H>(entries: Seq<PortEntry<H>>, i: int, name: Seq<char>) -> bool {
    0 <= i < entries.len() && entries[i].name@ == name
}

/// No two entries carry the same name.
spec fn distinct<H>(entries: Seq<PortEntry<H>>) -> bool {
    forall|i: int, j: int|
        0 <= i < entries.len() && 0 <= j < entries.len() && #[trigger] entries[i].name@
            == #[trigger] entries[j].name@ ==> i == j
}

/// The mapping from name to handle that a list of entries stands for.
spec fn table<H>(entries: Seq<PortEntry<H>>) -> Map<Seq<char>, H> {
    Map::new(
        |name: Seq<char>| exists|i: int| named_at(entries, i, name),
        |name: Seq<char>| entries[choose|i: int| named_at(entries, i, name)].handle,
    )
}

/// With distinct names, the entry that carries a name is the one the table
/// shows for it.
proof fn lemma_table_at<H>(entries: Seq<PortEntry<H>>, i: int, name: Seq<char>)
    requires
        distinct(entries),
        named_at(entries, i, name),
    ensures
        table(entries).contains_key(name),
        table(entries)[name] == entries[i].handle,
{
}

/// Appending an entry with a fresh name inserts it into the table.
proof fn lemma_table_push<H>(entries: Seq<PortEntry<H>>, entry: PortEntry<H>)
    requires
        distinct(entries),
        !table(entries).contains_key(entry.name@),
    ensures
        distinct(entries.push(entry)),
        table(entries.push(entry)) == table(entries).insert(entry.name@, entry.handle),
{
    let longer = entries.push(entry);
    let last = entries.len() as int;
    assert forall|i: int, j: int|
        0 <= i < longer.len() && 0 <= j < longer.len() && #[trigger] longer[i].name@
            == #[trigger] longer[j].name@ implies i == j by {
        if i < last && j == last {
            assert(named_at(entries, i, entry.name@));
        } else if j < last && i == last {
            assert(named_at(entries, j, entry.name@));
        }
    }
    assert forall|name: Seq<char>|
        table(longer).contains_key(name) <==> #[trigger] table(entries).insert(
            entry.name@,
            entry.handle,
        ).contains_key(name) by {
        if table(longer).contains_key(name) {
            let i = choose|i: int| named_at(longer, i, name);
            if i < last {
                assert(named_at(entries, i, name));
            }
        }
        if table(entries).contains_key(name) {
            let i = choose|i: int| named_at(entries, i, name);
            assert(named_at(longer, i, name));
        }
        if name == entry.name@ {
            assert(named_at(longer, last, name));
        }
    }
    assert forall|name: Seq<char>| #[trigger] table(longer).contains_key(name) implies table(
        longer,
    )[name] == table(entries).insert(entry.name@, entry.handle)[name] by {
        let i = choose|i: int| named_at(longer, i, name);
        lemma_table_at(longer, i, name);
        if i < last {
            lemma_table_at(entries, i, name);
        }
    }
}

/// Taking an entry out removes its name from the table.
proof fn lemma_table_remove<H>(entries: Seq<PortEntry<H>>, at: int)
    requires
        distinct(entries),
        0 <= at < entries.len(),
    ensures
        distinct(entries.remove(at)),
        table(entries.remove(at)) == table(entries).remove(entries[at].name@),
{
    let shorter = entries.remove(at);
    let gone = entries[at].name@;
    assert forall|i: int| 0 <= i < shorter.len() implies #[trigger] shorter[i] == entries[if i
        < at {
        i
    } else {
        i + 1
    }] by {}
    assert forall|i: int, j: int|
        0 <= i < shorter.len() && 0 <= j < shorter.len() && #[trigger] shorter[i].name@
            == #[trigger] shorter[j].name@ implies i == j by {}
    assert forall|name: Seq<char>|
        table(shorter).contains_key(name) <==> #[trigger] table(entries).remove(
            gone,
        ).contains_key(name) by {
        if table(shorter).contains_key(name) {
            let i = choose|i: int| named_at(shorter, i, name);
            let before = if i < at {
                i
            } else {
                i + 1
            };
            assert(named_at(entries, before, name));
        }
        if table(entries).contains_key(name) && name != gone {
            let i = choose|i: int| named_at(entries, i, name);
            let after = if i < at {
                i
            } else {
                i - 1
            };
            assert(named_at(shorter, after, name));
        }
    }
    assert forall|name: Seq<char>| #[trigger] table(shorter).contains_key(name) implies table(
        shorter,
    )[name] == table(entries).remove(gone)[name] by {
        let i = choose|i: int| named_at(shorter, i, name);
        let before = if i < at {
            i
        } else {
            i + 1
        };
        lemma_table_at(shorter, i, name);
        lemma_table_at(entries, before, name);
    }
}

/// The table of open ports: each open port's name with its handle.
///
/// A name is in the registry exactly while its port is open, and no name
/// is in it twice. `H` is the handle of an open port; the registry owns the
/// handles and gives one up only through `remove` or `clear`.
pub struct PortRegistry<H> {
    entries: Vec<PortEntry<H>>,
}

impl<H> View for PortRegistry<H> {
    type V = Map<Seq<char>, H>;

    closed spec fn view(&self) -> Map<Seq<char>, H> {
        table(self.entries@)
    }
}

impl<H> PortRegistry<H> {
    #[verifier::type_invariant]
    spec fn names_are_distinct(self) -> bool {
        distinct(self.entries@)
    }

    /// A registry with no open port.
    pub fn new() -> (registry: Self)
        ensures
            registry@ == Map::<Seq<char>, H>::empty(),
    {
        PortRegistry { entries: Vec::new() }
    }

    /// The place of the entry that carries `name`, if there is one.
    fn position(&self, name: &str) -> (found: Option<usize>)
        ensures
            match found {
                Some(i) => named_at(self.entries@, i as int, name@),
                None => !self@.contains_key(name@),
            },
    {
        let mut i: usize = 0;
        while i < self.entries.len()
            invariant
                i <= self.entries.len(),
                forall|k: int| 0 <= k < i ==> !named_at(self.entries@, k, name@),
            decreases self.entries.len() - i,
        {
            if same_text(self.entries[i].name.as_str(), name) {
                return Some(i);
            }
            i += 1;
        }
        None
    }

    /// Whether the port is open.
    pub fn contains(&self, name: &str) -> (present: bool)
        ensures
            present == self@.contains_key(name@),
    {
        proof {
            use_type_invariant(self);
        }
        match self.position(name) {
            Some(i) => {
                proof {
                    lemma_table_at(self.entries@, i as int, name@);
                }
                true
            },
            None => false,
        }
    }

    /// The handle of an open port.
    pub fn get(&self, name: &str) -> (handle: Option<&H>)
        ensures
            match handle {
                Some(handle) => self@.contains_key(name@) && *handle == self@[name@],
                None => !self@.contains_key(name@),
            },
    {
        proof {
            use_type_invariant(self);
        }
        match self.position(name) {
            Some(i) => {
                proof {
                    lemma_table_at(self.entries@, i as int, name@);
                }
                Some(&self.entries[i].handle)
            },
            None => None,
        }
    }

    /// Records an open port. A name that is in the registry already is
    /// refused: the registry stays as it was and the handle comes back.
    pub fn insert(&mut self, name: String, handle: H) -> (refused: Result<(), H>)
        ensures
            match refused {
                Ok(()) => !old(self)@.contains_key(name@) && final(self)@ == old(self)@.insert(
                    name@,
                    handle,
                ),
                Err(returned) => old(self)@.contains_key(name@) && returned == handle
                    && final(self)@ == old(self)@,
            },
    {
        proof {
            use_type_invariant(&*self);
        }
        if self.contains(name.as_str()) {
            return Err(handle);
        }
        let entry = PortEntry { name, handle };
        proof {
            lemma_table_push(self.entries@, entry);
        }
        // The list is changed outside the registry and put back, so that
        // the registry holds a list of distinct names at every step.
        let mut entries: Vec<PortEntry<H>> = Vec::new();
        core::mem::swap(&mut self.entries, &mut entries);
        entries.push(entry);
        self.entries = entries;
        Ok(())
    }

    /// Takes a port out of the registry and hands over its handle; `None`
    /// if the port is not open.
    pub fn remove(&mut self, name: &str) -> (handle: Option<H>)
        ensures
            final(self)@ == old(self)@.remove(name@),
            handle == if old(self)@.contains_key(name@) {
                Some(old(self)@[name@])
            } else {
                None
            },
    {
        proof {
            use_type_invariant(&*self);
        }
        match self.position(name) {
            Some(i) => {
                proof {
                    lemma_table_at(self.entries@, i as int, name@);
                    lemma_table_remove(self.entries@, i as int);
                }
                let mut entries: Vec<PortEntry<H>> = Vec::new();
                core::mem::swap(&mut self.entries, &mut entries);
                let entry = entries.remove(i);
                self.entries = entries;
                Some(entry.handle)
            },
            None => None,
        }
    }

    /// Takes every port out of the registry and drops the handles.
    pub fn clear(&mut self)
        ensures
            final(self)@ == Map::<Seq<char>, H>::empty(),
    {
        self.entries = Vec::new();
    }
}

} // verus!
