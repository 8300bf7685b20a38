//! Bind group layouts as the stage validator sees them: supplied by the
//! caller, or derived from the shaders as the stages are checked.

use vstd::prelude::*;
use crate::binding::{BindGroupLayoutEntry, ResourceBinding};

verus! {

/// Device limits that shader validation depends on.
#[derive(Clone, Copy, Debug, PartialEq, Eq, Structural)]
pub struct Limits {
    pub max_bind_groups: u32,
    pub max_compute_workgroup_size_x: u32,
    pub max_compute_workgroup_size_y: u32,
    pub max_compute_workgroup_size_z: u32,
    pub max_compute_invocations_per_workgroup: u32,
    pub max_inter_stage_shader_components: u32,
}

/// The index of the entry for `binding`; where several entries have that
/// binding number, the last one counts.
pub open spec fn entry_index(s: Seq<BindGroupLayoutEntry>, binding: u32) -> Option<int>
    decreases s.len(),
{
    if s.len() == 0 {
        None
    } else if s.last().binding == binding {
        Some(s.len() - 1)
    } else {
        entry_index(s.drop_last(), binding)
    }
}

/// A found entry is in range and has the binding number looked for.
pub proof fn lemma_entry_index_bounds(s: Seq<BindGroupLayoutEntry>, binding: u32)
    ensures
        entry_index(s, binding) matches Some(i) ==> 0 <= i < s.len() && s[i].binding == binding,
    decreases s.len(),
{
    if s.len() > 0 && s.last().binding != binding {
        lemma_entry_index_bounds(s.drop_last(), binding);
    }
}

/// Replacing an entry by one with the same binding number moves no entry
/// index.
pub proof fn lemma_entry_index_update(
    s: Seq<BindGroupLayoutEntry>,
    i: int,
    e: BindGroupLayoutEntry,
    binding: u32,
)
    requires
        0 <= i < s.len(),
        e.binding == s[i].binding,
    ensures
        entry_index(s.update(i, e), binding) == entry_index(s, binding),
    decreases s.len(),
{
    let t = s.update(i, e);
    if i < s.len() - 1 {
        assert(t.drop_last() == s.drop_last().update(i, e));
        lemma_entry_index_update(s.drop_last(), i, e, binding);
    } else {
        assert(t.drop_last() == s.drop_last());
    }
}

/// The entries of one bind group layout, keyed by binding number.
#[derive(Clone, Debug)]
pub struct EntryMap {
    pub entries: Vec<BindGroupLayoutEntry>,
}

impl View for EntryMap {
    type V = Seq<BindGroupLayoutEntry>;

    open spec fn view(&self) -> Seq<BindGroupLayoutEntry> {
        self.entries@
    }
}

impl EntryMap {
    /// A layout with no entries.
    pub fn new() -> (r: EntryMap)
        ensures
            r@ == Seq::<BindGroupLayoutEntry>::empty(),
    {
        EntryMap { entries: Vec::new() }
    }

    /// The position of the entry for `binding`, if any.
    pub fn index_of(&self, binding: u32) -> (r: Option<usize>)
        ensures
            r matches Some(i) ==> entry_index(self@, binding) == Some(i as int),
            r is None ==> entry_index(self@, binding) is None,
    {
        let mut i = self.entries.len();
        assert(self@.subrange(0, i as int) == self@);
        while i > 0
            invariant
                i <= self.entries.len(),
                entry_index(self@, binding) == entry_index(self@.subrange(0, i as int), binding),
            decreases i,
        {
            let ghost prefix = self@.subrange(0, i as int);
            assert(prefix.drop_last() == self@.subrange(0, i - 1));
            if self.entries[i - 1].binding == binding {
                return Some(i - 1);
            }
            i = i - 1;
        }
        None
    }

    /// The entry for `binding`, if any.
    pub fn get(&self, binding: u32) -> (r: Option<BindGroupLayoutEntry>)
        ensures
            r == (match entry_index(self@, binding) {
                Some(i) => Some(self@[i]),
                None => None,
            }),
    {
        proof {
            lemma_entry_index_bounds(self@, binding);
        }
        match self.index_of(binding) {
            Some(i) => Some(self.entries[i]),
            None => None,
        }
    }

    /// Sets the entry for `entry.binding`, replacing the one there was.
    pub fn insert(&mut self, entry: BindGroupLayoutEntry)
        ensures
            (match entry_index(old(self)@, entry.binding) {
                Some(i) => final(self)@ == old(self)@.update(i, entry),
                None => final(self)@ == old(self)@.push(entry),
            }),
            entry_index(final(self)@, entry.binding) matches Some(i) && final(self)@[i] == entry,
            forall|b: u32|
                b != entry.binding ==> entry_index(final(self)@, b) == entry_index(old(self)@, b),
    {
        proof {
            lemma_entry_index_bounds(self@, entry.binding);
        }
        match self.index_of(entry.binding) {
            Some(i) => {
                self.entries.set(i, entry);
                proof {
                    assert forall|b: u32| entry_index(final(self)@, b) == entry_index(old(self)@, b) by {
                        lemma_entry_index_update(old(self)@, i as int, entry, b);
                    }
                }
            },
            None => {
                self.entries.push(entry);
                proof {
                    assert(final(self)@.drop_last() == old(self)@);
                }
            },
        }
    }
}

/// The entries of each bind group, in group order.
pub open spec fn groups_view(groups: Seq<EntryMap>) -> Seq<Seq<BindGroupLayoutEntry>> {
    groups.map_values(|m: EntryMap| m@)
}

/// Where the bind group layouts of a pipeline come from.
#[derive(Clone, Debug)]
pub enum BindingLayoutSource {
    /// Derived from the shaders: filled in as each stage is checked.
    Derived(Vec<EntryMap>),
    /// Supplied by the caller: each stage is checked against it.
    Provided(Vec<EntryMap>),
}

impl BindingLayoutSource {
    /// Whether the layouts were supplied by the caller.
    pub open spec fn is_provided(&self) -> bool {
        self is Provided
    }

    /// The entries of each group.
    pub open spec fn groups(&self) -> Seq<Seq<BindGroupLayoutEntry>> {
        match self {
            BindingLayoutSource::Derived(g) => groups_view(g@),
            BindingLayoutSource::Provided(g) => groups_view(g@),
        }
    }

    /// A derived source with one empty layout for each bind group the
    /// device allows.
    pub fn new_derived(limits: &Limits) -> (r: BindingLayoutSource)
        ensures
            r is Derived,
            r.groups().len() == limits.max_bind_groups,
            forall|g: int| 0 <= g < r.groups().len() ==> r.groups()[g].len() == 0,
    {
        let mut array: Vec<EntryMap> = Vec::new();
        let mut n: u32 = 0;
        while n < limits.max_bind_groups
            invariant
                n <= limits.max_bind_groups,
                array@.len() == n,
                forall|g: int| 0 <= g < n ==> array@[g]@.len() == 0,
            decreases limits.max_bind_groups - n,
        {
            array.push(EntryMap::new());
            n = n + 1;
        }
        BindingLayoutSource::Derived(array)
    }
}

/// The size recorded for `bind`; where it was recorded more than once, the
/// last record counts.
pub open spec fn size_lookup(s: Seq<(ResourceBinding, u64)>, bind: ResourceBinding) -> Option<u64>
    decreases s.len(),
{
    if s.len() == 0 {
        None
    } else if s.last().0 == bind {
        Some(s.last().1)
    } else {
        size_lookup(s.drop_last(), bind)
    }
}

/// The largest buffer size that the shaders of a pipeline need at each
/// binding, gathered across its stages.
#[derive(Clone, Debug)]
pub struct BindingSizes {
    pub entries: Vec<(ResourceBinding, u64)>,
}

impl View for BindingSizes {
    type V = Seq<(ResourceBinding, u64)>;

    open spec fn view(&self) -> Seq<(ResourceBinding, u64)> {
        self.entries@
    }
}

/// `size`, or the larger of it and what was recorded before.
pub open spec fn raised_size(prev: Option<u64>, size: u64) -> u64 {
    match prev {
        Some(p) => if p > size {
            p
        } else {
            size
        },
        None => size,
    }
}

impl BindingSizes {
    /// A record with no sizes.
    pub fn new() -> (r: BindingSizes)
        ensures
            r@ == Seq::<(ResourceBinding, u64)>::empty(),
    {
        BindingSizes { entries: Vec::new() }
    }

    /// The size recorded for `bind`, if any.
    pub fn get(&self, bind: ResourceBinding) -> (r: Option<u64>)
        ensures
            r == size_lookup(self@, bind),
    {
        let mut i = self.entries.len();
        assert(self@.subrange(0, i as int) == self@);
        while i > 0
            invariant
                i <= self.entries.len(),
                size_lookup(self@, bind) == size_lookup(self@.subrange(0, i as int), bind),
            decreases i,
        {
            let ghost prefix = self@.subrange(0, i as int);
            assert(prefix.drop_last() == self@.subrange(0, i - 1));
            if self.entries[i - 1].0 == bind {
                return Some(self.entries[i - 1].1);
            }
            i = i - 1;
        }
        None
    }

    /// Records that `bind` needs at least `size` bytes.
    pub fn record(&mut self, bind: ResourceBinding, size: u64)
        ensures
            final(self)@ == old(self)@.push((bind, raised_size(size_lookup(old(self)@, bind), size))),
            size_lookup(final(self)@, bind) == Some(raised_size(size_lookup(old(self)@, bind), size)),
            forall|b: ResourceBinding|
                b != bind ==> size_lookup(final(self)@, b) == size_lookup(old(self)@, b),
    {
        let new_size = match self.get(bind) {
            Some(p) => if p > size {
                p
            } else {
                size
            },
            None => size,
        };
        self.entries.push((bind, new_size));
        proof {
            assert(final(self)@.drop_last() == old(self)@);
        }
    }
}

} // verus!
