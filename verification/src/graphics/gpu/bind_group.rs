//! Builders for bind group layouts and bind groups, and the cache that
//! keeps one layout and one group for each distinct description.
//!
//! Entries are numbered in the order in which they are added: the binding of
//! an entry is its position.

use std::collections::hash_map::DefaultHasher;
use std::hash::{Hash, Hasher};
use vstd::prelude::*;
use vstd::std_specs::hash::DefaultHasherAdditionalSpecFns;
use crate::graphics::types::{BufferId, SamplerId, TextureId};

verus! {

/// The shader stages that can see a binding, as a set of bits.
#[derive(Debug, Clone, Copy, PartialEq, Eq, Structural, Hash)]
pub struct ShaderStages(pub u32);

/// How a buffer is bound.
#[derive(Debug, Clone, Copy, PartialEq, Eq, Structural, Hash)]
pub enum BufferBindingType {
    /// A uniform buffer.
    Uniform,
    /// A storage buffer.
    Storage { read_only: bool },
}

/// What a binding is bound to.
#[derive(Debug, Clone, Copy, PartialEq, Eq, Structural, Hash)]
pub enum BindingType {
    /// A buffer without a minimum binding size.
    Buffer { ty: BufferBindingType, has_dynamic_offset: bool },
    /// A two-dimensional texture of filterable floats, one sample per texel.
    Texture,
    /// A filtering sampler.
    Sampler,
}

/// One entry of a bind group layout. Entries are never arrays.
#[derive(Debug, Clone, Copy, PartialEq, Eq, Structural, Hash)]
pub struct BindGroupLayoutEntry {
    /// The number of the binding.
    pub binding: u32,
    /// The stages that can see it.
    pub visibility: ShaderStages,
    /// What it is bound to.
    pub ty: BindingType,
}

/// The resource of one entry of a bind group.
#[derive(Debug, Clone, Copy, PartialEq, Eq, Structural, Hash)]
pub enum BindGroupEntryKey {
    /// A range of a buffer: `size` bytes from `offset`, or all the rest
    /// (`size` is 0).
    Buffer { buffer: BufferId, offset: u64, size: u64 },
    /// A texture.
    Image(TextureId),
    /// A sampler.
    Sampler(SamplerId),
}

/// One entry of a bind group.
#[derive(Debug, Clone, Copy, PartialEq, Eq, Structural, Hash)]
pub struct BindGroupEntry {
    /// The number of the binding.
    pub binding: u32,
    /// The resource bound there.
    pub resource: BindGroupEntryKey,
}

/// The binding of the entry at position `i`.
pub open spec fn binding_at(i: int) -> u32 {
    (i % 0x1_0000_0000) as u32
}

/// The size of a buffer range as it is kept: 0 stands for all the rest.
pub open spec fn size_or_rest(size: Option<u64>) -> u64 {
    match size {
        Some(n) => n,
        None => 0,
    }
}

/// What a layout builder stands for.
pub struct LayoutBuilderState {
    pub entries: Seq<BindGroupLayoutEntry>,
    pub seed: u64,
}

/// Collects the entries of a bind group layout.
#[derive(Debug)]
pub struct BindGroupLayoutBuilder {
    entries: Vec<BindGroupLayoutEntry>,
    seed: u64,
}

impl View for BindGroupLayoutBuilder {
    type V = LayoutBuilderState;

    closed spec fn view(&self) -> LayoutBuilderState {
        LayoutBuilderState { entries: self.entries@, seed: self.seed }
    }
}

/// Every entry is numbered by its position.
pub open spec fn numbered(entries: Seq<BindGroupLayoutEntry>) -> bool {
    forall|i: int| 0 <= i < entries.len() ==> (#[trigger] entries[i]).binding == binding_at(i)
}

/// Calls `Hash::hash` of the seed on the hasher. Nothing is known of what a
/// type feeds to a hasher.
#[verifier::external_body]
fn feed<H: Hash>(seed: &H, hasher: &mut DefaultHasher) {
    seed.hash(hasher)
}

fn binding_of(position: usize) -> (binding: u32)
    ensures
        binding == binding_at(position as int),
{
    (position as u64 % 0x1_0000_0000) as u32
}

impl BindGroupLayoutBuilder {
    /// Every entry is numbered by its position.
    pub open spec fn wf(&self) -> bool {
        numbered(self@.entries)
    }

    /// A builder without entries, with the seed 0.
    pub fn new() -> (builder: BindGroupLayoutBuilder)
        ensures
            builder.wf(),
            builder@ == (LayoutBuilderState { entries: Seq::empty(), seed: 0 }),
    {
        BindGroupLayoutBuilder { entries: Vec::new(), seed: 0 }
    }

    /// Replaces the seed by the hash of `seed`. Layouts with equal entries but
    /// different seeds are kept apart by the cache. The entries stay.
    pub fn seed<H: Hash>(self, seed: H) -> (builder: BindGroupLayoutBuilder)
        requires
            self.wf(),
        ensures
            builder.wf(),
            builder@.entries == self@.entries,
            exists|written: Seq<Seq<u8>>| builder@.seed == DefaultHasher::spec_finish(written),
    {
        let mut builder = self;
        let mut hasher = DefaultHasher::new();
        feed(&seed, &mut hasher);
        builder.seed = hasher.finish();
        assert(builder@.seed == DefaultHasher::spec_finish(hasher@));
        builder
    }

    fn push(&mut self, visibility: ShaderStages, ty: BindingType)
        requires
            old(self).wf(),
        ensures
            final(self).wf(),
            final(self)@ == (LayoutBuilderState {
                entries: old(self)@.entries.push(
                    BindGroupLayoutEntry {
                        binding: binding_at(old(self)@.entries.len() as int),
                        visibility,
                        ty,
                    },
                ),
                ..old(self)@
            }),
    {
        let binding = binding_of(self.entries.len());
        self.entries.push(BindGroupLayoutEntry { binding, visibility, ty });
    }

    /// Adds a buffer binding.
    pub fn buffer(self, visibility: ShaderStages, ty: BufferBindingType, has_dynamic_offset: bool) -> (builder:
        BindGroupLayoutBuilder)
        requires
            self.wf(),
        ensures
            builder.wf(),
            builder@ == (LayoutBuilderState {
                entries: self@.entries.push(
                    BindGroupLayoutEntry {
                        binding: binding_at(self@.entries.len() as int),
                        visibility,
                        ty: BindingType::Buffer { ty, has_dynamic_offset },
                    },
                ),
                ..self@
            }),
    {
        let mut builder = self;
        builder.push(visibility, BindingType::Buffer { ty, has_dynamic_offset });
        builder
    }

    /// Adds a texture binding.
    pub fn image(self, visibility: ShaderStages) -> (builder: BindGroupLayoutBuilder)
        requires
            self.wf(),
        ensures
            builder.wf(),
            builder@ == (LayoutBuilderState {
                entries: self@.entries.push(
                    BindGroupLayoutEntry {
                        binding: binding_at(self@.entries.len() as int),
                        visibility,
                        ty: BindingType::Texture,
                    },
                ),
                ..self@
            }),
    {
        let mut builder = self;
        builder.push(visibility, BindingType::Texture);
        builder
    }

    /// Adds a sampler binding.
    pub fn sampler(self, visibility: ShaderStages) -> (builder: BindGroupLayoutBuilder)
        requires
            self.wf(),
        ensures
            builder.wf(),
            builder@ == (LayoutBuilderState {
                entries: self@.entries.push(
                    BindGroupLayoutEntry {
                        binding: binding_at(self@.entries.len() as int),
                        visibility,
                        ty: BindingType::Sampler,
                    },
                ),
                ..self@
            }),
    {
        let mut builder = self;
        builder.push(visibility, BindingType::Sampler);
        builder
    }

    /// The entries collected so far.
    pub fn entries(&self) -> (entries: &[BindGroupLayoutEntry])
        ensures
            entries@ == self@.entries,
    {
        self.entries.as_slice()
    }

    /// Returns the layout for the entries and the seed of this builder. If
    /// the cache holds no layout with equal entries and an equal seed, one
    /// is added at its end; otherwise the cache does not change.
    pub fn create(self, cache: &mut BindGroupCache) -> (id: usize)
        requires
            old(cache).wf(),
        ensures
            final(cache).wf(),
            final(cache)@ == (CacheState {
                layouts: with_key(old(cache)@.layouts, (self@.entries, self@.seed)),
                ..old(cache)@
            }),
            id == position_of(old(cache)@.layouts, (self@.entries, self@.seed)),
            id < final(cache)@.layouts.len(),
            final(cache)@.layouts[id as int] == (self@.entries, self@.seed),
    {
        cache.layout(self.entries, self.seed)
    }
}

/// A sequence of keys after `key` has been looked up: unchanged if the key
/// is known, one entry longer otherwise.
pub open spec fn with_key<K>(keys: Seq<K>, key: K) -> Seq<K> {
    if keys.contains(key) {
        keys
    } else {
        keys.push(key)
    }
}

/// The position of `key` once it has been looked up: where it stands if it
/// is known, the end otherwise.
pub open spec fn position_of<K>(keys: Seq<K>, key: K) -> int {
    if keys.contains(key) {
        keys.index_of(key)
    } else {
        keys.len() as int
    }
}

/// What a cache stands for: the descriptions of the layouts and of the
/// groups created so far. A layout or a group is named by its position.
pub struct CacheState {
    pub layouts: Seq<(Seq<BindGroupLayoutEntry>, u64)>,
    pub groups: Seq<Seq<BindGroupEntryKey>>,
}

/// Keeps one layout for each distinct list of entries and seed, and one
/// group for each distinct list of resources.
#[derive(Debug)]
pub struct BindGroupCache {
    layouts: Vec<(Vec<BindGroupLayoutEntry>, u64)>,
    groups: Vec<Vec<BindGroupEntryKey>>,
}

impl View for BindGroupCache {
    type V = CacheState;

    closed spec fn view(&self) -> CacheState {
        CacheState {
            layouts: Seq::new(
                self.layouts@.len(),
                |i: int| (self.layouts@[i].0@, self.layouts@[i].1),
            ),
            groups: Seq::new(self.groups@.len(), |i: int| self.groups@[i]@),
        }
    }
}

fn same_entries(a: &Vec<BindGroupLayoutEntry>, b: &Vec<BindGroupLayoutEntry>) -> (same: bool)
    ensures
        same == (a@ == b@),
{
    if a.len() != b.len() {
        return false;
    }
    let mut i: usize = 0;
    while i < a.len()
        invariant
            i <= a@.len(),
            a@.len() == b@.len(),
            forall|j: int| 0 <= j < i ==> a@[j] == b@[j],
        decreases a@.len() - i,
    {
        if a[i] != b[i] {
            return false;
        }
        i += 1;
    }
    assert(a@ =~= b@);
    true
}

fn same_keys(a: &Vec<BindGroupEntryKey>, b: &Vec<BindGroupEntryKey>) -> (same: bool)
    ensures
        same == (a@ == b@),
{
    if a.len() != b.len() {
        return false;
    }
    let mut i: usize = 0;
    while i < a.len()
        invariant
            i <= a@.len(),
            a@.len() == b@.len(),
            forall|j: int| 0 <= j < i ==> a@[j] == b@[j],
        decreases a@.len() - i,
    {
        if a[i] != b[i] {
            return false;
        }
        i += 1;
    }
    assert(a@ =~= b@);
    true
}

impl BindGroupCache {
    /// No description occurs twice.
    pub open spec fn wf(&self) -> bool {
        self@.layouts.no_duplicates() && self@.groups.no_duplicates()
    }

    /// An empty cache.
    pub fn new() -> (cache: BindGroupCache)
        ensures
            cache.wf(),
            cache@ == (CacheState { layouts: Seq::empty(), groups: Seq::empty() }),
    {
        let cache = BindGroupCache { layouts: Vec::new(), groups: Vec::new() };
        assert(cache@.layouts =~= Seq::empty());
        assert(cache@.groups =~= Seq::empty());
        cache
    }

    /// The number of layouts created so far.
    pub fn layouts_len(&self) -> (n: usize)
        ensures
            n == self@.layouts.len(),
    {
        self.layouts.len()
    }

    /// The number of groups created so far.
    pub fn groups_len(&self) -> (n: usize)
        ensures
            n == self@.groups.len(),
    {
        self.groups.len()
    }

    fn layout(&mut self, entries: Vec<BindGroupLayoutEntry>, seed: u64) -> (id: usize)
        requires
            old(self).wf(),
        ensures
            final(self).wf(),
            final(self)@ == (CacheState {
                layouts: with_key(old(self)@.layouts, (entries@, seed)),
                ..old(self)@
            }),
            id == position_of(old(self)@.layouts, (entries@, seed)),
            id < final(self)@.layouts.len(),
            final(self)@.layouts[id as int] == (entries@, seed),
    {
        let ghost key = (entries@, seed);
        let n: usize = self.layouts.len();
        let mut i: usize = 0;
        while i < n
            invariant
                n == self.layouts@.len(),
                i <= n,
                *self == *old(self),
                self.wf(),
                key == (entries@, seed),
                forall|j: int| 0 <= j < i ==> self@.layouts[j] != key,
            decreases n - i,
        {
            if self.layouts[i].1 == seed && same_entries(&self.layouts[i].0, &entries) {
                assert(self@.layouts[i as int] == key);
                assert(self@.layouts.index_of(key) == i);
                return i;
            }
            i += 1;
        }
        assert(!self@.layouts.contains(key));
        self.layouts.push((entries, seed));
        assert(self@.layouts =~= old(self)@.layouts.push(key));
        assert(self@.groups =~= old(self)@.groups);
        n
    }

    fn group(&mut self, resources: Vec<BindGroupEntryKey>) -> (id: usize)
        requires
            old(self).wf(),
        ensures
            final(self).wf(),
            final(self)@ == (CacheState {
                groups: with_key(old(self)@.groups, resources@),
                ..old(self)@
            }),
            id == position_of(old(self)@.groups, resources@),
            id < final(self)@.groups.len(),
            final(self)@.groups[id as int] == resources@,
    {
        let ghost key = resources@;
        let n: usize = self.groups.len();
        let mut i: usize = 0;
        while i < n
            invariant
                n == self.groups@.len(),
                i <= n,
                *self == *old(self),
                self.wf(),
                key == resources@,
                forall|j: int| 0 <= j < i ==> self@.groups[j] != key,
            decreases n - i,
        {
            if same_keys(&self.groups[i], &resources) {
                assert(self@.groups[i as int] == key);
                assert(self@.groups.index_of(key) == i);
                return i;
            }
            i += 1;
        }
        assert(!self@.groups.contains(key));
        self.groups.push(resources);
        assert(self@.groups =~= old(self)@.groups.push(key));
        assert(self@.layouts =~= old(self)@.layouts);
        n
    }
}

/// What a bind group builder stands for.
pub struct GroupBuilderState {
    pub layout: LayoutBuilderState,
    pub entries: Seq<BindGroupEntry>,
    pub key: Seq<BindGroupEntryKey>,
}

/// Collects the entries of a bind group, and with them the entries of its
/// layout.
#[derive(Debug)]
pub struct BindGroupBuilder {
    layout: BindGroupLayoutBuilder,
    entries: Vec<BindGroupEntry>,
    key: Vec<BindGroupEntryKey>,
}

impl View for BindGroupBuilder {
    type V = GroupBuilderState;

    closed spec fn view(&self) -> GroupBuilderState {
        GroupBuilderState { layout: self.layout@, entries: self.entries@, key: self.key@ }
    }
}

impl GroupBuilderState {
    /// The layout has one entry for each entry of the group, every entry is
    /// numbered by its position, and the key lists the resources in order.
    pub open spec fn wf(self) -> bool {
        &&& numbered(self.layout.entries)
        &&& self.layout.entries.len() == self.entries.len()
        &&& self.key.len() == self.entries.len()
        &&& forall|i: int|
            0 <= i < self.entries.len() ==> (#[trigger] self.entries[i]) == (BindGroupEntry {
                binding: binding_at(i),
                resource: self.key[i],
            })
    }

    /// The state with one more binding: its resource and the type of its
    /// layout entry.
    pub open spec fn with_binding(
        self,
        resource: BindGroupEntryKey,
        visibility: ShaderStages,
        ty: BindingType,
    ) -> GroupBuilderState {
        GroupBuilderState {
            layout: LayoutBuilderState {
                entries: self.layout.entries.push(
                    BindGroupLayoutEntry {
                        binding: binding_at(self.layout.entries.len() as int),
                        visibility,
                        ty,
                    },
                ),
                ..self.layout
            },
            entries: self.entries.push(
                BindGroupEntry { binding: binding_at(self.entries.len() as int), resource },
            ),
            key: self.key.push(resource),
        }
    }
}

impl BindGroupBuilder {
    /// The builder is well formed.
    pub open spec fn wf(&self) -> bool {
        self@.wf()
    }

    /// A builder without entries.
    pub fn new() -> (builder: BindGroupBuilder)
        ensures
            builder.wf(),
            builder@ == (GroupBuilderState {
                layout: LayoutBuilderState { entries: Seq::empty(), seed: 0 },
                entries: Seq::empty(),
                key: Seq::empty(),
            }),
    {
        BindGroupBuilder {
            layout: BindGroupLayoutBuilder::new(),
            entries: Vec::new(),
            key: Vec::new(),
        }
    }

    /// Binds `size` bytes of a buffer from `offset`, or all the rest of it
    /// without a size. A size, if given, is not zero.
    pub fn buffer(
        self,
        buffer: BufferId,
        offset: u64,
        visibility: ShaderStages,
        ty: BufferBindingType,
        has_dynamic_offset: bool,
        size: Option<u64>,
    ) -> (builder: BindGroupBuilder)
        requires
            self.wf(),
            size != Some(0u64),
        ensures
            builder.wf(),
            builder@ == self@.with_binding(
                BindGroupEntryKey::Buffer { buffer, offset, size: size_or_rest(size) },
                visibility,
                BindingType::Buffer { ty, has_dynamic_offset },
            ),
    {
        let mut builder = self;
        let size: u64 = match size {
            Some(n) => n,
            None => 0,
        };
        let resource = BindGroupEntryKey::Buffer { buffer, offset, size };
        let binding = binding_of(builder.entries.len());
        builder.entries.push(BindGroupEntry { binding, resource });
        builder.key.push(resource);
        BindGroupBuilder {
            layout: builder.layout.buffer(visibility, ty, has_dynamic_offset),
            entries: builder.entries,
            key: builder.key,
        }
    }

    /// Binds a texture.
    pub fn image(self, view: TextureId, visibility: ShaderStages) -> (builder: BindGroupBuilder)
        requires
            self.wf(),
        ensures
            builder.wf(),
            builder@ == self@.with_binding(
                BindGroupEntryKey::Image(view),
                visibility,
                BindingType::Texture,
            ),
    {
        let mut builder = self;
        let resource = BindGroupEntryKey::Image(view);
        let binding = binding_of(builder.entries.len());
        builder.entries.push(BindGroupEntry { binding, resource });
        builder.key.push(resource);
        BindGroupBuilder {
            layout: builder.layout.image(visibility),
            entries: builder.entries,
            key: builder.key,
        }
    }

    /// Binds a sampler.
    pub fn sampler(self, sampler: SamplerId, visibility: ShaderStages) -> (builder: BindGroupBuilder)
        requires
            self.wf(),
        ensures
            builder.wf(),
            builder@ == self@.with_binding(
                BindGroupEntryKey::Sampler(sampler),
                visibility,
                BindingType::Sampler,
            ),
    {
        let mut builder = self;
        let resource = BindGroupEntryKey::Sampler(sampler);
        let binding = binding_of(builder.entries.len());
        builder.entries.push(BindGroupEntry { binding, resource });
        builder.key.push(resource);
        BindGroupBuilder {
            layout: builder.layout.sampler(visibility),
            entries: builder.entries,
            key: builder.key,
        }
    }

    /// Returns the group for the resources of this builder, and the layout
    /// for its entries. Each is taken from the cache if an equal one is
    /// there, and added at the end otherwise.
    pub fn create(self, cache: &mut BindGroupCache) -> (ids: (usize, usize))
        requires
            self.wf(),
            old(cache).wf(),
        ensures
            final(cache).wf(),
            final(cache)@ == (CacheState {
                layouts: with_key(
                    old(cache)@.layouts,
                    (self@.layout.entries, self@.layout.seed),
                ),
                groups: with_key(old(cache)@.groups, self@.key),
            }),
            ids.1 == position_of(old(cache)@.layouts, (self@.layout.entries, self@.layout.seed)),
            ids.0 == position_of(old(cache)@.groups, self@.key),
    {
        let layout = self.layout.create(cache);
        let group = cache.group(self.key);
        (group, layout)
    }

    /// The entries collected so far.
    pub fn entries(&self) -> (entries: &[BindGroupEntry])
        ensures
            entries@ == self@.entries,
    {
        self.entries.as_slice()
    }

    /// The entries of the layout collected so far.
    pub fn layout_entries(&self) -> (entries: &[BindGroupLayoutEntry])
        ensures
            entries@ == self@.layout.entries,
    {
        self.layout.entries()
    }
}

} // verus!
