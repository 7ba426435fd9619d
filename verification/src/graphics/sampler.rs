//! The sampler cache: one sampler per distinct descriptor, created on first
//! use and kept for the lifetime of the context.

use vstd::prelude::*;
use crate::graphics::factory::{Factory, FactoryState, ResourceRequestView};
use crate::graphics::types::{SamplerId, SamplerInfo};

verus! {

/// The descriptors of the samplers created so far, in order of creation. A
/// sampler is named by the position of its descriptor.
#[derive(Debug, Clone)]
pub struct SamplerCache {
    samplers: Vec<SamplerInfo>,
}

/// The cache after `info` has been looked up in `cache`: unchanged if the
/// descriptor is known, one entry longer otherwise.
pub open spec fn cache_with(cache: Seq<SamplerInfo>, info: SamplerInfo) -> Seq<SamplerInfo> {
    if cache.contains(info) {
        cache
    } else {
        cache.push(info)
    }
}

/// The name of the sampler for `info` once it has been looked up in `cache`:
/// the position of the descriptor if it is known, the end of the cache
/// otherwise.
pub open spec fn sampler_position(cache: Seq<SamplerInfo>, info: SamplerInfo) -> int {
    if cache.contains(info) {
        cache.index_of(info)
    } else {
        cache.len() as int
    }
}

/// The factory after `info` has been looked up in `cache`: a sampler is
/// requested exactly when the descriptor was not known.
pub open spec fn requests_with(
    factory: FactoryState,
    cache: Seq<SamplerInfo>,
    info: SamplerInfo,
) -> FactoryState {
    if cache.contains(info) {
        factory
    } else {
        FactoryState {
            requests: factory.requests.push(
                ResourceRequestView::Sampler { sampler: SamplerId(cache.len() as usize), info },
            ),
            ..factory
        }
    }
}

impl View for SamplerCache {
    type V = Seq<SamplerInfo>;

    closed spec fn view(&self) -> Seq<SamplerInfo> {
        self.samplers@
    }
}

impl SamplerCache {
    /// No descriptor occurs twice.
    pub open spec fn wf(&self) -> bool {
        self@.no_duplicates()
    }

    /// An empty cache.
    pub fn new() -> (cache: SamplerCache)
        ensures
            cache@ == Seq::<SamplerInfo>::empty(),
            cache.wf(),
    {
        SamplerCache { samplers: Vec::new() }
    }

    /// The number of samplers created so far.
    pub fn len(&self) -> (n: usize)
        ensures
            n == self@.len(),
    {
        self.samplers.len()
    }

    /// The descriptor of the sampler named `id`, if there is one.
    pub fn get(&self, id: SamplerId) -> (r: Option<SamplerInfo>)
        ensures
            r == (if (id.0 as int) < self@.len() {
                Some(self@[id.0 as int])
            } else {
                None
            }),
    {
        if id.0 < self.samplers.len() {
            Some(self.samplers[id.0])
        } else {
            None
        }
    }

    /// Returns the sampler for `info`. If no sampler with an equal descriptor
    /// exists yet, one is added at the end of the cache and requested from the
    /// factory; otherwise neither the cache nor the factory changes. Nothing is
    /// ever removed.
    pub fn get_or_insert(&mut self, info: SamplerInfo, factory: &mut Factory) -> (id: SamplerId)
        requires
            old(self).wf(),
        ensures
            final(self).wf(),
            final(self)@ == cache_with(old(self)@, info),
            (id.0 as int) < final(self)@.len(),
            final(self)@[id.0 as int] == info,
            old(self)@.contains(info) <==> (id.0 as int) < old(self)@.len(),
            id.0 == sampler_position(old(self)@, info),
            final(factory)@ == requests_with(old(factory)@, old(self)@, info),
    {
        let n: usize = self.samplers.len();
        let mut i: usize = 0;
        while i < n
            invariant
                n == self.samplers@.len(),
                i <= n,
                self.samplers@ == old(self).samplers@,
                self.samplers@.no_duplicates(),
                *factory == *old(factory),
                forall|j: int| 0 <= j < i ==> self.samplers@[j] != info,
            decreases n - i,
        {
            if self.samplers[i] == info {
                assert(self.samplers@[i as int] == info);
                assert(self.samplers@.index_of(info) == i);
                return SamplerId(i);
            }
            i += 1;
        }
        assert(!self.samplers@.contains(info));
        self.samplers.push(info);
        assert(self.samplers@.no_duplicates());
        factory.create_sampler(SamplerId(n), info);
        SamplerId(n)
    }
}

/// Looking a descriptor up a second time changes nothing: the cache stays as
/// the first lookup left it, and since no descriptor occurs twice the second
/// lookup can only name the sampler that the first one named.
pub proof fn lemma_get_or_insert_idempotent(cache: Seq<SamplerInfo>, info: SamplerInfo)
    requires
        cache.no_duplicates(),
    ensures
        cache_with(cache, info).contains(info),
        cache_with(cache_with(cache, info), info) == cache_with(cache, info),
        cache_with(cache, info).no_duplicates(),
        forall|i: int, j: int|
            0 <= i < cache_with(cache, info).len() && 0 <= j < cache_with(cache, info).len()
                && cache_with(cache, info)[i] == info && cache_with(cache, info)[j] == info
                ==> i == j,
{
    if !cache.contains(info) {
        assert(cache.push(info)[cache.len() as int] == info);
    }
}

/// Equal descriptors are served by one sampler, and the samplers that exist
/// keep their names: after a lookup every earlier entry is where it was.
pub proof fn lemma_cache_only_grows(cache: Seq<SamplerInfo>, info: SamplerInfo)
    ensures
        cache.len() <= cache_with(cache, info).len() <= cache.len() + 1,
        forall|i: int| 0 <= i < cache.len() ==> cache_with(cache, info)[i] == cache[i],
{
}

} // verus!
