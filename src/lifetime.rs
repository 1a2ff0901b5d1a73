//! Lifetime ledgers for GPU objects: each subsystem records what it created
//! and releases it in strict reverse order of creation.

use vstd::prelude::*;

verus! {

/// The kinds of GPU objects the engine creates.
#[derive(Clone, Copy, PartialEq, Eq, Structural, Debug)]
pub enum ResourceKind {
    Instance,
    DebugMessenger,
    Surface,
    Device,
    CommandPool,
    CommandBuffer,
    DescriptorSetLayout,
    DescriptorPool,
    Buffer,
    DeviceMemory,
    Swapchain,
    ImageView,
    RenderPass,
    PipelineLayout,
    Pipeline,
    Framebuffer,
    Semaphore,
    Fence,
}

/// One GPU object: its kind and its raw handle.
#[derive(Clone, Copy, PartialEq, Eq, Structural, Debug)]
pub struct Resource {
    pub kind: ResourceKind,
    pub handle: u64,
}

#[derive(Clone, Copy, PartialEq, Eq, Structural, Debug)]
pub enum LedgerError {
    /// The ledger was torn down; it takes no new objects.
    AlreadyTornDown,
}

/// The objects of one subsystem that are alive, in order of creation, and
/// whether the subsystem was torn down for good.
pub struct ResourceStack {
    live: Vec<Resource>,
    destroyed: bool,
}

/// The release order of a stack: newest first.
pub open spec fn release_order(live: Seq<Resource>) -> Seq<Resource> {
    live.reverse()
}

fn reversed(v: &Vec<Resource>) -> (r: Vec<Resource>)
    ensures
        r@ == release_order(v@),
{
    let n = v.len();
    let mut r: Vec<Resource> = Vec::new();
    let mut k: usize = 0;
    while k < n
        invariant
            n == v@.len(),
            k <= n,
            r@ =~= Seq::new(k as nat, |j: int| v@[n - 1 - j]),
        decreases n - k,
    {
        r.push(v[n - 1 - k]);
        k = k + 1;
    }
    r
}

impl ResourceStack {
    /// The live objects, oldest first.
    pub closed spec fn live_view(&self) -> Seq<Resource> {
        self.live@
    }

    /// Whether the stack was torn down.
    pub closed spec fn torn_down(&self) -> bool {
        self.destroyed
    }

    /// An empty ledger.
    pub fn new() -> (r: ResourceStack)
        ensures
            r.live_view() == Seq::<Resource>::empty(),
            !r.torn_down(),
    {
        let r = ResourceStack { live: Vec::new(), destroyed: false };
        assert(r.live@ =~= Seq::<Resource>::empty());
        r
    }

    /// Records a newly created object; refused once the stack is torn down.
    pub fn push(&mut self, kind: ResourceKind, handle: u64) -> (r: Result<(), LedgerError>)
        ensures
            final(self).torn_down() == old(self).torn_down(),
            old(self).torn_down() ==> r == Err::<(), LedgerError>(LedgerError::AlreadyTornDown)
                && final(self).live_view() == old(self).live_view(),
            !old(self).torn_down() ==> r is Ok && final(self).live_view() == old(self).live_view().push(
                Resource { kind, handle },
            ),
    {
        if self.destroyed {
            return Err(LedgerError::AlreadyTornDown);
        }
        self.live.push(Resource { kind, handle });
        Ok(())
    }

    /// Hands out every live object, newest first, and forgets them; the
    /// stack stays usable (this is how dependent objects are rebuilt).
    pub fn release_all(&mut self) -> (r: Vec<Resource>)
        ensures
            r@ == release_order(old(self).live_view()),
            final(self).live_view() == Seq::<Resource>::empty(),
            final(self).torn_down() == old(self).torn_down(),
    {
        let r = reversed(&self.live);
        self.live = Vec::new();
        assert(self.live@ =~= Seq::<Resource>::empty());
        r
    }

    /// Hands out every live object, newest first, and marks the stack torn
    /// down. A second call hands out nothing.
    pub fn teardown(&mut self) -> (r: Vec<Resource>)
        ensures
            r@ == teardown_output(old(self).live_view(), old(self).torn_down()),
            final(self).live_view() == Seq::<Resource>::empty(),
            final(self).torn_down(),
    {
        if self.destroyed {
            let r: Vec<Resource> = Vec::new();
            self.live = Vec::new();
            assert(r@ =~= Seq::<Resource>::empty());
            assert(self.live@ =~= Seq::<Resource>::empty());
            return r;
        }
        let r = self.release_all();
        self.destroyed = true;
        r
    }

    /// The number of live objects.
    pub fn len(&self) -> (r: usize)
        ensures
            r == self.live_view().len(),
    {
        self.live.len()
    }

    /// Whether the stack was torn down.
    pub fn is_destroyed(&self) -> (r: bool)
        ensures
            r == self.torn_down(),
    {
        self.destroyed
    }
}

/// What a teardown hands out: nothing if it already happened, else every
/// live object, newest first.
pub open spec fn teardown_output(live: Seq<Resource>, torn_down: bool) -> Seq<Resource> {
    if torn_down {
        Seq::empty()
    } else {
        release_order(live)
    }
}

/// The engine's GPU objects, one ledger per subsystem.
pub struct EngineResources {
    /// Instance, debug messenger, surface, device, descriptor-set layout and
    /// command pool.
    pub core: ResourceStack,
    /// Buffers, memory and descriptor pools of the models.
    pub models: ResourceStack,
    /// The swapchain and everything built on its format and extent.
    pub swapchain: ResourceStack,
    /// Semaphores and fences of the frame slots.
    pub sync: ResourceStack,
}

impl EngineResources {
    /// What a teardown of the engine hands out: frame sync objects, then
    /// swapchain-dependent objects, then model resources, then the core,
    /// each newest first.
    pub open spec fn teardown_spec(&self) -> Seq<Resource> {
        teardown_output(self.sync.live_view(), self.sync.torn_down()) + teardown_output(
            self.swapchain.live_view(),
            self.swapchain.torn_down(),
        ) + teardown_output(self.models.live_view(), self.models.torn_down()) + teardown_output(
            self.core.live_view(),
            self.core.torn_down(),
        )
    }

    /// Every ledger is empty and torn down.
    pub open spec fn all_torn_down(&self) -> bool {
        &&& self.sync.live_view().len() == 0 && self.sync.torn_down()
        &&& self.swapchain.live_view().len() == 0 && self.swapchain.torn_down()
        &&& self.models.live_view().len() == 0 && self.models.torn_down()
        &&& self.core.live_view().len() == 0 && self.core.torn_down()
    }

    /// Four empty ledgers.
    pub fn new() -> (r: EngineResources)
        ensures
            r.core.live_view().len() == 0 && !r.core.torn_down(),
            r.models.live_view().len() == 0 && !r.models.torn_down(),
            r.swapchain.live_view().len() == 0 && !r.swapchain.torn_down(),
            r.sync.live_view().len() == 0 && !r.sync.torn_down(),
    {
        EngineResources {
            core: ResourceStack::new(),
            models: ResourceStack::new(),
            swapchain: ResourceStack::new(),
            sync: ResourceStack::new(),
        }
    }

    /// Hands out every live object in teardown order and marks every ledger
    /// torn down; a second call hands out nothing.
    pub fn teardown(&mut self) -> (r: Vec<Resource>)
        ensures
            r@ == old(self).teardown_spec(),
            final(self).all_torn_down(),
    {
        let mut r = self.sync.teardown();
        let mut swapchain = self.swapchain.teardown();
        let mut models = self.models.teardown();
        let mut core = self.core.teardown();
        r.append(&mut swapchain);
        r.append(&mut models);
        r.append(&mut core);
        r
    }
}

/// Tearing the engine down a second time releases nothing, so no object is
/// released twice; the first teardown released each live object once.
pub proof fn lemma_teardown_twice(before: EngineResources, between: EngineResources)
    requires
        between.all_torn_down(),
    ensures
        between.teardown_spec() == Seq::<Resource>::empty(),
        before.teardown_spec() + between.teardown_spec() == before.teardown_spec(),
{
    assert(between.teardown_spec() =~= Seq::<Resource>::empty());
    assert(before.teardown_spec() + between.teardown_spec() =~= before.teardown_spec());
}

} // verus!
