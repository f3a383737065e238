//! Ownership order of graphics objects: everything created is recorded, and
//! destroyed in the reverse order of creation.

use vstd::prelude::*;

verus! {

/// The kind of a graphics object, which says how to destroy it.
#[derive(Clone, Copy, PartialEq, Eq, Structural, Debug)]
pub enum ResourceKind {
    Instance,
    DebugMessenger,
    Surface,
    Device,
    RenderPass,
    Swapchain,
    Image,
    DeviceMemory,
    ImageView,
    Framebuffer,
    CommandPool,
    Fence,
    Semaphore,
    PipelineLayout,
    Pipeline,
    Buffer,
}

/// A graphics object: its kind and its raw handle.
#[derive(Clone, Copy, PartialEq, Eq, Structural, Debug)]
pub struct Resource {
    pub kind: ResourceKind,
    pub handle: u64,
}

/// The objects an owner created, in order of creation.
pub struct ResourceStack {
    items: Vec<Resource>,
}

impl View for ResourceStack {
    type V = Seq<Resource>;

    closed spec fn view(&self) -> Seq<Resource> {
        self.items@
    }
}

impl ResourceStack {
    /// An owner that has created nothing yet.
    pub fn new() -> (r: ResourceStack)
        ensures
            r@ == Seq::<Resource>::empty(),
    {
        ResourceStack { items: Vec::new() }
    }

    /// Records that `res` was just created.
    pub fn push(&mut self, res: Resource)
        ensures
            final(self)@ == old(self)@.push(res),
    {
        self.items.push(res);
    }

    /// Number of objects still owned.
    pub fn len(&self) -> (r: usize)
        ensures
            r == self@.len(),
    {
        self.items.len()
    }

    /// Hands out every owned object, last created first, and forgets them.
    pub fn teardown(&mut self) -> (r: Vec<Resource>)
        ensures
            r@ == old(self)@.reverse(),
            final(self)@ == Seq::<Resource>::empty(),
    {
        let mut out: Vec<Resource> = Vec::new();
        let ghost all = self.items@;
        while self.items.len() > 0
            invariant
                all.len() == self.items@.len() + out@.len(),
                self.items@ == all.subrange(0, self.items@.len() as int),
                out@ == all.subrange(self.items@.len() as int, all.len() as int).reverse(),
            decreases self.items@.len(),
        {
            let res = self.items.pop().unwrap();
            proof {
                let n = self.items@.len() as int;
                assert(all.subrange(n, all.len() as int).reverse() =~= all.subrange(
                    n + 1,
                    all.len() as int,
                ).reverse().push(res));
            }
            out.push(res);
        }
        proof {
            assert(all.subrange(0, all.len() as int) =~= all);
        }
        out
    }
}

} // verus!
