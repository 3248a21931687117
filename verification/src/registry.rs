//! The Instance Registry: the exclusively owned, order-preserving collection
//! of live instances. The host serializes every command with one lock around
//! the whole registry; within a command, these operations say exactly how the
//! tracked sequence changes.

use vstd::prelude::*;

verus! {

/// One supervised instance: its identity, a token standing for its OS
/// process handle (the host maps tokens to real handles), and the storage
/// directory provisioned for it.
pub struct Instance {
    /// Positive identity: registry size + 1 at the moment of spawn.
    pub ordinal: u32,
    /// Opaque token for the child process.
    pub handle: u64,
    /// The per-instance storage directory.
    pub storage_path: String,
}

/// The handle tokens of a registry sequence, in insertion order.
pub open spec fn handles_of(s: Seq<Instance>) -> Seq<u64> {
    s.map_values(|i: Instance| i.handle)
}

/// The ordinal the next spawn receives: current size + 1, a pure function of
/// the current size, not a monotonic counter.
pub open spec fn next_ordinal_spec(s: Seq<Instance>) -> int {
    s.len() as int + 1
}

/// Well-formedness of the registry under the command surface: the instance
/// at position `i` carries ordinal `i + 1`, so ordinals read 1, 2, 3, ... in
/// insertion order.
pub open spec fn wf_registry(s: Seq<Instance>) -> bool {
    forall|i: int| 0 <= i < s.len() ==> #[trigger] s[i].ordinal == i + 1
}

/// One successful spawn, as the registry sees it: exactly one instance is
/// appended, and it carries the ordinal assigned from the pre-state's size.
pub open spec fn spawn_appended(pre: Seq<Instance>, post: Seq<Instance>) -> bool {
    exists|inst: Instance|
        post == pre.push(inst) && #[trigger] inst.ordinal == next_ordinal_spec(pre)
}

/// The ordered sequence of live instances; insertion order is spawn order.
pub struct Registry {
    instances: Vec<Instance>,
}

impl View for Registry {
    type V = Seq<Instance>;

    closed spec fn view(&self) -> Seq<Instance> {
        self.instances@
    }
}

impl Registry {
    /// An empty registry: no instance is tracked yet.
    pub fn new() -> (r: Registry)
        ensures
            r@ == Seq::<Instance>::empty(),
    {
        Registry { instances: Vec::new() }
    }

    /// The current count of tracked instances, from which the next ordinal
    /// is assigned.
    pub fn size(&self) -> (n: usize)
        ensures
            n == self@.len(),
    {
        self.instances.len()
    }

    /// Appends one instance at the end; never fails.
    pub fn append(&mut self, inst: Instance)
        ensures
            final(self)@ == old(self)@.push(inst),
    {
        self.instances.push(inst);
    }

    /// Drains the registry for TerminateAll: removes every instance, most
    /// recently added first, and returns their handle tokens in removal
    /// (LIFO) order for the host to terminate. Each instance is removed
    /// whether or not its termination later succeeds.
    pub fn drain_handles(&mut self) -> (handles: Vec<u64>)
        ensures
            final(self)@ == Seq::<Instance>::empty(),
            handles@ == handles_of(old(self)@).reverse(),
    {
        let ghost orig = self.instances@;
        let mut handles: Vec<u64> = Vec::new();
        while self.instances.len() > 0
            invariant
                self.instances@ == orig.take(self.instances@.len() as int),
                handles@.len() + self.instances@.len() == orig.len(),
                forall|j: int|
                    0 <= j < handles@.len() ==> #[trigger] handles@[j] == orig[orig.len() - 1
                        - j].handle,
            decreases self.instances.len(),
        {
            let inst = self.instances.pop().unwrap();
            proof {
                assert(inst == orig[self.instances@.len() as int]);
            }
            handles.push(inst.handle);
        }
        proof {
            assert(handles@ =~= handles_of(orig).reverse());
        }
        handles
    }

    /// The handle tokens of every tracked instance, in insertion order,
    /// without removing anything: TerminateAllAndExit terminates these while
    /// the manager process itself is about to exit.
    pub fn handles_in_place(&self) -> (handles: Vec<u64>)
        ensures
            handles@ == handles_of(self@),
    {
        let mut handles: Vec<u64> = Vec::new();
        let mut i: usize = 0;
        while i < self.instances.len()
            invariant
                i <= self.instances@.len(),
                handles@.len() == i,
                forall|j: int|
                    0 <= j < i ==> #[trigger] handles@[j] == self.instances@[j].handle,
            decreases self.instances@.len() - i,
        {
            handles.push(self.instances[i].handle);
            i = i + 1;
        }
        proof {
            assert(handles@ =~= handles_of(self@));
        }
        handles
    }
}

} // verus!
