use vstd::prelude::*;

use crate::program::Module;
use crate::store::Store;
use crate::value::Val;

verus! {

/// One instantiated module inside a context: the module's code together
/// with the instance's own mutable global state.
pub struct InstanceData {
    pub module: Module,
    pub globals: Vec<Val>,
}

/// The identity of an instantiated module within its context.  Identities
/// are handed out in instantiation order, starting at 1; the pause registry
/// scopes the live suspension to the instance whose call produced it.
#[derive(Clone, Copy, PartialEq, Eq, Structural, Debug)]
pub struct Instance {
    pub id: usize,
}

impl Instance {
    /// An instance is valid for a context when its identity was handed out
    /// by that context.
    pub open spec fn valid_for(self, s: Store) -> bool {
        1 <= self.id <= s.instances@.len()
    }

    /// The position of this instance's data in the context.
    pub open spec fn index(self) -> int {
        self.id - 1
    }

    /// Instantiates a module in the given context: the module's initial
    /// global values are copied into context-owned memory and a fresh
    /// identity is handed out.
    pub fn new(store: &mut Store, module: Module) -> (r: Instance)
        requires
            old(store).wf(),
            old(store).instances@.len() < usize::MAX,
        ensures
            final(store).wf(),
            *final(store) == (Store { instances: final(store).instances, ..*old(store) }),
            final(store).instances@.len() == old(store).instances@.len() + 1,
            forall|j: int|
                0 <= j < old(store).instances@.len() ==> final(store).instances@[j] == old(
                    store,
                ).instances@[j],
            r.id == old(store).instances@.len() + 1,
            r.valid_for(*final(store)),
            final(store).instances@[r.index()].module == module,
            final(store).instances@[r.index()].globals@ == module.globals@,
    {
        let mut globals: Vec<Val> = Vec::new();
        let mut i: usize = 0;
        while i < module.globals.len()
            invariant
                i <= module.globals.len(),
                globals@ == module.globals@.take(i as int),
            decreases module.globals.len() - i,
        {
            globals.push(module.globals[i]);
            proof {
                assert(module.globals@.take(i + 1) == module.globals@.take(i as int).push(
                    module.globals@[i as int],
                ));
            }
            i = i + 1;
        }
        proof {
            assert(module.globals@.take(module.globals@.len() as int) == module.globals@);
        }
        let id = store.instances.len() + 1;
        store.instances.push(InstanceData { module, globals });
        Instance { id }
    }
}

} // verus!
