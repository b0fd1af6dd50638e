//! The host's startup hooks. A hook slot holds one callback; whoever installs
//! a new one saves the callback that was there and calls it first, so that no
//! earlier module loses its turn.

use vstd::prelude::*;

verus! {

/// A callback installed in a hook slot: the module that owns it, and the
/// callback it found in the slot and saved.
pub struct Hook {
    pub owner: u64,
    pub saved: Option<Box<Hook>>,
}

/// One hook slot of the host.
pub struct HookSlot {
    pub current: Option<Box<Hook>>,
}

/// The hook slots of a host. Older hosts size the region right after the
/// modules were loaded and have no slot for requests; newer hosts have one.
/// Which kind a host is does not change while it runs.
pub struct StartupHooks {
    pub request: Option<HookSlot>,
    pub startup: HookSlot,
}

impl Hook {
    /// The modules whose work runs when this callback is called, in order:
    /// the saved callback's first, the owner's last.
    pub open spec fn order(self) -> Seq<u64>
        decreases self,
    {
        match self.saved {
            None => seq![self.owner],
            Some(previous) => previous.order().push(self.owner),
        }
    }

    /// Calls the callback: appends to `ran` the modules whose work runs.
    pub fn invoke(&self, ran: &mut Vec<u64>)
        ensures
            final(ran)@ == old(ran)@ + self.order(),
        decreases self,
    {
        match &self.saved {
            None => {
                ran.push(self.owner);
                assert(ran@ =~= old(ran)@ + self.order());
            },
            Some(previous) => {
                previous.invoke(ran);
                ran.push(self.owner);
                assert(ran@ =~= old(ran)@ + self.order());
            },
        }
    }
}

impl HookSlot {
    /// The modules whose work runs when the host calls the slot, in order.
    pub open spec fn order(self) -> Seq<u64> {
        match self.current {
            None => Seq::empty(),
            Some(hook) => hook.order(),
        }
    }

    /// A slot in which nothing is installed.
    pub fn new() -> (slot: HookSlot)
        ensures
            slot.current is None,
            slot.order() == Seq::<u64>::empty(),
    {
        HookSlot { current: None }
    }

    /// Installs a callback for `owner` that first calls the one found in the
    /// slot. Every module that ran before still runs, in the same order, and
    /// `owner` runs after them.
    pub fn install(&mut self, owner: u64)
        ensures
            final(self).current == Some(Box::new(Hook { owner, saved: old(self).current })),
            final(self).order() == old(self).order().push(owner),
    {
        let saved = self.current.take();
        self.current = Some(Box::new(Hook { owner, saved }));
        proof {
            assert(self.order() =~= old(self).order().push(owner));
        }
    }

    /// What happens when the host calls the slot: the modules whose work
    /// runs, in order.
    pub fn invoke(&self) -> (ran: Vec<u64>)
        ensures
            ran@ == self.order(),
    {
        let mut ran: Vec<u64> = Vec::new();
        match &self.current {
            None => {},
            Some(hook) => {
                hook.invoke(&mut ran);
                assert(ran@ =~= self.order());
            },
        }
        ran
    }
}

impl StartupHooks {
    /// The hooks of a host, empty. `split` says whether the host has a slot
    /// for requests.
    pub fn new(split: bool) -> (hooks: StartupHooks)
        ensures
            hooks.request is Some == split,
            split ==> hooks.request.unwrap().order() == Seq::<u64>::empty(),
            hooks.startup.order() == Seq::<u64>::empty(),
    {
        let request = if split {
            Some(HookSlot::new())
        } else {
            None
        };
        StartupHooks { request, startup: HookSlot::new() }
    }

    /// Arranges the two phases of the module `owner`. On a host with a slot
    /// for requests both phases are installed as callbacks. On a host without
    /// one only the attach phase is, and the result tells the caller to run
    /// the request phase at once. The kind of host stays what it was.
    pub fn install_hooks(&mut self, owner: u64) -> (request_now: bool)
        ensures
            request_now == (old(self).request is None),
            final(self).request is None == old(self).request is None,
            old(self).request is Some ==> final(self).request.unwrap().order() == old(self).request.unwrap().order().push(owner),
            final(self).startup.order() == old(self).startup.order().push(owner),
    {
        self.startup.install(owner);
        match &mut self.request {
            None => true,
            Some(slot) => {
                slot.install(owner);
                false
            },
        }
    }
}

/// Installing a callback discards none: what ran before is a prefix of what
/// runs afterwards, and the newcomer runs last.
pub proof fn lemma_install_keeps_earlier(slot: HookSlot, owner: u64)
    ensures
        ({
            let after = HookSlot {
                current: Some(Box::new(Hook { owner, saved: slot.current })),
            };
            &&& after.order().len() == slot.order().len() + 1
            &&& after.order().subrange(0, slot.order().len() as int) == slot.order()
            &&& after.order().last() == owner
        }),
{
    let after = HookSlot { current: Some(Box::new(Hook { owner, saved: slot.current })) };
    assert(after.order() =~= slot.order().push(owner));
    assert(after.order().subrange(0, slot.order().len() as int) =~= slot.order());
}

} // verus!
