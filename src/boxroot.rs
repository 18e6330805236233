//! Persistent roots: cells outside any scope that the collector treats as
//! always reachable.
use vstd::prelude::*;
use crate::mlvalues::{is_block, is_block_word, RawOCaml};
use crate::runtime::{OCamlRuntime, RootEvent};
use crate::value::OCaml;

verus! {

/// What making a root over `raw` adds to the collector's root log: a
/// registration of its cell when `raw` addresses a block, nothing otherwise.
pub open spec fn registration_events(cell: u64, raw: int) -> Seq<RootEvent> {
    if is_block_word(raw) {
        seq![RootEvent::Register(cell)]
    } else {
        seq![]
    }
}

/// What releasing a root adds to the collector's root log: a deregistration
/// of its cell exactly when it was registered.
pub open spec fn deregistration_events(cell: u64, registered: bool) -> Seq<RootEvent> {
    if registered {
        seq![RootEvent::Deregister(cell)]
    } else {
        seq![]
    }
}

/// An owned cell holding one value, registered as a root when that value was a block.
pub struct BoxRoot<T> {
    cell: u64,
    content: OCaml<T>,
    registered: bool,
}

impl<T> BoxRoot<T> {
    /// The name of this root's cell.
    pub closed spec fn cell_id(&self) -> u64 {
        self.cell
    }

    /// The word that the cell holds.
    pub closed spec fn content_word(&self) -> RawOCaml {
        self.content.raw_word()
    }

    /// Whether the cell was registered with the collector when it was made.
    pub closed spec fn is_registered(&self) -> bool {
        self.registered
    }

    /// Roots `v`: the cell is registered only when `v` addresses a block.
    pub fn new(cr: &mut OCamlRuntime, v: OCaml<T>) -> (r: BoxRoot<T>)
        requires
            old(cr).cells_made() < u64::MAX,
        ensures
            r.cell_id() == old(cr).cells_made(),
            r.content_word() == v.raw_word(),
            r.is_registered() == is_block_word(v.raw_word() as int),
            final(cr).root_log() == old(cr).root_log() + registration_events(r.cell_id(), v.raw_word() as int),
            final(cr).cells_made() == old(cr).cells_made() + 1,
            final(cr).heap() == old(cr).heap(),
            final(cr).lock_held() == old(cr).lock_held(),
            final(cr).lock_log() == old(cr).lock_log(),
    {
        let cell = cr.new_cell();
        let registered = is_block(v.get_raw());
        if registered {
            cr.register_root(cell);
        } else {
            assert(registration_events(cell, v.raw_word() as int) =~= seq![]);
        }
        BoxRoot { cell, content: v, registered }
    }

    /// The value that the cell holds.
    pub fn get(&self, _cr: &OCamlRuntime) -> (r: OCaml<T>)
        ensures
            r.raw_word() == self.content_word(),
    {
        self.content.duplicate()
    }

    /// Overwrites the cell's content; the cell keeps its registration.
    pub fn keep(&mut self, val: OCaml<T>) -> (r: OCaml<T>)
        ensures
            final(self).content_word() == val.raw_word(),
            final(self).cell_id() == old(self).cell_id(),
            final(self).is_registered() == old(self).is_registered(),
            r.raw_word() == val.raw_word(),
    {
        let r = val.duplicate();
        self.content = val;
        r
    }

    /// Destroys the root, deregistering its cell exactly when it was registered.
    pub fn release(self, cr: &mut OCamlRuntime)
        ensures
            final(cr).root_log() == old(cr).root_log() + deregistration_events(self.cell_id(), self.is_registered()),
            final(cr).cells_made() == old(cr).cells_made(),
            final(cr).heap() == old(cr).heap(),
            final(cr).lock_held() == old(cr).lock_held(),
            final(cr).lock_log() == old(cr).lock_log(),
    {
        if self.registered {
            cr.deregister_root(self.cell);
        } else {
            assert(deregistration_events(self.cell, false) =~= seq![]);
        }
    }
}

/// `b` is what `keep` leaves of the root `a`.
pub open spec fn rewritten<T>(a: BoxRoot<T>, b: BoxRoot<T>) -> bool {
    &&& b.cell_id() == a.cell_id()
    &&& b.is_registered() == a.is_registered()
}

/// However many times a root is rewritten, the root log gains over its
/// lifetime one registration and one deregistration of its cell when it was
/// made over a block, and nothing when it was made over an immediate.
pub proof fn lemma_root_rewrite_stability<T>(states: Seq<BoxRoot<T>>, first: RawOCaml)
    requires
        states.len() >= 1,
        states[0].is_registered() == is_block_word(first as int),
        forall|i: int| 0 <= i < states.len() - 1 ==> #[trigger] rewritten(states[i], states[i + 1]),
    ensures
        ({
            let cell = states[0].cell_id();
            let last = states[states.len() - 1];
            &&& last.cell_id() == cell
            &&& registration_events(cell, first as int) + deregistration_events(last.cell_id(), last.is_registered())
                == if is_block_word(first as int) {
                    seq![RootEvent::Register(cell), RootEvent::Deregister(cell)]
                } else {
                    Seq::<RootEvent>::empty()
                }
        }),
    decreases states.len(),
{
    if states.len() > 1 {
        let shorter = states.drop_last();
        assert forall|i: int| 0 <= i < shorter.len() - 1 implies #[trigger] rewritten(shorter[i], shorter[i + 1]) by {
            assert(rewritten(states[i], states[i + 1]));
        }
        lemma_root_rewrite_stability(shorter, first);
        let k = states.len() - 2;
        assert(rewritten(states[k], states[k + 1]));
    }
    let cell = states[0].cell_id();
    let last = states[states.len() - 1];
    if is_block_word(first as int) {
        assert(registration_events(cell, first as int) + deregistration_events(last.cell_id(), last.is_registered())
            =~= seq![RootEvent::Register(cell), RootEvent::Deregister(cell)]);
    } else {
        assert(registration_events(cell, first as int) + deregistration_events(last.cell_id(), last.is_registered())
            =~= Seq::<RootEvent>::empty());
    }
}

/// A root made over an immediate is never registered, and releasing it
/// deregisters nothing.
pub proof fn lemma_immediate_skip(cell: u64, raw: RawOCaml)
    requires
        !is_block_word(raw as int),
    ensures
        registration_events(cell, raw as int).len() == 0,
        deregistration_events(cell, is_block_word(raw as int)).len() == 0,
{
}

} // verus!
