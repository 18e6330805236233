//! The runtime handle: the heap of blocks, the execution lock and its blocking
//! sections, and the set of registered roots.
use vstd::prelude::*;
use crate::mlvalues::{is_block, is_block_word, RawOCaml};
use crate::value::OCaml;

verus! {

/// Blocks are addressed by even words, so at most this many can exist.
pub const MAX_BLOCKS: u64 = 0x4000_0000_0000_0000;

/// A block of the runtime's heap.
#[derive(Clone, Debug, PartialEq, Eq)]
pub enum Block {
    /// A structured block: a tag and its fields.
    Fields { tag: u8, fields: Vec<RawOCaml> },
    /// A string or byte buffer.
    Bytes { data: Vec<u8> },
    /// A boxed 32-bit integer.
    Int32 { int32: i32 },
    /// A boxed 64-bit integer.
    Int64 { int64: i64 },
}

/// A change of the execution lock.
#[derive(PartialEq, Eq, Structural, Clone, Copy, Debug)]
pub enum LockEvent {
    Release,
    Acquire,
}

/// A change of the collector's root set; the number names a root's cell.
#[derive(PartialEq, Eq, Structural, Clone, Copy, Debug)]
pub enum RootEvent {
    Register(u64),
    Deregister(u64),
}

/// The word that addresses the block at `index`.
pub open spec fn block_word(index: int) -> int {
    2 * index
}

/// The index of the block that `raw` addresses.
pub open spec fn block_index(raw: int) -> int {
    raw / 2
}

/// Whether `raw` addresses a block of `heap`.
pub open spec fn addresses_block(heap: Seq<Block>, raw: int) -> bool {
    is_block_word(raw) && 0 <= block_index(raw) < heap.len()
}

/// The block that `raw` addresses.
pub open spec fn block_at(heap: Seq<Block>, raw: int) -> Block {
    heap[block_index(raw)]
}

/// Whether `raw` addresses a structured block of `heap` with `tag` and `n` fields.
pub open spec fn is_fields_block(heap: Seq<Block>, raw: int, tag: u8, n: nat) -> bool {
    &&& addresses_block(heap, raw)
    &&& block_at(heap, raw) is Fields
    &&& block_at(heap, raw)->Fields_tag == tag
    &&& block_at(heap, raw)->Fields_fields@.len() == n
}

/// Field `i` of the structured block that `raw` addresses.
pub open spec fn field_of(heap: Seq<Block>, raw: int, i: int) -> RawOCaml {
    block_at(heap, raw)->Fields_fields@[i]
}

/// A block at an address stays as it is when the heap only grows.
pub proof fn lemma_block_growth(heap: Seq<Block>, grown: Seq<Block>, raw: int)
    requires
        addresses_block(heap, raw),
        heap.is_prefix_of(grown),
    ensures
        addresses_block(grown, raw),
        block_at(grown, raw) == block_at(heap, raw),
{
}

/// The runtime handle: holding it means holding the execution lock.
pub struct OCamlRuntime {
    heap: Vec<Block>,
    lock_held: bool,
    lock_log: Vec<LockEvent>,
    root_log: Vec<RootEvent>,
    next_cell: u64,
}

impl OCamlRuntime {
    /// The blocks allocated so far, by index.
    pub closed spec fn heap(&self) -> Seq<Block> {
        self.heap@
    }

    /// Whether this thread holds the execution lock.
    pub closed spec fn lock_held(&self) -> bool {
        self.lock_held
    }

    /// Every release and acquisition of the lock, in order.
    pub closed spec fn lock_log(&self) -> Seq<LockEvent> {
        self.lock_log@
    }

    /// Every registration and deregistration of a root, in order.
    pub closed spec fn root_log(&self) -> Seq<RootEvent> {
        self.root_log@
    }

    /// The number of root cells handed out so far.
    pub closed spec fn cells_made(&self) -> u64 {
        self.next_cell
    }

    /// Starts the runtime with an empty heap; the caller holds the lock.
    pub fn init() -> (r: Self)
        ensures
            r.heap().len() == 0,
            r.lock_held(),
            r.lock_log().len() == 0,
            r.root_log().len() == 0,
            r.cells_made() == 0,
    {
        OCamlRuntime {
            heap: Vec::new(),
            lock_held: true,
            lock_log: Vec::new(),
            root_log: Vec::new(),
            next_cell: 0,
        }
    }

    /// Whether this thread holds the execution lock.
    pub fn holds_lock(&self) -> (r: bool)
        ensures
            r == self.lock_held(),
    {
        self.lock_held
    }

    /// Every release and acquisition of the lock so far.
    pub fn lock_events(&self) -> (r: &Vec<LockEvent>)
        ensures
            r@ == self.lock_log(),
    {
        &self.lock_log
    }

    /// Every registration and deregistration of a root so far.
    pub fn root_events(&self) -> (r: &Vec<RootEvent>)
        ensures
            r@ == self.root_log(),
    {
        &self.root_log
    }

    /// The number of blocks in the heap.
    pub fn heap_len(&self) -> (r: usize)
        ensures
            r == self.heap().len(),
    {
        self.heap.len()
    }

    /// Allocates `b` and returns its address.
    pub fn alloc_block(&mut self, b: Block) -> (r: RawOCaml)
        requires
            old(self).heap().len() < MAX_BLOCKS,
        ensures
            final(self).heap() == old(self).heap().push(b),
            r as int == block_word(old(self).heap().len() as int),
            addresses_block(final(self).heap(), r as int),
            block_at(final(self).heap(), r as int) == b,
            final(self).lock_held() == old(self).lock_held(),
            final(self).lock_log() == old(self).lock_log(),
            final(self).root_log() == old(self).root_log(),
            final(self).cells_made() == old(self).cells_made(),
    {
        let index = self.heap.len();
        self.heap.push(b);
        2 * (index as i64)
    }

    /// Allocates a structured block with `tag` and `fields`.
    pub fn alloc_fields(&mut self, tag: u8, fields: Vec<RawOCaml>) -> (r: RawOCaml)
        requires
            old(self).heap().len() < MAX_BLOCKS,
        ensures
            final(self).heap() == old(self).heap().push(Block::Fields { tag, fields }),
            r as int == block_word(old(self).heap().len() as int),
            is_fields_block(final(self).heap(), r as int, tag, fields@.len()),
            forall|i: int| 0 <= i < fields@.len() ==> field_of(final(self).heap(), r as int, i) == fields@[i],
            final(self).lock_held() == old(self).lock_held(),
            final(self).lock_log() == old(self).lock_log(),
            final(self).root_log() == old(self).root_log(),
            final(self).cells_made() == old(self).cells_made(),
    {
        self.alloc_block(Block::Fields { tag, fields })
    }

    /// The tag of the structured block that `v` addresses.
    pub fn tag_of<T>(&self, v: &OCaml<T>) -> (r: u8)
        requires
            addresses_block(self.heap(), v.raw_word() as int),
            block_at(self.heap(), v.raw_word() as int) is Fields,
        ensures
            r == block_at(self.heap(), v.raw_word() as int)->Fields_tag,
    {
        match &self.heap[self.index_of(v.get_raw())] {
            Block::Fields { tag, .. } => *tag,
            _ => 0,
        }
    }

    /// Field `i` of the structured block that `raw` addresses.
    pub fn field(&self, raw: RawOCaml, i: usize) -> (r: RawOCaml)
        requires
            addresses_block(self.heap(), raw as int),
            block_at(self.heap(), raw as int) is Fields,
            i < block_at(self.heap(), raw as int)->Fields_fields@.len(),
        ensures
            r == field_of(self.heap(), raw as int, i as int),
    {
        match &self.heap[self.index_of(raw)] {
            Block::Fields { fields, .. } => fields[i],
            _ => 0,
        }
    }

    /// The block that `raw` addresses.
    pub fn block(&self, raw: RawOCaml) -> (r: &Block)
        requires
            addresses_block(self.heap(), raw as int),
        ensures
            *r == block_at(self.heap(), raw as int),
    {
        &self.heap[self.index_of(raw)]
    }

    /// Whether `raw` addresses a block of this heap.
    pub fn in_heap(&self, raw: RawOCaml) -> (r: bool)
        ensures
            r == addresses_block(self.heap(), raw as int),
    {
        is_block(raw) && raw >= 0 && ((raw / 2) as u64) < (self.heap.len() as u64)
    }

    fn index_of(&self, raw: RawOCaml) -> (r: usize)
        requires
            addresses_block(self.heap(), raw as int),
        ensures
            r == block_index(raw as int),
    {
        let n = self.heap.len();
        (raw / 2) as usize
    }

    /// Registers the root cell `cell` with the collector.
    pub(crate) fn register_root(&mut self, cell: u64)
        ensures
            final(self).root_log() == old(self).root_log().push(RootEvent::Register(cell)),
            final(self).heap() == old(self).heap(),
            final(self).lock_held() == old(self).lock_held(),
            final(self).lock_log() == old(self).lock_log(),
            final(self).cells_made() == old(self).cells_made(),
    {
        self.root_log.push(RootEvent::Register(cell));
    }

    /// Removes the root cell `cell` from the collector's root set.
    pub(crate) fn deregister_root(&mut self, cell: u64)
        ensures
            final(self).root_log() == old(self).root_log().push(RootEvent::Deregister(cell)),
            final(self).heap() == old(self).heap(),
            final(self).lock_held() == old(self).lock_held(),
            final(self).lock_log() == old(self).lock_log(),
            final(self).cells_made() == old(self).cells_made(),
    {
        self.root_log.push(RootEvent::Deregister(cell));
    }

    /// Hands out a fresh root cell.
    pub(crate) fn new_cell(&mut self) -> (r: u64)
        requires
            old(self).cells_made() < u64::MAX,
        ensures
            r == old(self).cells_made(),
            final(self).cells_made() == old(self).cells_made() + 1,
            final(self).root_log() == old(self).root_log(),
            final(self).heap() == old(self).heap(),
            final(self).lock_held() == old(self).lock_held(),
            final(self).lock_log() == old(self).lock_log(),
    {
        let c = self.next_cell;
        self.next_cell = c + 1;
        c
    }

    /// Releases the execution lock, runs `f`, and acquires the lock again.
    pub fn releasing_runtime<T, F>(&mut self, f: F) -> (r: T)
        where
            F: FnOnce() -> T,
        requires
            old(self).lock_held(),
            f.requires(()),
        ensures
            f.ensures((), r),
            final(self).lock_held(),
            final(self).lock_log() == old(self).lock_log().push(LockEvent::Release).push(LockEvent::Acquire),
            final(self).heap() == old(self).heap(),
            final(self).root_log() == old(self).root_log(),
            final(self).cells_made() == old(self).cells_made(),
    {
        OCamlBlockingSection::new().perform(self, f)
    }

    /// Returns the value to which a handle points, as a fresh handle.
    pub fn get<T>(&self, reference: &OCaml<T>) -> (r: OCaml<T>)
        ensures
            r.raw_word() == reference.raw_word(),
    {
        reference.duplicate()
    }
}

/// A scoped release of the execution lock around work that does not touch
/// the heap.
pub struct OCamlBlockingSection {
    entered: bool,
}

impl OCamlBlockingSection {
    /// Whether the lock has been released by this section and not yet taken back.
    pub closed spec fn is_entered(&self) -> bool {
        self.entered
    }

    /// A section that has not released the lock yet.
    pub fn new() -> (r: Self)
        ensures
            !r.is_entered(),
    {
        OCamlBlockingSection { entered: false }
    }

    /// Releases the lock held through `cr`.
    pub fn enter(&mut self, cr: &mut OCamlRuntime)
        requires
            !old(self).is_entered(),
            old(cr).lock_held(),
        ensures
            final(self).is_entered(),
            !final(cr).lock_held(),
            final(cr).lock_log() == old(cr).lock_log().push(LockEvent::Release),
            final(cr).heap() == old(cr).heap(),
            final(cr).root_log() == old(cr).root_log(),
            final(cr).cells_made() == old(cr).cells_made(),
    {
        cr.lock_held = false;
        cr.lock_log.push(LockEvent::Release);
        self.entered = true;
    }

    /// Takes the lock back, once, if this section released it; a second call
    /// changes nothing, so running it on every way out of the section is safe.
    pub fn leave(&mut self, cr: &mut OCamlRuntime)
        ensures
            !final(self).is_entered(),
            old(self).is_entered() ==> final(cr).lock_held(),
            !old(self).is_entered() ==> final(cr).lock_held() == old(cr).lock_held(),
            final(cr).lock_log() == if old(self).is_entered() {
                old(cr).lock_log().push(LockEvent::Acquire)
            } else {
                old(cr).lock_log()
            },
            final(cr).heap() == old(cr).heap(),
            final(cr).root_log() == old(cr).root_log(),
            final(cr).cells_made() == old(cr).cells_made(),
    {
        if self.entered {
            cr.lock_held = true;
            cr.lock_log.push(LockEvent::Acquire);
            self.entered = false;
        }
    }

    /// Releases the lock, runs `f`, and acquires the lock again.
    pub fn perform<T, F>(self, cr: &mut OCamlRuntime, f: F) -> (r: T)
        where
            F: FnOnce() -> T,
        requires
            !self.is_entered(),
            old(cr).lock_held(),
            f.requires(()),
        ensures
            f.ensures((), r),
            final(cr).lock_held(),
            final(cr).lock_log() == old(cr).lock_log().push(LockEvent::Release).push(LockEvent::Acquire),
            final(cr).heap() == old(cr).heap(),
            final(cr).root_log() == old(cr).root_log(),
            final(cr).cells_made() == old(cr).cells_made(),
    {
        let mut section = self;
        section.enter(cr);
        let r = f();
        section.leave(cr);
        r
    }
}

} // verus!
