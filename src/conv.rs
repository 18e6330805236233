//! Conversion of native values into values of the runtime's heap.
//!
//! A conversion allocates the blocks of its value after those of every
//! sub-value that the block contains, so a composite value is assembled
//! bottom-up, and the heap only grows while it is built.
use vstd::prelude::*;
use vstd::string::StringSliceAdditionalSpecFns;
use vstd::utf8::encode_utf8;
use crate::boxroot::{registration_events, BoxRoot};
use crate::mlvalues::{
    bool_to_raw, bool_word, fixnum, int_to_raw, RawOCaml, EMPTY_LIST, NONE, TAG_CONS, TAG_ERROR,
    TAG_OK, TAG_SOME, TAG_TUPLE,
};
use crate::runtime::{
    addresses_block, block_at, field_of, is_fields_block, lemma_block_growth, Block, OCamlRuntime,
    MAX_BLOCKS,
};
use crate::value::{OCaml, OCamlBytes, OCamlInt, OCamlInt32, OCamlInt64, OCamlList};

verus! {

/// `after` is `before` with at most `n` blocks added to the heap and nothing
/// else changed.
pub open spec fn heap_grown(before: OCamlRuntime, after: OCamlRuntime, n: nat) -> bool {
    &&& before.heap().is_prefix_of(after.heap())
    &&& after.heap().len() <= before.heap().len() + n
    &&& after.lock_held() == before.lock_held()
    &&& after.lock_log() == before.lock_log()
    &&& after.root_log() == before.root_log()
    &&& after.cells_made() == before.cells_made()
}

/// Whether `raw` addresses a byte block of `heap` holding `bytes`.
pub open spec fn is_bytes_block(heap: Seq<Block>, raw: int, bytes: Seq<u8>) -> bool {
    &&& addresses_block(heap, raw)
    &&& block_at(heap, raw) is Bytes
    &&& block_at(heap, raw)->Bytes_data@ == bytes
}

/// Converts native values into values of the runtime whose shape is `T`.
pub trait ToOCaml<T>: Sized {
    /// How many blocks the conversion allocates at most.
    spec fn blocks_needed(&self) -> nat;

    /// Whether `raw` is this value's representation in `heap`.
    spec fn represented_by(&self, heap: Seq<Block>, raw: RawOCaml) -> bool;

    /// Whether `other` is the same native value (by content).
    spec fn same_value(&self, other: &Self) -> bool;

    /// A representation stays one when the heap only grows.
    proof fn lemma_heap_growth(&self, heap: Seq<Block>, grown: Seq<Block>, raw: RawOCaml)
        requires
            self.represented_by(heap, raw),
            heap.is_prefix_of(grown),
        ensures
            self.represented_by(grown, raw),
    ;

    /// A representation stands for one native value only.
    proof fn lemma_represents_one(&self, other: &Self, heap: Seq<Block>, raw: RawOCaml)
        requires
            self.represented_by(heap, raw),
            other.represented_by(heap, raw),
        ensures
            self.same_value(other),
    ;

    /// Converts to a value of the runtime.
    fn to_ocaml(&self, cr: &mut OCamlRuntime) -> (r: OCaml<T>)
        requires
            old(cr).heap().len() + self.blocks_needed() <= MAX_BLOCKS,
        ensures
            heap_grown(*old(cr), *final(cr), self.blocks_needed()),
            self.represented_by(final(cr).heap(), r.raw_word()),
    ;

    /// Converts to a value of the runtime and roots it.
    fn to_boxroot(&self, cr: &mut OCamlRuntime) -> (r: BoxRoot<T>)
        requires
            old(cr).heap().len() + self.blocks_needed() <= MAX_BLOCKS,
            old(cr).cells_made() < u64::MAX,
        ensures
            old(cr).heap().is_prefix_of(final(cr).heap()),
            self.represented_by(final(cr).heap(), r.content_word()),
            r.cell_id() == old(cr).cells_made(),
            final(cr).root_log() == old(cr).root_log() + registration_events(r.cell_id(), r.content_word() as int),
    {
        let v = self.to_ocaml(cr);
        BoxRoot::new(cr, v)
    }
}

impl ToOCaml<OCamlInt> for i64 {
    open spec fn blocks_needed(&self) -> nat {
        0
    }

    open spec fn represented_by(&self, heap: Seq<Block>, raw: RawOCaml) -> bool {
        raw as int == fixnum(*self as int)
    }

    open spec fn same_value(&self, other: &Self) -> bool {
        fixnum(*self as int) == fixnum(*other as int)
    }

    proof fn lemma_heap_growth(&self, heap: Seq<Block>, grown: Seq<Block>, raw: RawOCaml) {
    }

    proof fn lemma_represents_one(&self, other: &Self, heap: Seq<Block>, raw: RawOCaml) {
    }

    fn to_ocaml(&self, cr: &mut OCamlRuntime) -> (r: OCaml<OCamlInt>) {
        OCaml::new(int_to_raw(*self))
    }
}

impl ToOCaml<OCamlInt> for i32 {
    open spec fn blocks_needed(&self) -> nat {
        0
    }

    open spec fn represented_by(&self, heap: Seq<Block>, raw: RawOCaml) -> bool {
        raw as int == fixnum(*self as int)
    }

    open spec fn same_value(&self, other: &Self) -> bool {
        *self == *other
    }

    proof fn lemma_heap_growth(&self, heap: Seq<Block>, grown: Seq<Block>, raw: RawOCaml) {
    }

    proof fn lemma_represents_one(&self, other: &Self, heap: Seq<Block>, raw: RawOCaml) {
    }

    fn to_ocaml(&self, cr: &mut OCamlRuntime) -> (r: OCaml<OCamlInt>) {
        OCaml::new(int_to_raw(*self as i64))
    }
}

impl ToOCaml<bool> for bool {
    open spec fn blocks_needed(&self) -> nat {
        0
    }

    open spec fn represented_by(&self, heap: Seq<Block>, raw: RawOCaml) -> bool {
        raw as int == bool_word(*self)
    }

    open spec fn same_value(&self, other: &Self) -> bool {
        *self == *other
    }

    proof fn lemma_heap_growth(&self, heap: Seq<Block>, grown: Seq<Block>, raw: RawOCaml) {
    }

    proof fn lemma_represents_one(&self, other: &Self, heap: Seq<Block>, raw: RawOCaml) {
    }

    fn to_ocaml(&self, cr: &mut OCamlRuntime) -> (r: OCaml<bool>) {
        OCaml::new(bool_to_raw(*self))
    }
}

impl ToOCaml<OCamlInt64> for i64 {
    open spec fn blocks_needed(&self) -> nat {
        1
    }

    open spec fn represented_by(&self, heap: Seq<Block>, raw: RawOCaml) -> bool {
        addresses_block(heap, raw as int) && block_at(heap, raw as int) == (Block::Int64 { int64: *self })
    }

    open spec fn same_value(&self, other: &Self) -> bool {
        *self == *other
    }

    proof fn lemma_heap_growth(&self, heap: Seq<Block>, grown: Seq<Block>, raw: RawOCaml) {
        lemma_block_growth(heap, grown, raw as int);
    }

    proof fn lemma_represents_one(&self, other: &Self, heap: Seq<Block>, raw: RawOCaml) {
    }

    fn to_ocaml(&self, cr: &mut OCamlRuntime) -> (r: OCaml<OCamlInt64>) {
        OCaml::new(cr.alloc_block(Block::Int64 { int64: *self }))
    }
}

impl ToOCaml<OCamlInt32> for i32 {
    open spec fn blocks_needed(&self) -> nat {
        1
    }

    open spec fn represented_by(&self, heap: Seq<Block>, raw: RawOCaml) -> bool {
        addresses_block(heap, raw as int) && block_at(heap, raw as int) == (Block::Int32 { int32: *self })
    }

    open spec fn same_value(&self, other: &Self) -> bool {
        *self == *other
    }

    proof fn lemma_heap_growth(&self, heap: Seq<Block>, grown: Seq<Block>, raw: RawOCaml) {
        lemma_block_growth(heap, grown, raw as int);
    }

    proof fn lemma_represents_one(&self, other: &Self, heap: Seq<Block>, raw: RawOCaml) {
    }

    fn to_ocaml(&self, cr: &mut OCamlRuntime) -> (r: OCaml<OCamlInt32>) {
        OCaml::new(cr.alloc_block(Block::Int32 { int32: *self }))
    }
}

/// Copies `bytes` into a fresh byte block.
fn alloc_bytes(cr: &mut OCamlRuntime, bytes: &[u8]) -> (r: RawOCaml)
    requires
        old(cr).heap().len() < MAX_BLOCKS,
    ensures
        heap_grown(*old(cr), *final(cr), 1),
        is_bytes_block(final(cr).heap(), r as int, bytes@),
{
    let data = vstd::slice::slice_to_vec(bytes);
    cr.alloc_block(Block::Bytes { data })
}

impl ToOCaml<String> for String {
    open spec fn blocks_needed(&self) -> nat {
        1
    }

    open spec fn represented_by(&self, heap: Seq<Block>, raw: RawOCaml) -> bool {
        is_bytes_block(heap, raw as int, encode_utf8(self@))
    }

    open spec fn same_value(&self, other: &Self) -> bool {
        self@ == other@
    }

    proof fn lemma_heap_growth(&self, heap: Seq<Block>, grown: Seq<Block>, raw: RawOCaml) {
        lemma_block_growth(heap, grown, raw as int);
    }

    proof fn lemma_represents_one(&self, other: &Self, heap: Seq<Block>, raw: RawOCaml) {
        vstd::utf8::encode_utf8_decode_utf8(self@);
        vstd::utf8::encode_utf8_decode_utf8(other@);
    }

    fn to_ocaml(&self, cr: &mut OCamlRuntime) -> (r: OCaml<String>) {
        OCaml::new(alloc_bytes(cr, self.as_str().as_bytes()))
    }
}

impl ToOCaml<OCamlBytes> for String {
    open spec fn blocks_needed(&self) -> nat {
        1
    }

    open spec fn represented_by(&self, heap: Seq<Block>, raw: RawOCaml) -> bool {
        is_bytes_block(heap, raw as int, encode_utf8(self@))
    }

    open spec fn same_value(&self, other: &Self) -> bool {
        self@ == other@
    }

    proof fn lemma_heap_growth(&self, heap: Seq<Block>, grown: Seq<Block>, raw: RawOCaml) {
        lemma_block_growth(heap, grown, raw as int);
    }

    proof fn lemma_represents_one(&self, other: &Self, heap: Seq<Block>, raw: RawOCaml) {
        vstd::utf8::encode_utf8_decode_utf8(self@);
        vstd::utf8::encode_utf8_decode_utf8(other@);
    }

    fn to_ocaml(&self, cr: &mut OCamlRuntime) -> (r: OCaml<OCamlBytes>) {
        OCaml::new(alloc_bytes(cr, self.as_str().as_bytes()))
    }
}

impl<'s> ToOCaml<String> for &'s str {
    open spec fn blocks_needed(&self) -> nat {
        1
    }

    open spec fn represented_by(&self, heap: Seq<Block>, raw: RawOCaml) -> bool {
        is_bytes_block(heap, raw as int, (**self).spec_bytes())
    }

    open spec fn same_value(&self, other: &Self) -> bool {
        (**self)@ == (**other)@
    }

    proof fn lemma_heap_growth(&self, heap: Seq<Block>, grown: Seq<Block>, raw: RawOCaml) {
        lemma_block_growth(heap, grown, raw as int);
    }

    proof fn lemma_represents_one(&self, other: &Self, heap: Seq<Block>, raw: RawOCaml) {
        vstd::utf8::encode_utf8_decode_utf8((**self)@);
        vstd::utf8::encode_utf8_decode_utf8((**other)@);
    }

    fn to_ocaml(&self, cr: &mut OCamlRuntime) -> (r: OCaml<String>) {
        OCaml::new(alloc_bytes(cr, self.as_bytes()))
    }
}

impl<'s> ToOCaml<OCamlBytes> for &'s str {
    open spec fn blocks_needed(&self) -> nat {
        1
    }

    open spec fn represented_by(&self, heap: Seq<Block>, raw: RawOCaml) -> bool {
        is_bytes_block(heap, raw as int, (**self).spec_bytes())
    }

    open spec fn same_value(&self, other: &Self) -> bool {
        (**self)@ == (**other)@
    }

    proof fn lemma_heap_growth(&self, heap: Seq<Block>, grown: Seq<Block>, raw: RawOCaml) {
        lemma_block_growth(heap, grown, raw as int);
    }

    proof fn lemma_represents_one(&self, other: &Self, heap: Seq<Block>, raw: RawOCaml) {
        vstd::utf8::encode_utf8_decode_utf8((**self)@);
        vstd::utf8::encode_utf8_decode_utf8((**other)@);
    }

    fn to_ocaml(&self, cr: &mut OCamlRuntime) -> (r: OCaml<OCamlBytes>) {
        OCaml::new(alloc_bytes(cr, self.as_bytes()))
    }
}

impl<'s> ToOCaml<OCamlBytes> for &'s [u8] {
    open spec fn blocks_needed(&self) -> nat {
        1
    }

    open spec fn represented_by(&self, heap: Seq<Block>, raw: RawOCaml) -> bool {
        is_bytes_block(heap, raw as int, (**self)@)
    }

    open spec fn same_value(&self, other: &Self) -> bool {
        (**self)@ == (**other)@
    }

    proof fn lemma_heap_growth(&self, heap: Seq<Block>, grown: Seq<Block>, raw: RawOCaml) {
        lemma_block_growth(heap, grown, raw as int);
    }

    proof fn lemma_represents_one(&self, other: &Self, heap: Seq<Block>, raw: RawOCaml) {
    }

    fn to_ocaml(&self, cr: &mut OCamlRuntime) -> (r: OCaml<OCamlBytes>) {
        OCaml::new(alloc_bytes(cr, *self))
    }
}

impl<'s> ToOCaml<String> for &'s [u8] {
    open spec fn blocks_needed(&self) -> nat {
        1
    }

    open spec fn represented_by(&self, heap: Seq<Block>, raw: RawOCaml) -> bool {
        is_bytes_block(heap, raw as int, (**self)@)
    }

    open spec fn same_value(&self, other: &Self) -> bool {
        (**self)@ == (**other)@
    }

    proof fn lemma_heap_growth(&self, heap: Seq<Block>, grown: Seq<Block>, raw: RawOCaml) {
        lemma_block_growth(heap, grown, raw as int);
    }

    proof fn lemma_represents_one(&self, other: &Self, heap: Seq<Block>, raw: RawOCaml) {
    }

    fn to_ocaml(&self, cr: &mut OCamlRuntime) -> (r: OCaml<String>) {
        OCaml::new(alloc_bytes(cr, *self))
    }
}

impl ToOCaml<OCamlBytes> for Vec<u8> {
    open spec fn blocks_needed(&self) -> nat {
        1
    }

    open spec fn represented_by(&self, heap: Seq<Block>, raw: RawOCaml) -> bool {
        is_bytes_block(heap, raw as int, self@)
    }

    open spec fn same_value(&self, other: &Self) -> bool {
        self@ == other@
    }

    proof fn lemma_heap_growth(&self, heap: Seq<Block>, grown: Seq<Block>, raw: RawOCaml) {
        lemma_block_growth(heap, grown, raw as int);
    }

    proof fn lemma_represents_one(&self, other: &Self, heap: Seq<Block>, raw: RawOCaml) {
    }

    fn to_ocaml(&self, cr: &mut OCamlRuntime) -> (r: OCaml<OCamlBytes>) {
        OCaml::new(alloc_bytes(cr, self.as_slice()))
    }
}

impl ToOCaml<String> for Vec<u8> {
    open spec fn blocks_needed(&self) -> nat {
        1
    }

    open spec fn represented_by(&self, heap: Seq<Block>, raw: RawOCaml) -> bool {
        is_bytes_block(heap, raw as int, self@)
    }

    open spec fn same_value(&self, other: &Self) -> bool {
        self@ == other@
    }

    proof fn lemma_heap_growth(&self, heap: Seq<Block>, grown: Seq<Block>, raw: RawOCaml) {
        lemma_block_growth(heap, grown, raw as int);
    }

    proof fn lemma_represents_one(&self, other: &Self, heap: Seq<Block>, raw: RawOCaml) {
    }

    fn to_ocaml(&self, cr: &mut OCamlRuntime) -> (r: OCaml<String>) {
        OCaml::new(alloc_bytes(cr, self.as_slice()))
    }
}

impl<A, OA> ToOCaml<OA> for Box<A> where A: ToOCaml<OA> {
    open spec fn blocks_needed(&self) -> nat {
        (**self).blocks_needed()
    }

    open spec fn represented_by(&self, heap: Seq<Block>, raw: RawOCaml) -> bool {
        (**self).represented_by(heap, raw)
    }

    open spec fn same_value(&self, other: &Self) -> bool {
        (**self).same_value(&**other)
    }

    proof fn lemma_heap_growth(&self, heap: Seq<Block>, grown: Seq<Block>, raw: RawOCaml) {
        (**self).lemma_heap_growth(heap, grown, raw);
    }

    proof fn lemma_represents_one(&self, other: &Self, heap: Seq<Block>, raw: RawOCaml) {
        (**self).lemma_represents_one(&**other, heap, raw);
    }

    fn to_ocaml(&self, cr: &mut OCamlRuntime) -> (r: OCaml<OA>) {
        (**self).to_ocaml(cr)
    }
}

impl<A, OA> ToOCaml<Option<OA>> for Option<A> where A: ToOCaml<OA> {
    open spec fn blocks_needed(&self) -> nat {
        match self {
            Some(a) => a.blocks_needed() + 1,
            None => 0,
        }
    }

    open spec fn represented_by(&self, heap: Seq<Block>, raw: RawOCaml) -> bool {
        match self {
            Some(a) => is_fields_block(heap, raw as int, TAG_SOME, 1) && a.represented_by(
                heap,
                field_of(heap, raw as int, 0),
            ),
            None => raw == NONE,
        }
    }

    open spec fn same_value(&self, other: &Self) -> bool {
        match (self, other) {
            (Some(a), Some(b)) => a.same_value(&b),
            (None, None) => true,
            _ => false,
        }
    }

    proof fn lemma_heap_growth(&self, heap: Seq<Block>, grown: Seq<Block>, raw: RawOCaml) {
        if let Some(a) = self {
            lemma_block_growth(heap, grown, raw as int);
            a.lemma_heap_growth(heap, grown, field_of(heap, raw as int, 0));
        }
    }

    proof fn lemma_represents_one(&self, other: &Self, heap: Seq<Block>, raw: RawOCaml) {
        if let (Some(a), Some(b)) = (self, other) {
            a.lemma_represents_one(&b, heap, field_of(heap, raw as int, 0));
        }
    }

    fn to_ocaml(&self, cr: &mut OCamlRuntime) -> (r: OCaml<Option<OA>>) {
        match self {
            Some(a) => {
                let v = a.to_ocaml(cr);
                let ghost inner = cr.heap();
                let raw = cr.alloc_fields(TAG_SOME, vec![v.get_raw()]);
                proof {
                    a.lemma_heap_growth(inner, cr.heap(), v.raw_word());
                }
                OCaml::new(raw)
            },
            None => OCaml::new(NONE),
        }
    }
}

impl<A, OA, E, OE> ToOCaml<Result<OA, OE>> for Result<A, E> where A: ToOCaml<OA>, E: ToOCaml<OE> {
    open spec fn blocks_needed(&self) -> nat {
        match self {
            Ok(a) => a.blocks_needed() + 1,
            Err(e) => e.blocks_needed() + 1,
        }
    }

    open spec fn represented_by(&self, heap: Seq<Block>, raw: RawOCaml) -> bool {
        match self {
            Ok(a) => is_fields_block(heap, raw as int, TAG_OK, 1) && a.represented_by(
                heap,
                field_of(heap, raw as int, 0),
            ),
            Err(e) => is_fields_block(heap, raw as int, TAG_ERROR, 1) && e.represented_by(
                heap,
                field_of(heap, raw as int, 0),
            ),
        }
    }

    open spec fn same_value(&self, other: &Self) -> bool {
        match (self, other) {
            (Ok(a), Ok(b)) => a.same_value(&b),
            (Err(a), Err(b)) => a.same_value(&b),
            _ => false,
        }
    }

    proof fn lemma_heap_growth(&self, heap: Seq<Block>, grown: Seq<Block>, raw: RawOCaml) {
        lemma_block_growth(heap, grown, raw as int);
        match self {
            Ok(a) => a.lemma_heap_growth(heap, grown, field_of(heap, raw as int, 0)),
            Err(e) => e.lemma_heap_growth(heap, grown, field_of(heap, raw as int, 0)),
        }
    }

    proof fn lemma_represents_one(&self, other: &Self, heap: Seq<Block>, raw: RawOCaml) {
        match (self, other) {
            (Ok(a), Ok(b)) => a.lemma_represents_one(&b, heap, field_of(heap, raw as int, 0)),
            (Err(a), Err(b)) => a.lemma_represents_one(&b, heap, field_of(heap, raw as int, 0)),
            _ => {},
        }
    }

    fn to_ocaml(&self, cr: &mut OCamlRuntime) -> (r: OCaml<Result<OA, OE>>) {
        match self {
            Ok(a) => {
                let v = a.to_ocaml(cr);
                let ghost inner = cr.heap();
                let raw = cr.alloc_fields(TAG_OK, vec![v.get_raw()]);
                proof {
                    a.lemma_heap_growth(inner, cr.heap(), v.raw_word());
                }
                OCaml::new(raw)
            },
            Err(e) => {
                let v = e.to_ocaml(cr);
                let ghost inner = cr.heap();
                let raw = cr.alloc_fields(TAG_ERROR, vec![v.get_raw()]);
                proof {
                    e.lemma_heap_growth(inner, cr.heap(), v.raw_word());
                }
                OCaml::new(raw)
            },
        }
    }
}

/// Whether `raw` in `heap` is a list of exactly `n` cells ending in the empty list.
pub open spec fn is_list(heap: Seq<Block>, raw: int, n: nat) -> bool
    decreases n,
{
    if n == 0 {
        raw == EMPTY_LIST
    } else {
        is_fields_block(heap, raw, TAG_CONS, 2) && is_list(heap, field_of(heap, raw, 1) as int, (n - 1) as nat)
    }
}

/// The heads of the first `n` cells of the list at `raw`, in order.
pub open spec fn list_heads(heap: Seq<Block>, raw: int, n: nat) -> Seq<RawOCaml>
    decreases n,
{
    if n == 0 {
        Seq::empty()
    } else {
        seq![field_of(heap, raw, 0)] + list_heads(heap, field_of(heap, raw, 1) as int, (n - 1) as nat)
    }
}

/// A list keeps its cells and heads when the heap only grows.
pub proof fn lemma_list_growth(heap: Seq<Block>, grown: Seq<Block>, raw: int, n: nat)
    requires
        is_list(heap, raw, n),
        heap.is_prefix_of(grown),
    ensures
        is_list(grown, raw, n),
        list_heads(grown, raw, n) == list_heads(heap, raw, n),
    decreases n,
{
    if n > 0 {
        lemma_block_growth(heap, grown, raw);
        lemma_list_growth(heap, grown, field_of(heap, raw, 1) as int, (n - 1) as nat);
    }
}

/// A list has as many heads as cells.
pub proof fn lemma_list_heads_len(heap: Seq<Block>, raw: int, n: nat)
    ensures
        list_heads(heap, raw, n).len() == n,
    decreases n,
{
    if n > 0 {
        lemma_list_heads_len(heap, field_of(heap, raw, 1) as int, (n - 1) as nat);
    }
}

/// A word is a list of one length at most.
pub proof fn lemma_list_length_unique(heap: Seq<Block>, raw: int, n: nat, m: nat)
    requires
        is_list(heap, raw, n),
        is_list(heap, raw, m),
    ensures
        n == m,
    decreases n,
{
    if n > 0 && m > 0 {
        lemma_list_length_unique(heap, field_of(heap, raw, 1) as int, (n - 1) as nat, (m - 1) as nat);
    }
}

/// Blocks that converting the elements of `s` into a list allocates at most.
pub open spec fn list_blocks<A, OA>(s: Seq<A>) -> nat where A: ToOCaml<OA>
    decreases s.len(),
{
    if s.len() == 0 {
        0
    } else {
        list_blocks::<A, OA>(s.drop_last()) + s.last().blocks_needed() + 1
    }
}

/// A converted sequence `[a0, a1, ..., an-1]` is the empty-list immediate when
/// it is empty, and otherwise a cell whose head represents `a0` and whose tail
/// is a list whose heads represent `a1, ..., an-1` in order.
pub proof fn lemma_list_shape<A, OA>(v: Vec<A>, heap: Seq<Block>, raw: RawOCaml)
    where
        A: ToOCaml<OA>,
    requires
        <Vec<A> as ToOCaml<OCamlList<OA>>>::represented_by(&v, heap, raw),
    ensures
        v@.len() == 0 ==> raw == EMPTY_LIST,
        v@.len() > 0 ==> {
            let tail = field_of(heap, raw as int, 1) as int;
            &&& is_fields_block(heap, raw as int, TAG_CONS, 2)
            &&& v@[0].represented_by(heap, field_of(heap, raw as int, 0))
            &&& is_list(heap, tail, (v@.len() - 1) as nat)
            &&& forall|i: int|
                0 <= i < v@.len() - 1 ==> #[trigger] v@.drop_first()[i].represented_by(
                    heap,
                    list_heads(heap, tail, (v@.len() - 1) as nat)[i],
                )
        },
{
    let n = v@.len();
    if n > 0 {
        let tail = field_of(heap, raw as int, 1) as int;
        lemma_list_heads_len(heap, tail, (n - 1) as nat);
        assert(v@[0].represented_by(heap, list_heads(heap, raw as int, n)[0]));
        assert forall|i: int| 0 <= i < n - 1 implies #[trigger] v@.drop_first()[i].represented_by(
            heap,
            list_heads(heap, tail, (n - 1) as nat)[i],
        ) by {
            assert(v@[i + 1].represented_by(heap, list_heads(heap, raw as int, n)[i + 1]));
        }
    }
}

impl<A, OA> ToOCaml<OCamlList<OA>> for Vec<A> where A: ToOCaml<OA> {
    open spec fn blocks_needed(&self) -> nat {
        list_blocks::<A, OA>(self@)
    }

    open spec fn represented_by(&self, heap: Seq<Block>, raw: RawOCaml) -> bool {
        &&& is_list(heap, raw as int, self@.len())
        &&& forall|i: int|
            0 <= i < self@.len() ==> #[trigger] self@[i].represented_by(
                heap,
                list_heads(heap, raw as int, self@.len())[i],
            )
    }

    open spec fn same_value(&self, other: &Self) -> bool {
        &&& self@.len() == other@.len()
        &&& forall|i: int| 0 <= i < self@.len() ==> #[trigger] self@[i].same_value(&other@[i])
    }

    proof fn lemma_heap_growth(&self, heap: Seq<Block>, grown: Seq<Block>, raw: RawOCaml) {
        let n = self@.len();
        lemma_list_growth(heap, grown, raw as int, n);
        assert forall|i: int| 0 <= i < n implies #[trigger] self@[i].represented_by(
            grown,
            list_heads(grown, raw as int, n)[i],
        ) by {
            self@[i].lemma_heap_growth(heap, grown, list_heads(heap, raw as int, n)[i]);
        }
    }

    proof fn lemma_represents_one(&self, other: &Self, heap: Seq<Block>, raw: RawOCaml) {
        let n = self@.len();
        lemma_list_length_unique(heap, raw as int, n, other@.len());
        assert forall|i: int| 0 <= i < n implies #[trigger] self@[i].same_value(&other@[i]) by {
            assert(other@[i].represented_by(heap, list_heads(heap, raw as int, n)[i]));
            self@[i].lemma_represents_one(&other@[i], heap, list_heads(heap, raw as int, n)[i]);
        }
    }

    /// Builds the list from the last element to the first, consing each
    /// converted element onto the list built so far.
    fn to_ocaml(&self, cr: &mut OCamlRuntime) -> (r: OCaml<OCamlList<OA>>) {
        let ghost start = *cr;
        let n = self.len();
        let mut acc: RawOCaml = EMPTY_LIST;
        let mut i: usize = n;
        proof {
            assert(self@.take(n as int) =~= self@);
        }
        while i > 0
            invariant
                n == self@.len(),
                i <= n,
                heap_grown(start, *cr, list_blocks::<A, OA>(self@)),
                cr.heap().len() + list_blocks::<A, OA>(self@.take(i as int)) <= start.heap().len()
                    + list_blocks::<A, OA>(self@),
                start.heap().len() + list_blocks::<A, OA>(self@) <= MAX_BLOCKS,
                is_list(cr.heap(), acc as int, (n - i) as nat),
                forall|j: int|
                    i <= j < n ==> #[trigger] self@[j].represented_by(
                        cr.heap(),
                        list_heads(cr.heap(), acc as int, (n - i) as nat)[j - i],
                    ),
            decreases i,
        {
            proof {
                assert(self@.take(i as int).drop_last() =~= self@.take(i - 1));
                assert(self@.take(i as int).last() == self@[i - 1]);
            }
            let elt = &self[i - 1];
            let ghost h0 = cr.heap();
            let v = elt.to_ocaml(cr);
            let ghost h1 = cr.heap();
            let cell = cr.alloc_fields(TAG_CONS, vec![v.get_raw(), acc]);
            let ghost h2 = cr.heap();
            proof {
                let m = (n - i) as nat;
                assert(h0.is_prefix_of(h2));
                lemma_list_growth(h0, h2, acc as int, m);
                elt.lemma_heap_growth(h1, h2, v.raw_word());
                assert(field_of(h2, cell as int, 1) == acc);
                assert(field_of(h2, cell as int, 0) == v.raw_word());
                assert(is_list(h2, cell as int, m + 1));
                assert(list_heads(h2, cell as int, m + 1) == seq![v.raw_word()] + list_heads(h2, acc as int, m));
                lemma_list_heads_len(h2, acc as int, m);
                assert forall|j: int| i - 1 <= j < n implies #[trigger] self@[j].represented_by(
                    h2,
                    list_heads(h2, cell as int, m + 1)[j - (i - 1)],
                ) by {
                    if j >= i {
                        assert(list_heads(h2, cell as int, m + 1)[j - (i - 1)] == list_heads(h0, acc as int, m)[j - i]);
                        self@[j].lemma_heap_growth(h0, h2, list_heads(h0, acc as int, m)[j - i]);
                    } else {
                        assert(j == i - 1);
                        assert(list_heads(h2, cell as int, m + 1)[0] == v.raw_word());
                    }
                }
            }
            acc = cell;
            i = i - 1;
        }
        proof {
            assert forall|j: int| 0 <= j < n implies #[trigger] self@[j].represented_by(
                cr.heap(),
                list_heads(cr.heap(), acc as int, self@.len())[j],
            ) by {
                assert(i == 0);
                assert((n - i) as nat == self@.len());
                assert(j - i == j);
                assert(self@[j].represented_by(cr.heap(), list_heads(cr.heap(), acc as int, (n - i) as nat)[j - i]));
            }
        }
        OCaml::new(acc)
    }
}

impl<A, OA, B, OB> ToOCaml<(OA, OB)> for (A, B) where
    A: ToOCaml<OA>,
    B: ToOCaml<OB>,
 {
    open spec fn blocks_needed(&self) -> nat {
        self.0.blocks_needed() + self.1.blocks_needed() + 1
    }

    open spec fn represented_by(&self, heap: Seq<Block>, raw: RawOCaml) -> bool {
        &&& is_fields_block(heap, raw as int, TAG_TUPLE, 2)
        &&& self.0.represented_by(heap, field_of(heap, raw as int, 0))
        &&& self.1.represented_by(heap, field_of(heap, raw as int, 1))
    }

    open spec fn same_value(&self, other: &Self) -> bool {
        self.0.same_value(&other.0)
            && self.1.same_value(&other.1)
    }

    proof fn lemma_heap_growth(&self, heap: Seq<Block>, grown: Seq<Block>, raw: RawOCaml) {
        lemma_block_growth(heap, grown, raw as int);
        self.0.lemma_heap_growth(heap, grown, field_of(heap, raw as int, 0));
        self.1.lemma_heap_growth(heap, grown, field_of(heap, raw as int, 1));
    }

    proof fn lemma_represents_one(&self, other: &Self, heap: Seq<Block>, raw: RawOCaml) {
        self.0.lemma_represents_one(&other.0, heap, field_of(heap, raw as int, 0));
        self.1.lemma_represents_one(&other.1, heap, field_of(heap, raw as int, 1));
    }

    fn to_ocaml(&self, cr: &mut OCamlRuntime) -> (r: OCaml<(OA, OB)>) {
        let v0 = self.0.to_ocaml(cr);
        let ghost h0 = cr.heap();
        let v1 = self.1.to_ocaml(cr);
        let ghost h1 = cr.heap();
        let raw = cr.alloc_fields(TAG_TUPLE, vec![v0.get_raw(), v1.get_raw()]);
        proof {
            self.0.lemma_heap_growth(h0, cr.heap(), v0.raw_word());
            self.1.lemma_heap_growth(h1, cr.heap(), v1.raw_word());
        }
        OCaml::new(raw)
    }
}

impl<A, OA, B, OB, C, OC> ToOCaml<(OA, OB, OC)> for (A, B, C) where
    A: ToOCaml<OA>,
    B: ToOCaml<OB>,
    C: ToOCaml<OC>,
 {
    open spec fn blocks_needed(&self) -> nat {
        self.0.blocks_needed() + self.1.blocks_needed() + self.2.blocks_needed() + 1
    }

    open spec fn represented_by(&self, heap: Seq<Block>, raw: RawOCaml) -> bool {
        &&& is_fields_block(heap, raw as int, TAG_TUPLE, 3)
        &&& self.0.represented_by(heap, field_of(heap, raw as int, 0))
        &&& self.1.represented_by(heap, field_of(heap, raw as int, 1))
        &&& self.2.represented_by(heap, field_of(heap, raw as int, 2))
    }

    open spec fn same_value(&self, other: &Self) -> bool {
        self.0.same_value(&other.0)
            && self.1.same_value(&other.1)
            && self.2.same_value(&other.2)
    }

    proof fn lemma_heap_growth(&self, heap: Seq<Block>, grown: Seq<Block>, raw: RawOCaml) {
        lemma_block_growth(heap, grown, raw as int);
        self.0.lemma_heap_growth(heap, grown, field_of(heap, raw as int, 0));
        self.1.lemma_heap_growth(heap, grown, field_of(heap, raw as int, 1));
        self.2.lemma_heap_growth(heap, grown, field_of(heap, raw as int, 2));
    }

    proof fn lemma_represents_one(&self, other: &Self, heap: Seq<Block>, raw: RawOCaml) {
        self.0.lemma_represents_one(&other.0, heap, field_of(heap, raw as int, 0));
        self.1.lemma_represents_one(&other.1, heap, field_of(heap, raw as int, 1));
        self.2.lemma_represents_one(&other.2, heap, field_of(heap, raw as int, 2));
    }

    fn to_ocaml(&self, cr: &mut OCamlRuntime) -> (r: OCaml<(OA, OB, OC)>) {
        let v0 = self.0.to_ocaml(cr);
        let ghost h0 = cr.heap();
        let v1 = self.1.to_ocaml(cr);
        let ghost h1 = cr.heap();
        let v2 = self.2.to_ocaml(cr);
        let ghost h2 = cr.heap();
        let raw = cr.alloc_fields(TAG_TUPLE, vec![v0.get_raw(), v1.get_raw(), v2.get_raw()]);
        proof {
            self.0.lemma_heap_growth(h0, cr.heap(), v0.raw_word());
            self.1.lemma_heap_growth(h1, cr.heap(), v1.raw_word());
            self.2.lemma_heap_growth(h2, cr.heap(), v2.raw_word());
        }
        OCaml::new(raw)
    }
}

impl<A, OA, B, OB, C, OC, D, OD> ToOCaml<(OA, OB, OC, OD)> for (A, B, C, D) where
    A: ToOCaml<OA>,
    B: ToOCaml<OB>,
    C: ToOCaml<OC>,
    D: ToOCaml<OD>,
 {
    open spec fn blocks_needed(&self) -> nat {
        self.0.blocks_needed() + self.1.blocks_needed() + self.2.blocks_needed() + self.3.blocks_needed() + 1
    }

    open spec fn represented_by(&self, heap: Seq<Block>, raw: RawOCaml) -> bool {
        &&& is_fields_block(heap, raw as int, TAG_TUPLE, 4)
        &&& self.0.represented_by(heap, field_of(heap, raw as int, 0))
        &&& self.1.represented_by(heap, field_of(heap, raw as int, 1))
        &&& self.2.represented_by(heap, field_of(heap, raw as int, 2))
        &&& self.3.represented_by(heap, field_of(heap, raw as int, 3))
    }

    open spec fn same_value(&self, other: &Self) -> bool {
        self.0.same_value(&other.0)
            && self.1.same_value(&other.1)
            && self.2.same_value(&other.2)
            && self.3.same_value(&other.3)
    }

    proof fn lemma_heap_growth(&self, heap: Seq<Block>, grown: Seq<Block>, raw: RawOCaml) {
        lemma_block_growth(heap, grown, raw as int);
        self.0.lemma_heap_growth(heap, grown, field_of(heap, raw as int, 0));
        self.1.lemma_heap_growth(heap, grown, field_of(heap, raw as int, 1));
        self.2.lemma_heap_growth(heap, grown, field_of(heap, raw as int, 2));
        self.3.lemma_heap_growth(heap, grown, field_of(heap, raw as int, 3));
    }

    proof fn lemma_represents_one(&self, other: &Self, heap: Seq<Block>, raw: RawOCaml) {
        self.0.lemma_represents_one(&other.0, heap, field_of(heap, raw as int, 0));
        self.1.lemma_represents_one(&other.1, heap, field_of(heap, raw as int, 1));
        self.2.lemma_represents_one(&other.2, heap, field_of(heap, raw as int, 2));
        self.3.lemma_represents_one(&other.3, heap, field_of(heap, raw as int, 3));
    }

    fn to_ocaml(&self, cr: &mut OCamlRuntime) -> (r: OCaml<(OA, OB, OC, OD)>) {
        let v0 = self.0.to_ocaml(cr);
        let ghost h0 = cr.heap();
        let v1 = self.1.to_ocaml(cr);
        let ghost h1 = cr.heap();
        let v2 = self.2.to_ocaml(cr);
        let ghost h2 = cr.heap();
        let v3 = self.3.to_ocaml(cr);
        let ghost h3 = cr.heap();
        let raw = cr.alloc_fields(TAG_TUPLE, vec![v0.get_raw(), v1.get_raw(), v2.get_raw(), v3.get_raw()]);
        proof {
            self.0.lemma_heap_growth(h0, cr.heap(), v0.raw_word());
            self.1.lemma_heap_growth(h1, cr.heap(), v1.raw_word());
            self.2.lemma_heap_growth(h2, cr.heap(), v2.raw_word());
            self.3.lemma_heap_growth(h3, cr.heap(), v3.raw_word());
        }
        OCaml::new(raw)
    }
}

impl<A, OA, B, OB, C, OC, D, OD, E, OE> ToOCaml<(OA, OB, OC, OD, OE)> for (A, B, C, D, E) where
    A: ToOCaml<OA>,
    B: ToOCaml<OB>,
    C: ToOCaml<OC>,
    D: ToOCaml<OD>,
    E: ToOCaml<OE>,
 {
    open spec fn blocks_needed(&self) -> nat {
        self.0.blocks_needed() + self.1.blocks_needed() + self.2.blocks_needed() + self.3.blocks_needed() + self.4.blocks_needed() + 1
    }

    open spec fn represented_by(&self, heap: Seq<Block>, raw: RawOCaml) -> bool {
        &&& is_fields_block(heap, raw as int, TAG_TUPLE, 5)
        &&& self.0.represented_by(heap, field_of(heap, raw as int, 0))
        &&& self.1.represented_by(heap, field_of(heap, raw as int, 1))
        &&& self.2.represented_by(heap, field_of(heap, raw as int, 2))
        &&& self.3.represented_by(heap, field_of(heap, raw as int, 3))
        &&& self.4.represented_by(heap, field_of(heap, raw as int, 4))
    }

    open spec fn same_value(&self, other: &Self) -> bool {
        self.0.same_value(&other.0)
            && self.1.same_value(&other.1)
            && self.2.same_value(&other.2)
            && self.3.same_value(&other.3)
            && self.4.same_value(&other.4)
    }

    proof fn lemma_heap_growth(&self, heap: Seq<Block>, grown: Seq<Block>, raw: RawOCaml) {
        lemma_block_growth(heap, grown, raw as int);
        self.0.lemma_heap_growth(heap, grown, field_of(heap, raw as int, 0));
        self.1.lemma_heap_growth(heap, grown, field_of(heap, raw as int, 1));
        self.2.lemma_heap_growth(heap, grown, field_of(heap, raw as int, 2));
        self.3.lemma_heap_growth(heap, grown, field_of(heap, raw as int, 3));
        self.4.lemma_heap_growth(heap, grown, field_of(heap, raw as int, 4));
    }

    proof fn lemma_represents_one(&self, other: &Self, heap: Seq<Block>, raw: RawOCaml) {
        self.0.lemma_represents_one(&other.0, heap, field_of(heap, raw as int, 0));
        self.1.lemma_represents_one(&other.1, heap, field_of(heap, raw as int, 1));
        self.2.lemma_represents_one(&other.2, heap, field_of(heap, raw as int, 2));
        self.3.lemma_represents_one(&other.3, heap, field_of(heap, raw as int, 3));
        self.4.lemma_represents_one(&other.4, heap, field_of(heap, raw as int, 4));
    }

    fn to_ocaml(&self, cr: &mut OCamlRuntime) -> (r: OCaml<(OA, OB, OC, OD, OE)>) {
        let v0 = self.0.to_ocaml(cr);
        let ghost h0 = cr.heap();
        let v1 = self.1.to_ocaml(cr);
        let ghost h1 = cr.heap();
        let v2 = self.2.to_ocaml(cr);
        let ghost h2 = cr.heap();
        let v3 = self.3.to_ocaml(cr);
        let ghost h3 = cr.heap();
        let v4 = self.4.to_ocaml(cr);
        let ghost h4 = cr.heap();
        let raw = cr.alloc_fields(TAG_TUPLE, vec![v0.get_raw(), v1.get_raw(), v2.get_raw(), v3.get_raw(), v4.get_raw()]);
        proof {
            self.0.lemma_heap_growth(h0, cr.heap(), v0.raw_word());
            self.1.lemma_heap_growth(h1, cr.heap(), v1.raw_word());
            self.2.lemma_heap_growth(h2, cr.heap(), v2.raw_word());
            self.3.lemma_heap_growth(h3, cr.heap(), v3.raw_word());
            self.4.lemma_heap_growth(h4, cr.heap(), v4.raw_word());
        }
        OCaml::new(raw)
    }
}

impl<A, OA, B, OB, C, OC, D, OD, E, OE, F, OF> ToOCaml<(OA, OB, OC, OD, OE, OF)> for (A, B, C, D, E, F) where
    A: ToOCaml<OA>,
    B: ToOCaml<OB>,
    C: ToOCaml<OC>,
    D: ToOCaml<OD>,
    E: ToOCaml<OE>,
    F: ToOCaml<OF>,
 {
    open spec fn blocks_needed(&self) -> nat {
        self.0.blocks_needed() + self.1.blocks_needed() + self.2.blocks_needed() + self.3.blocks_needed() + self.4.blocks_needed() + self.5.blocks_needed() + 1
    }

    open spec fn represented_by(&self, heap: Seq<Block>, raw: RawOCaml) -> bool {
        &&& is_fields_block(heap, raw as int, TAG_TUPLE, 6)
        &&& self.0.represented_by(heap, field_of(heap, raw as int, 0))
        &&& self.1.represented_by(heap, field_of(heap, raw as int, 1))
        &&& self.2.represented_by(heap, field_of(heap, raw as int, 2))
        &&& self.3.represented_by(heap, field_of(heap, raw as int, 3))
        &&& self.4.represented_by(heap, field_of(heap, raw as int, 4))
        &&& self.5.represented_by(heap, field_of(heap, raw as int, 5))
    }

    open spec fn same_value(&self, other: &Self) -> bool {
        self.0.same_value(&other.0)
            && self.1.same_value(&other.1)
            && self.2.same_value(&other.2)
            && self.3.same_value(&other.3)
            && self.4.same_value(&other.4)
            && self.5.same_value(&other.5)
    }

    proof fn lemma_heap_growth(&self, heap: Seq<Block>, grown: Seq<Block>, raw: RawOCaml) {
        lemma_block_growth(heap, grown, raw as int);
        self.0.lemma_heap_growth(heap, grown, field_of(heap, raw as int, 0));
        self.1.lemma_heap_growth(heap, grown, field_of(heap, raw as int, 1));
        self.2.lemma_heap_growth(heap, grown, field_of(heap, raw as int, 2));
        self.3.lemma_heap_growth(heap, grown, field_of(heap, raw as int, 3));
        self.4.lemma_heap_growth(heap, grown, field_of(heap, raw as int, 4));
        self.5.lemma_heap_growth(heap, grown, field_of(heap, raw as int, 5));
    }

    proof fn lemma_represents_one(&self, other: &Self, heap: Seq<Block>, raw: RawOCaml) {
        self.0.lemma_represents_one(&other.0, heap, field_of(heap, raw as int, 0));
        self.1.lemma_represents_one(&other.1, heap, field_of(heap, raw as int, 1));
        self.2.lemma_represents_one(&other.2, heap, field_of(heap, raw as int, 2));
        self.3.lemma_represents_one(&other.3, heap, field_of(heap, raw as int, 3));
        self.4.lemma_represents_one(&other.4, heap, field_of(heap, raw as int, 4));
        self.5.lemma_represents_one(&other.5, heap, field_of(heap, raw as int, 5));
    }

    fn to_ocaml(&self, cr: &mut OCamlRuntime) -> (r: OCaml<(OA, OB, OC, OD, OE, OF)>) {
        let v0 = self.0.to_ocaml(cr);
        let ghost h0 = cr.heap();
        let v1 = self.1.to_ocaml(cr);
        let ghost h1 = cr.heap();
        let v2 = self.2.to_ocaml(cr);
        let ghost h2 = cr.heap();
        let v3 = self.3.to_ocaml(cr);
        let ghost h3 = cr.heap();
        let v4 = self.4.to_ocaml(cr);
        let ghost h4 = cr.heap();
        let v5 = self.5.to_ocaml(cr);
        let ghost h5 = cr.heap();
        let raw = cr.alloc_fields(TAG_TUPLE, vec![v0.get_raw(), v1.get_raw(), v2.get_raw(), v3.get_raw(), v4.get_raw(), v5.get_raw()]);
        proof {
            self.0.lemma_heap_growth(h0, cr.heap(), v0.raw_word());
            self.1.lemma_heap_growth(h1, cr.heap(), v1.raw_word());
            self.2.lemma_heap_growth(h2, cr.heap(), v2.raw_word());
            self.3.lemma_heap_growth(h3, cr.heap(), v3.raw_word());
            self.4.lemma_heap_growth(h4, cr.heap(), v4.raw_word());
            self.5.lemma_heap_growth(h5, cr.heap(), v5.raw_word());
        }
        OCaml::new(raw)
    }
}

impl<A, OA, B, OB, C, OC, D, OD, E, OE, F, OF, G, OG> ToOCaml<(OA, OB, OC, OD, OE, OF, OG)> for (A, B, C, D, E, F, G) where
    A: ToOCaml<OA>,
    B: ToOCaml<OB>,
    C: ToOCaml<OC>,
    D: ToOCaml<OD>,
    E: ToOCaml<OE>,
    F: ToOCaml<OF>,
    G: ToOCaml<OG>,
 {
    open spec fn blocks_needed(&self) -> nat {
        self.0.blocks_needed() + self.1.blocks_needed() + self.2.blocks_needed() + self.3.blocks_needed() + self.4.blocks_needed() + self.5.blocks_needed() + self.6.blocks_needed() + 1
    }

    open spec fn represented_by(&self, heap: Seq<Block>, raw: RawOCaml) -> bool {
        &&& is_fields_block(heap, raw as int, TAG_TUPLE, 7)
        &&& self.0.represented_by(heap, field_of(heap, raw as int, 0))
        &&& self.1.represented_by(heap, field_of(heap, raw as int, 1))
        &&& self.2.represented_by(heap, field_of(heap, raw as int, 2))
        &&& self.3.represented_by(heap, field_of(heap, raw as int, 3))
        &&& self.4.represented_by(heap, field_of(heap, raw as int, 4))
        &&& self.5.represented_by(heap, field_of(heap, raw as int, 5))
        &&& self.6.represented_by(heap, field_of(heap, raw as int, 6))
    }

    open spec fn same_value(&self, other: &Self) -> bool {
        self.0.same_value(&other.0)
            && self.1.same_value(&other.1)
            && self.2.same_value(&other.2)
            && self.3.same_value(&other.3)
            && self.4.same_value(&other.4)
            && self.5.same_value(&other.5)
            && self.6.same_value(&other.6)
    }

    proof fn lemma_heap_growth(&self, heap: Seq<Block>, grown: Seq<Block>, raw: RawOCaml) {
        lemma_block_growth(heap, grown, raw as int);
        self.0.lemma_heap_growth(heap, grown, field_of(heap, raw as int, 0));
        self.1.lemma_heap_growth(heap, grown, field_of(heap, raw as int, 1));
        self.2.lemma_heap_growth(heap, grown, field_of(heap, raw as int, 2));
        self.3.lemma_heap_growth(heap, grown, field_of(heap, raw as int, 3));
        self.4.lemma_heap_growth(heap, grown, field_of(heap, raw as int, 4));
        self.5.lemma_heap_growth(heap, grown, field_of(heap, raw as int, 5));
        self.6.lemma_heap_growth(heap, grown, field_of(heap, raw as int, 6));
    }

    proof fn lemma_represents_one(&self, other: &Self, heap: Seq<Block>, raw: RawOCaml) {
        self.0.lemma_represents_one(&other.0, heap, field_of(heap, raw as int, 0));
        self.1.lemma_represents_one(&other.1, heap, field_of(heap, raw as int, 1));
        self.2.lemma_represents_one(&other.2, heap, field_of(heap, raw as int, 2));
        self.3.lemma_represents_one(&other.3, heap, field_of(heap, raw as int, 3));
        self.4.lemma_represents_one(&other.4, heap, field_of(heap, raw as int, 4));
        self.5.lemma_represents_one(&other.5, heap, field_of(heap, raw as int, 5));
        self.6.lemma_represents_one(&other.6, heap, field_of(heap, raw as int, 6));
    }

    fn to_ocaml(&self, cr: &mut OCamlRuntime) -> (r: OCaml<(OA, OB, OC, OD, OE, OF, OG)>) {
        let v0 = self.0.to_ocaml(cr);
        let ghost h0 = cr.heap();
        let v1 = self.1.to_ocaml(cr);
        let ghost h1 = cr.heap();
        let v2 = self.2.to_ocaml(cr);
        let ghost h2 = cr.heap();
        let v3 = self.3.to_ocaml(cr);
        let ghost h3 = cr.heap();
        let v4 = self.4.to_ocaml(cr);
        let ghost h4 = cr.heap();
        let v5 = self.5.to_ocaml(cr);
        let ghost h5 = cr.heap();
        let v6 = self.6.to_ocaml(cr);
        let ghost h6 = cr.heap();
        let raw = cr.alloc_fields(TAG_TUPLE, vec![v0.get_raw(), v1.get_raw(), v2.get_raw(), v3.get_raw(), v4.get_raw(), v5.get_raw(), v6.get_raw()]);
        proof {
            self.0.lemma_heap_growth(h0, cr.heap(), v0.raw_word());
            self.1.lemma_heap_growth(h1, cr.heap(), v1.raw_word());
            self.2.lemma_heap_growth(h2, cr.heap(), v2.raw_word());
            self.3.lemma_heap_growth(h3, cr.heap(), v3.raw_word());
            self.4.lemma_heap_growth(h4, cr.heap(), v4.raw_word());
            self.5.lemma_heap_growth(h5, cr.heap(), v5.raw_word());
            self.6.lemma_heap_growth(h6, cr.heap(), v6.raw_word());
        }
        OCaml::new(raw)
    }
}

impl<A, OA, B, OB, C, OC, D, OD, E, OE, F, OF, G, OG, H, OH> ToOCaml<(OA, OB, OC, OD, OE, OF, OG, OH)> for (A, B, C, D, E, F, G, H) where
    A: ToOCaml<OA>,
    B: ToOCaml<OB>,
    C: ToOCaml<OC>,
    D: ToOCaml<OD>,
    E: ToOCaml<OE>,
    F: ToOCaml<OF>,
    G: ToOCaml<OG>,
    H: ToOCaml<OH>,
 {
    open spec fn blocks_needed(&self) -> nat {
        self.0.blocks_needed() + self.1.blocks_needed() + self.2.blocks_needed() + self.3.blocks_needed() + self.4.blocks_needed() + self.5.blocks_needed() + self.6.blocks_needed() + self.7.blocks_needed() + 1
    }

    open spec fn represented_by(&self, heap: Seq<Block>, raw: RawOCaml) -> bool {
        &&& is_fields_block(heap, raw as int, TAG_TUPLE, 8)
        &&& self.0.represented_by(heap, field_of(heap, raw as int, 0))
        &&& self.1.represented_by(heap, field_of(heap, raw as int, 1))
        &&& self.2.represented_by(heap, field_of(heap, raw as int, 2))
        &&& self.3.represented_by(heap, field_of(heap, raw as int, 3))
        &&& self.4.represented_by(heap, field_of(heap, raw as int, 4))
        &&& self.5.represented_by(heap, field_of(heap, raw as int, 5))
        &&& self.6.represented_by(heap, field_of(heap, raw as int, 6))
        &&& self.7.represented_by(heap, field_of(heap, raw as int, 7))
    }

    open spec fn same_value(&self, other: &Self) -> bool {
        self.0.same_value(&other.0)
            && self.1.same_value(&other.1)
            && self.2.same_value(&other.2)
            && self.3.same_value(&other.3)
            && self.4.same_value(&other.4)
            && self.5.same_value(&other.5)
            && self.6.same_value(&other.6)
            && self.7.same_value(&other.7)
    }

    proof fn lemma_heap_growth(&self, heap: Seq<Block>, grown: Seq<Block>, raw: RawOCaml) {
        lemma_block_growth(heap, grown, raw as int);
        self.0.lemma_heap_growth(heap, grown, field_of(heap, raw as int, 0));
        self.1.lemma_heap_growth(heap, grown, field_of(heap, raw as int, 1));
        self.2.lemma_heap_growth(heap, grown, field_of(heap, raw as int, 2));
        self.3.lemma_heap_growth(heap, grown, field_of(heap, raw as int, 3));
        self.4.lemma_heap_growth(heap, grown, field_of(heap, raw as int, 4));
        self.5.lemma_heap_growth(heap, grown, field_of(heap, raw as int, 5));
        self.6.lemma_heap_growth(heap, grown, field_of(heap, raw as int, 6));
        self.7.lemma_heap_growth(heap, grown, field_of(heap, raw as int, 7));
    }

    proof fn lemma_represents_one(&self, other: &Self, heap: Seq<Block>, raw: RawOCaml) {
        self.0.lemma_represents_one(&other.0, heap, field_of(heap, raw as int, 0));
        self.1.lemma_represents_one(&other.1, heap, field_of(heap, raw as int, 1));
        self.2.lemma_represents_one(&other.2, heap, field_of(heap, raw as int, 2));
        self.3.lemma_represents_one(&other.3, heap, field_of(heap, raw as int, 3));
        self.4.lemma_represents_one(&other.4, heap, field_of(heap, raw as int, 4));
        self.5.lemma_represents_one(&other.5, heap, field_of(heap, raw as int, 5));
        self.6.lemma_represents_one(&other.6, heap, field_of(heap, raw as int, 6));
        self.7.lemma_represents_one(&other.7, heap, field_of(heap, raw as int, 7));
    }

    fn to_ocaml(&self, cr: &mut OCamlRuntime) -> (r: OCaml<(OA, OB, OC, OD, OE, OF, OG, OH)>) {
        let v0 = self.0.to_ocaml(cr);
        let ghost h0 = cr.heap();
        let v1 = self.1.to_ocaml(cr);
        let ghost h1 = cr.heap();
        let v2 = self.2.to_ocaml(cr);
        let ghost h2 = cr.heap();
        let v3 = self.3.to_ocaml(cr);
        let ghost h3 = cr.heap();
        let v4 = self.4.to_ocaml(cr);
        let ghost h4 = cr.heap();
        let v5 = self.5.to_ocaml(cr);
        let ghost h5 = cr.heap();
        let v6 = self.6.to_ocaml(cr);
        let ghost h6 = cr.heap();
        let v7 = self.7.to_ocaml(cr);
        let ghost h7 = cr.heap();
        let raw = cr.alloc_fields(TAG_TUPLE, vec![v0.get_raw(), v1.get_raw(), v2.get_raw(), v3.get_raw(), v4.get_raw(), v5.get_raw(), v6.get_raw(), v7.get_raw()]);
        proof {
            self.0.lemma_heap_growth(h0, cr.heap(), v0.raw_word());
            self.1.lemma_heap_growth(h1, cr.heap(), v1.raw_word());
            self.2.lemma_heap_growth(h2, cr.heap(), v2.raw_word());
            self.3.lemma_heap_growth(h3, cr.heap(), v3.raw_word());
            self.4.lemma_heap_growth(h4, cr.heap(), v4.raw_word());
            self.5.lemma_heap_growth(h5, cr.heap(), v5.raw_word());
            self.6.lemma_heap_growth(h6, cr.heap(), v6.raw_word());
            self.7.lemma_heap_growth(h7, cr.heap(), v7.raw_word());
        }
        OCaml::new(raw)
    }
}

impl<A, OA, B, OB, C, OC, D, OD, E, OE, F, OF, G, OG, H, OH, I, OI> ToOCaml<(OA, OB, OC, OD, OE, OF, OG, OH, OI)> for (A, B, C, D, E, F, G, H, I) where
    A: ToOCaml<OA>,
    B: ToOCaml<OB>,
    C: ToOCaml<OC>,
    D: ToOCaml<OD>,
    E: ToOCaml<OE>,
    F: ToOCaml<OF>,
    G: ToOCaml<OG>,
    H: ToOCaml<OH>,
    I: ToOCaml<OI>,
 {
    open spec fn blocks_needed(&self) -> nat {
        self.0.blocks_needed() + self.1.blocks_needed() + self.2.blocks_needed() + self.3.blocks_needed() + self.4.blocks_needed() + self.5.blocks_needed() + self.6.blocks_needed() + self.7.blocks_needed() + self.8.blocks_needed() + 1
    }

    open spec fn represented_by(&self, heap: Seq<Block>, raw: RawOCaml) -> bool {
        &&& is_fields_block(heap, raw as int, TAG_TUPLE, 9)
        &&& self.0.represented_by(heap, field_of(heap, raw as int, 0))
        &&& self.1.represented_by(heap, field_of(heap, raw as int, 1))
        &&& self.2.represented_by(heap, field_of(heap, raw as int, 2))
        &&& self.3.represented_by(heap, field_of(heap, raw as int, 3))
        &&& self.4.represented_by(heap, field_of(heap, raw as int, 4))
        &&& self.5.represented_by(heap, field_of(heap, raw as int, 5))
        &&& self.6.represented_by(heap, field_of(heap, raw as int, 6))
        &&& self.7.represented_by(heap, field_of(heap, raw as int, 7))
        &&& self.8.represented_by(heap, field_of(heap, raw as int, 8))
    }

    open spec fn same_value(&self, other: &Self) -> bool {
        self.0.same_value(&other.0)
            && self.1.same_value(&other.1)
            && self.2.same_value(&other.2)
            && self.3.same_value(&other.3)
            && self.4.same_value(&other.4)
            && self.5.same_value(&other.5)
            && self.6.same_value(&other.6)
            && self.7.same_value(&other.7)
            && self.8.same_value(&other.8)
    }

    proof fn lemma_heap_growth(&self, heap: Seq<Block>, grown: Seq<Block>, raw: RawOCaml) {
        lemma_block_growth(heap, grown, raw as int);
        self.0.lemma_heap_growth(heap, grown, field_of(heap, raw as int, 0));
        self.1.lemma_heap_growth(heap, grown, field_of(heap, raw as int, 1));
        self.2.lemma_heap_growth(heap, grown, field_of(heap, raw as int, 2));
        self.3.lemma_heap_growth(heap, grown, field_of(heap, raw as int, 3));
        self.4.lemma_heap_growth(heap, grown, field_of(heap, raw as int, 4));
        self.5.lemma_heap_growth(heap, grown, field_of(heap, raw as int, 5));
        self.6.lemma_heap_growth(heap, grown, field_of(heap, raw as int, 6));
        self.7.lemma_heap_growth(heap, grown, field_of(heap, raw as int, 7));
        self.8.lemma_heap_growth(heap, grown, field_of(heap, raw as int, 8));
    }

    proof fn lemma_represents_one(&self, other: &Self, heap: Seq<Block>, raw: RawOCaml) {
        self.0.lemma_represents_one(&other.0, heap, field_of(heap, raw as int, 0));
        self.1.lemma_represents_one(&other.1, heap, field_of(heap, raw as int, 1));
        self.2.lemma_represents_one(&other.2, heap, field_of(heap, raw as int, 2));
        self.3.lemma_represents_one(&other.3, heap, field_of(heap, raw as int, 3));
        self.4.lemma_represents_one(&other.4, heap, field_of(heap, raw as int, 4));
        self.5.lemma_represents_one(&other.5, heap, field_of(heap, raw as int, 5));
        self.6.lemma_represents_one(&other.6, heap, field_of(heap, raw as int, 6));
        self.7.lemma_represents_one(&other.7, heap, field_of(heap, raw as int, 7));
        self.8.lemma_represents_one(&other.8, heap, field_of(heap, raw as int, 8));
    }

    fn to_ocaml(&self, cr: &mut OCamlRuntime) -> (r: OCaml<(OA, OB, OC, OD, OE, OF, OG, OH, OI)>) {
        let v0 = self.0.to_ocaml(cr);
        let ghost h0 = cr.heap();
        let v1 = self.1.to_ocaml(cr);
        let ghost h1 = cr.heap();
        let v2 = self.2.to_ocaml(cr);
        let ghost h2 = cr.heap();
        let v3 = self.3.to_ocaml(cr);
        let ghost h3 = cr.heap();
        let v4 = self.4.to_ocaml(cr);
        let ghost h4 = cr.heap();
        let v5 = self.5.to_ocaml(cr);
        let ghost h5 = cr.heap();
        let v6 = self.6.to_ocaml(cr);
        let ghost h6 = cr.heap();
        let v7 = self.7.to_ocaml(cr);
        let ghost h7 = cr.heap();
        let v8 = self.8.to_ocaml(cr);
        let ghost h8 = cr.heap();
        let raw = cr.alloc_fields(TAG_TUPLE, vec![v0.get_raw(), v1.get_raw(), v2.get_raw(), v3.get_raw(), v4.get_raw(), v5.get_raw(), v6.get_raw(), v7.get_raw(), v8.get_raw()]);
        proof {
            self.0.lemma_heap_growth(h0, cr.heap(), v0.raw_word());
            self.1.lemma_heap_growth(h1, cr.heap(), v1.raw_word());
            self.2.lemma_heap_growth(h2, cr.heap(), v2.raw_word());
            self.3.lemma_heap_growth(h3, cr.heap(), v3.raw_word());
            self.4.lemma_heap_growth(h4, cr.heap(), v4.raw_word());
            self.5.lemma_heap_growth(h5, cr.heap(), v5.raw_word());
            self.6.lemma_heap_growth(h6, cr.heap(), v6.raw_word());
            self.7.lemma_heap_growth(h7, cr.heap(), v7.raw_word());
            self.8.lemma_heap_growth(h8, cr.heap(), v8.raw_word());
        }
        OCaml::new(raw)
    }
}

} // verus!
