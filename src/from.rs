//! Reading values of the runtime's heap back into native values.
use vstd::prelude::*;
use vstd::utf8::{encode_utf8, valid_utf8};
use crate::conv::{is_bytes_block, is_list, lemma_list_heads_len, list_heads, ToOCaml};
use crate::mlvalues::{
    fixnum, raw_to_bool, raw_to_int, RawOCaml, EMPTY_LIST, NONE, TAG_ERROR, TAG_OK,
};
use crate::runtime::{addresses_block, block_at, field_of, is_fields_block, Block, OCamlRuntime};
use crate::value::{OCaml, OCamlBytes, OCamlInt, OCamlInt32, OCamlInt64, OCamlList};

verus! {

/// Whether `raw` in `heap` represents some native value of type `A`.
pub open spec fn represents_some<T, A: ToOCaml<T>>(heap: Seq<Block>, raw: RawOCaml) -> bool {
    exists|x: A| #[trigger] x.represented_by(heap, raw)
}

/// Reads values of the runtime whose shape is `T` into native values.
pub trait FromOCaml<T>: ToOCaml<T> {
    /// Reads the native value that `v` represents.
    fn from_ocaml(v: &OCaml<T>, cr: &OCamlRuntime) -> (r: Self)
        requires
            represents_some::<T, Self>(cr.heap(), v.raw_word()),
        ensures
            r.represented_by(cr.heap(), v.raw_word()),
    ;
}

/// Converting a native value and reading the result back gives the same
/// value: whatever reads back from the word that a value converted to is that
/// value again.
pub proof fn lemma_round_trip<T, A: FromOCaml<T>>(v: A, back: A, heap: Seq<Block>, raw: RawOCaml)
    requires
        v.represented_by(heap, raw),
        back.represented_by(heap, raw),
    ensures
        v.same_value(&back),
{
    v.lemma_represents_one(&back, heap, raw);
}

/// Whether a result of the runtime is a success, read from its tag alone,
/// whatever its payload holds.
pub fn is_ok_result<OA, OE>(v: &OCaml<Result<OA, OE>>, cr: &OCamlRuntime) -> (r: bool)
    requires
        addresses_block(cr.heap(), v.raw_word() as int),
        block_at(cr.heap(), v.raw_word() as int) is Fields,
    ensures
        r == (block_at(cr.heap(), v.raw_word() as int)->Fields_tag == TAG_OK),
{
    cr.tag_of(v) == TAG_OK
}

/// A failure converts to a block tagged as a failure whose one field is the
/// payload's own conversion, so reading its tag gives a failure whatever the
/// payload is.
pub proof fn lemma_error_tag<A, OA, E, OE>(r: Result<A, E>, heap: Seq<Block>, raw: RawOCaml)
    where
        A: ToOCaml<OA>,
        E: ToOCaml<OE>,
    requires
        r is Err,
        <Result<A, E> as ToOCaml<Result<OA, OE>>>::represented_by(&r, heap, raw),
    ensures
        is_fields_block(heap, raw as int, TAG_ERROR, 1),
        block_at(heap, raw as int)->Fields_tag != TAG_OK,
        r->Err_0.represented_by(heap, field_of(heap, raw as int, 0)),
{
}

/// Relies on `String::from_utf8`: the bytes become the string's bytes exactly
/// when they are valid UTF-8.
#[verifier::external_body]
fn string_from_utf8(bytes: Vec<u8>) -> (r: Option<String>)
    ensures
        r is Some <==> valid_utf8(bytes@),
        r matches Some(s) ==> encode_utf8(s@) == bytes@,
{
    String::from_utf8(bytes).ok()
}

/// The bytes of the byte block that `raw` addresses.
fn read_bytes(cr: &OCamlRuntime, raw: RawOCaml) -> (r: Vec<u8>)
    requires
        exists|bytes: Seq<u8>| is_bytes_block(cr.heap(), raw as int, bytes),
    ensures
        is_bytes_block(cr.heap(), raw as int, r@),
{
    match cr.block(raw) {
        Block::Bytes { data } => vstd::slice::slice_to_vec(data.as_slice()),
        _ => Vec::new(),
    }
}

impl FromOCaml<OCamlInt> for i64 {
    fn from_ocaml(v: &OCaml<OCamlInt>, cr: &OCamlRuntime) -> (r: Self) {
        let r = raw_to_int(v.get_raw());
        proof {
            let x = choose|x: i64| #[trigger] <i64 as ToOCaml<OCamlInt>>::represented_by(&x, cr.heap(), v.raw_word());
            assert(v.raw_word() as int == fixnum(x as int));
        }
        r
    }
}

impl FromOCaml<bool> for bool {
    fn from_ocaml(v: &OCaml<bool>, cr: &OCamlRuntime) -> (r: Self) {
        raw_to_bool(v.get_raw())
    }
}

impl FromOCaml<OCamlInt64> for i64 {
    fn from_ocaml(v: &OCaml<OCamlInt64>, cr: &OCamlRuntime) -> (r: Self) {
        match cr.block(v.get_raw()) {
            Block::Int64 { int64 } => *int64,
            _ => 0,
        }
    }
}

impl FromOCaml<OCamlInt32> for i32 {
    fn from_ocaml(v: &OCaml<OCamlInt32>, cr: &OCamlRuntime) -> (r: Self) {
        match cr.block(v.get_raw()) {
            Block::Int32 { int32 } => *int32,
            _ => 0,
        }
    }
}

impl FromOCaml<OCamlBytes> for Vec<u8> {
    fn from_ocaml(v: &OCaml<OCamlBytes>, cr: &OCamlRuntime) -> (r: Self) {
        read_bytes(cr, v.get_raw())
    }
}

impl FromOCaml<String> for String {
    fn from_ocaml(v: &OCaml<String>, cr: &OCamlRuntime) -> (r: Self) {
        let ghost x = choose|x: String| #[trigger] <String as ToOCaml<String>>::represented_by(&x, cr.heap(), v.raw_word());
        let bytes = read_bytes(cr, v.get_raw());
        proof {
            vstd::utf8::encode_utf8_valid_utf8(x@);
        }
        match string_from_utf8(bytes) {
            Some(s) => s,
            None => String::new(),
        }
    }
}

impl<A, OA> FromOCaml<Option<OA>> for Option<A> where A: FromOCaml<OA> {
    fn from_ocaml(v: &OCaml<Option<OA>>, cr: &OCamlRuntime) -> (r: Self) {
        let ghost x = choose|x: Option<A>| #[trigger] x.represented_by(cr.heap(), v.raw_word());
        let raw = v.get_raw();
        if raw == NONE {
            None
        } else {
            let inner: OCaml<OA> = OCaml::new(cr.field(raw, 0));
            proof {
                let a = x->Some_0;
                assert(a.represented_by(cr.heap(), inner.raw_word()));
            }
            Some(A::from_ocaml(&inner, cr))
        }
    }
}

impl<A, OA, E, OE> FromOCaml<Result<OA, OE>> for Result<A, E> where A: FromOCaml<OA>, E: FromOCaml<OE> {
    fn from_ocaml(v: &OCaml<Result<OA, OE>>, cr: &OCamlRuntime) -> (r: Self) {
        let ghost x = choose|x: Result<A, E>| #[trigger] x.represented_by(cr.heap(), v.raw_word());
        let raw = v.get_raw();
        let field = cr.field(raw, 0);
        if cr.tag_of(v) == TAG_OK {
            let inner: OCaml<OA> = OCaml::new(field);
            proof {
                assert(x.represented_by(cr.heap(), raw));
                let a = x->Ok_0;
                assert(a.represented_by(cr.heap(), inner.raw_word()));
            }
            Ok(A::from_ocaml(&inner, cr))
        } else {
            let inner: OCaml<OE> = OCaml::new(field);
            proof {
                let e = x->Err_0;
                assert(e.represented_by(cr.heap(), inner.raw_word()));
            }
            Err(E::from_ocaml(&inner, cr))
        }
    }
}

impl<A, OA> FromOCaml<OCamlList<OA>> for Vec<A> where A: FromOCaml<OA> {
    /// Walks the list cell by cell, reading each head.
    fn from_ocaml(v: &OCaml<OCamlList<OA>>, cr: &OCamlRuntime) -> (r: Self) {
        let ghost x = choose|x: Vec<A>| #[trigger] x.represented_by(cr.heap(), v.raw_word());
        let ghost n = x@.len();
        let ghost heap = cr.heap();
        let ghost heads = list_heads(heap, v.raw_word() as int, n);
        let ghost mut read: Seq<RawOCaml> = Seq::empty();
        let mut out: Vec<A> = Vec::new();
        let mut cur = v.get_raw();
        proof {
            lemma_list_heads_len(heap, v.raw_word() as int, n);
        }
        while cur != EMPTY_LIST
            invariant
                heap == cr.heap(),
                x.represented_by(heap, v.raw_word()),
                n == x@.len(),
                heads == list_heads(heap, v.raw_word() as int, n),
                heads.len() == n,
                out@.len() == read.len(),
                read.len() <= n,
                is_list(heap, cur as int, (n - read.len()) as nat),
                heads == read + list_heads(heap, cur as int, (n - read.len()) as nat),
                forall|j: int| 0 <= j < out@.len() ==> #[trigger] out@[j].represented_by(heap, heads[j]),
            decreases n - read.len(),
        {
            let k = out.len();
            let ghost m = (n - read.len()) as nat;
            proof {
                if m == 0 {
                    assert(cur == EMPTY_LIST);
                }
            }
            let head = cr.field(cur, 0);
            let next = cr.field(cur, 1);
            proof {
                assert(list_heads(heap, cur as int, m) == seq![head] + list_heads(heap, next as int, (m - 1) as nat));
                assert(heads[k as int] == head);
                assert(x@[k as int].represented_by(heap, heads[k as int]));
            }
            let inner: OCaml<OA> = OCaml::new(head);
            let a = A::from_ocaml(&inner, cr);
            out.push(a);
            proof {
                read = read.push(head);
                assert(heads == read + list_heads(heap, next as int, (n - read.len()) as nat));
            }
            cur = next;
        }
        proof {
            let m = (n - read.len()) as nat;
            if m > 0 {
                assert(cur as int % 2 == 0);
            }
            assert(out@.len() == n);
            assert(heads == read + list_heads(heap, cur as int, 0));
            assert(heads =~= read);
        }
        out
    }
}

impl<A, OA, B, OB> FromOCaml<(OA, OB)> for (A, B) where
    A: FromOCaml<OA>,
    B: FromOCaml<OB>,
 {
    fn from_ocaml(v: &OCaml<(OA, OB)>, cr: &OCamlRuntime) -> (r: Self) {
        let ghost x = choose|x: (A, B)| #[trigger] x.represented_by(cr.heap(), v.raw_word());
        let raw = v.get_raw();
        let f0: OCaml<OA> = OCaml::new(cr.field(raw, 0));
        let f1: OCaml<OB> = OCaml::new(cr.field(raw, 1));
        proof {
            assert(x.0.represented_by(cr.heap(), f0.raw_word()));
            assert(x.1.represented_by(cr.heap(), f1.raw_word()));
        }
        (A::from_ocaml(&f0, cr), B::from_ocaml(&f1, cr))
    }
}

impl<A, OA, B, OB, C, OC> FromOCaml<(OA, OB, OC)> for (A, B, C) where
    A: FromOCaml<OA>,
    B: FromOCaml<OB>,
    C: FromOCaml<OC>,
 {
    fn from_ocaml(v: &OCaml<(OA, OB, OC)>, cr: &OCamlRuntime) -> (r: Self) {
        let ghost x = choose|x: (A, B, C)| #[trigger] x.represented_by(cr.heap(), v.raw_word());
        let raw = v.get_raw();
        let f0: OCaml<OA> = OCaml::new(cr.field(raw, 0));
        let f1: OCaml<OB> = OCaml::new(cr.field(raw, 1));
        let f2: OCaml<OC> = OCaml::new(cr.field(raw, 2));
        proof {
            assert(x.0.represented_by(cr.heap(), f0.raw_word()));
            assert(x.1.represented_by(cr.heap(), f1.raw_word()));
            assert(x.2.represented_by(cr.heap(), f2.raw_word()));
        }
        (A::from_ocaml(&f0, cr), B::from_ocaml(&f1, cr), C::from_ocaml(&f2, cr))
    }
}

impl<A, OA, B, OB, C, OC, D, OD> FromOCaml<(OA, OB, OC, OD)> for (A, B, C, D) where
    A: FromOCaml<OA>,
    B: FromOCaml<OB>,
    C: FromOCaml<OC>,
    D: FromOCaml<OD>,
 {
    fn from_ocaml(v: &OCaml<(OA, OB, OC, OD)>, cr: &OCamlRuntime) -> (r: Self) {
        let ghost x = choose|x: (A, B, C, D)| #[trigger] x.represented_by(cr.heap(), v.raw_word());
        let raw = v.get_raw();
        let f0: OCaml<OA> = OCaml::new(cr.field(raw, 0));
        let f1: OCaml<OB> = OCaml::new(cr.field(raw, 1));
        let f2: OCaml<OC> = OCaml::new(cr.field(raw, 2));
        let f3: OCaml<OD> = OCaml::new(cr.field(raw, 3));
        proof {
            assert(x.0.represented_by(cr.heap(), f0.raw_word()));
            assert(x.1.represented_by(cr.heap(), f1.raw_word()));
            assert(x.2.represented_by(cr.heap(), f2.raw_word()));
            assert(x.3.represented_by(cr.heap(), f3.raw_word()));
        }
        (A::from_ocaml(&f0, cr), B::from_ocaml(&f1, cr), C::from_ocaml(&f2, cr), D::from_ocaml(&f3, cr))
    }
}

impl<A, OA, B, OB, C, OC, D, OD, E, OE> FromOCaml<(OA, OB, OC, OD, OE)> for (A, B, C, D, E) where
    A: FromOCaml<OA>,
    B: FromOCaml<OB>,
    C: FromOCaml<OC>,
    D: FromOCaml<OD>,
    E: FromOCaml<OE>,
 {
    fn from_ocaml(v: &OCaml<(OA, OB, OC, OD, OE)>, cr: &OCamlRuntime) -> (r: Self) {
        let ghost x = choose|x: (A, B, C, D, E)| #[trigger] x.represented_by(cr.heap(), v.raw_word());
        let raw = v.get_raw();
        let f0: OCaml<OA> = OCaml::new(cr.field(raw, 0));
        let f1: OCaml<OB> = OCaml::new(cr.field(raw, 1));
        let f2: OCaml<OC> = OCaml::new(cr.field(raw, 2));
        let f3: OCaml<OD> = OCaml::new(cr.field(raw, 3));
        let f4: OCaml<OE> = OCaml::new(cr.field(raw, 4));
        proof {
            assert(x.0.represented_by(cr.heap(), f0.raw_word()));
            assert(x.1.represented_by(cr.heap(), f1.raw_word()));
            assert(x.2.represented_by(cr.heap(), f2.raw_word()));
            assert(x.3.represented_by(cr.heap(), f3.raw_word()));
            assert(x.4.represented_by(cr.heap(), f4.raw_word()));
        }
        (A::from_ocaml(&f0, cr), B::from_ocaml(&f1, cr), C::from_ocaml(&f2, cr), D::from_ocaml(&f3, cr), E::from_ocaml(&f4, cr))
    }
}

impl<A, OA, B, OB, C, OC, D, OD, E, OE, F, OF> FromOCaml<(OA, OB, OC, OD, OE, OF)> for (A, B, C, D, E, F) where
    A: FromOCaml<OA>,
    B: FromOCaml<OB>,
    C: FromOCaml<OC>,
    D: FromOCaml<OD>,
    E: FromOCaml<OE>,
    F: FromOCaml<OF>,
 {
    fn from_ocaml(v: &OCaml<(OA, OB, OC, OD, OE, OF)>, cr: &OCamlRuntime) -> (r: Self) {
        let ghost x = choose|x: (A, B, C, D, E, F)| #[trigger] x.represented_by(cr.heap(), v.raw_word());
        let raw = v.get_raw();
        let f0: OCaml<OA> = OCaml::new(cr.field(raw, 0));
        let f1: OCaml<OB> = OCaml::new(cr.field(raw, 1));
        let f2: OCaml<OC> = OCaml::new(cr.field(raw, 2));
        let f3: OCaml<OD> = OCaml::new(cr.field(raw, 3));
        let f4: OCaml<OE> = OCaml::new(cr.field(raw, 4));
        let f5: OCaml<OF> = OCaml::new(cr.field(raw, 5));
        proof {
            assert(x.0.represented_by(cr.heap(), f0.raw_word()));
            assert(x.1.represented_by(cr.heap(), f1.raw_word()));
            assert(x.2.represented_by(cr.heap(), f2.raw_word()));
            assert(x.3.represented_by(cr.heap(), f3.raw_word()));
            assert(x.4.represented_by(cr.heap(), f4.raw_word()));
            assert(x.5.represented_by(cr.heap(), f5.raw_word()));
        }
        (A::from_ocaml(&f0, cr), B::from_ocaml(&f1, cr), C::from_ocaml(&f2, cr), D::from_ocaml(&f3, cr), E::from_ocaml(&f4, cr), F::from_ocaml(&f5, cr))
    }
}

impl<A, OA, B, OB, C, OC, D, OD, E, OE, F, OF, G, OG> FromOCaml<(OA, OB, OC, OD, OE, OF, OG)> for (A, B, C, D, E, F, G) where
    A: FromOCaml<OA>,
    B: FromOCaml<OB>,
    C: FromOCaml<OC>,
    D: FromOCaml<OD>,
    E: FromOCaml<OE>,
    F: FromOCaml<OF>,
    G: FromOCaml<OG>,
 {
    fn from_ocaml(v: &OCaml<(OA, OB, OC, OD, OE, OF, OG)>, cr: &OCamlRuntime) -> (r: Self) {
        let ghost x = choose|x: (A, B, C, D, E, F, G)| #[trigger] x.represented_by(cr.heap(), v.raw_word());
        let raw = v.get_raw();
        let f0: OCaml<OA> = OCaml::new(cr.field(raw, 0));
        let f1: OCaml<OB> = OCaml::new(cr.field(raw, 1));
        let f2: OCaml<OC> = OCaml::new(cr.field(raw, 2));
        let f3: OCaml<OD> = OCaml::new(cr.field(raw, 3));
        let f4: OCaml<OE> = OCaml::new(cr.field(raw, 4));
        let f5: OCaml<OF> = OCaml::new(cr.field(raw, 5));
        let f6: OCaml<OG> = OCaml::new(cr.field(raw, 6));
        proof {
            assert(x.0.represented_by(cr.heap(), f0.raw_word()));
            assert(x.1.represented_by(cr.heap(), f1.raw_word()));
            assert(x.2.represented_by(cr.heap(), f2.raw_word()));
            assert(x.3.represented_by(cr.heap(), f3.raw_word()));
            assert(x.4.represented_by(cr.heap(), f4.raw_word()));
            assert(x.5.represented_by(cr.heap(), f5.raw_word()));
            assert(x.6.represented_by(cr.heap(), f6.raw_word()));
        }
        (A::from_ocaml(&f0, cr), B::from_ocaml(&f1, cr), C::from_ocaml(&f2, cr), D::from_ocaml(&f3, cr), E::from_ocaml(&f4, cr), F::from_ocaml(&f5, cr), G::from_ocaml(&f6, cr))
    }
}

impl<A, OA, B, OB, C, OC, D, OD, E, OE, F, OF, G, OG, H, OH> FromOCaml<(OA, OB, OC, OD, OE, OF, OG, OH)> for (A, B, C, D, E, F, G, H) where
    A: FromOCaml<OA>,
    B: FromOCaml<OB>,
    C: FromOCaml<OC>,
    D: FromOCaml<OD>,
    E: FromOCaml<OE>,
    F: FromOCaml<OF>,
    G: FromOCaml<OG>,
    H: FromOCaml<OH>,
 {
    fn from_ocaml(v: &OCaml<(OA, OB, OC, OD, OE, OF, OG, OH)>, cr: &OCamlRuntime) -> (r: Self) {
        let ghost x = choose|x: (A, B, C, D, E, F, G, H)| #[trigger] x.represented_by(cr.heap(), v.raw_word());
        let raw = v.get_raw();
        let f0: OCaml<OA> = OCaml::new(cr.field(raw, 0));
        let f1: OCaml<OB> = OCaml::new(cr.field(raw, 1));
        let f2: OCaml<OC> = OCaml::new(cr.field(raw, 2));
        let f3: OCaml<OD> = OCaml::new(cr.field(raw, 3));
        let f4: OCaml<OE> = OCaml::new(cr.field(raw, 4));
        let f5: OCaml<OF> = OCaml::new(cr.field(raw, 5));
        let f6: OCaml<OG> = OCaml::new(cr.field(raw, 6));
        let f7: OCaml<OH> = OCaml::new(cr.field(raw, 7));
        proof {
            assert(x.0.represented_by(cr.heap(), f0.raw_word()));
            assert(x.1.represented_by(cr.heap(), f1.raw_word()));
            assert(x.2.represented_by(cr.heap(), f2.raw_word()));
            assert(x.3.represented_by(cr.heap(), f3.raw_word()));
            assert(x.4.represented_by(cr.heap(), f4.raw_word()));
            assert(x.5.represented_by(cr.heap(), f5.raw_word()));
            assert(x.6.represented_by(cr.heap(), f6.raw_word()));
            assert(x.7.represented_by(cr.heap(), f7.raw_word()));
        }
        (A::from_ocaml(&f0, cr), B::from_ocaml(&f1, cr), C::from_ocaml(&f2, cr), D::from_ocaml(&f3, cr), E::from_ocaml(&f4, cr), F::from_ocaml(&f5, cr), G::from_ocaml(&f6, cr), H::from_ocaml(&f7, cr))
    }
}

impl<A, OA, B, OB, C, OC, D, OD, E, OE, F, OF, G, OG, H, OH, I, OI> FromOCaml<(OA, OB, OC, OD, OE, OF, OG, OH, OI)> for (A, B, C, D, E, F, G, H, I) where
    A: FromOCaml<OA>,
    B: FromOCaml<OB>,
    C: FromOCaml<OC>,
    D: FromOCaml<OD>,
    E: FromOCaml<OE>,
    F: FromOCaml<OF>,
    G: FromOCaml<OG>,
    H: FromOCaml<OH>,
    I: FromOCaml<OI>,
 {
    fn from_ocaml(v: &OCaml<(OA, OB, OC, OD, OE, OF, OG, OH, OI)>, cr: &OCamlRuntime) -> (r: Self) {
        let ghost x = choose|x: (A, B, C, D, E, F, G, H, I)| #[trigger] x.represented_by(cr.heap(), v.raw_word());
        let raw = v.get_raw();
        let f0: OCaml<OA> = OCaml::new(cr.field(raw, 0));
        let f1: OCaml<OB> = OCaml::new(cr.field(raw, 1));
        let f2: OCaml<OC> = OCaml::new(cr.field(raw, 2));
        let f3: OCaml<OD> = OCaml::new(cr.field(raw, 3));
        let f4: OCaml<OE> = OCaml::new(cr.field(raw, 4));
        let f5: OCaml<OF> = OCaml::new(cr.field(raw, 5));
        let f6: OCaml<OG> = OCaml::new(cr.field(raw, 6));
        let f7: OCaml<OH> = OCaml::new(cr.field(raw, 7));
        let f8: OCaml<OI> = OCaml::new(cr.field(raw, 8));
        proof {
            assert(x.0.represented_by(cr.heap(), f0.raw_word()));
            assert(x.1.represented_by(cr.heap(), f1.raw_word()));
            assert(x.2.represented_by(cr.heap(), f2.raw_word()));
            assert(x.3.represented_by(cr.heap(), f3.raw_word()));
            assert(x.4.represented_by(cr.heap(), f4.raw_word()));
            assert(x.5.represented_by(cr.heap(), f5.raw_word()));
            assert(x.6.represented_by(cr.heap(), f6.raw_word()));
            assert(x.7.represented_by(cr.heap(), f7.raw_word()));
            assert(x.8.represented_by(cr.heap(), f8.raw_word()));
        }
        (A::from_ocaml(&f0, cr), B::from_ocaml(&f1, cr), C::from_ocaml(&f2, cr), D::from_ocaml(&f3, cr), E::from_ocaml(&f4, cr), F::from_ocaml(&f5, cr), G::from_ocaml(&f6, cr), H::from_ocaml(&f7, cr), I::from_ocaml(&f8, cr))
    }
}

} // verus!
