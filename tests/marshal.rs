use znfe::conv::ToOCaml;
use znfe::from::{is_ok_result, FromOCaml};
use znfe::mlvalues::{int_to_raw, EMPTY_LIST, NONE, STRING_TAG, TAG_CONS, TAG_ERROR, TAG_OK};
use znfe::runtime::{Block, OCamlRuntime};
use znfe::value::{OCaml, OCamlBytes, OCamlInt, OCamlInt32, OCamlInt64, OCamlList};

fn fields(cr: &OCamlRuntime, raw: i64) -> (u8, Vec<i64>) {
    match cr.block(raw) {
        Block::Fields { tag, fields } => (*tag, fields.clone()),
        other => panic!("not a structured block: {:?}", other),
    }
}

#[test]
fn list_is_built_head_first_from_the_back() {
    let mut cr = OCamlRuntime::init();
    let v: OCaml<OCamlList<OCamlInt>> = vec![1i64, 2, 3].to_ocaml(&mut cr);
    let (tag, f) = fields(&cr, v.get_raw());
    assert_eq!(tag, TAG_CONS);
    assert_eq!(f[0], int_to_raw(1));
    let (_, f2) = fields(&cr, f[1]);
    assert_eq!(f2[0], int_to_raw(2));
    let (_, f3) = fields(&cr, f2[1]);
    assert_eq!(f3[0], int_to_raw(3));
    assert_eq!(f3[1], EMPTY_LIST);
    assert_eq!(cr.heap_len(), 3);
    // The last element's cell is allocated first.
    assert_eq!(f2[1], 0);
}

#[test]
fn empty_list_is_the_empty_immediate() {
    let mut cr = OCamlRuntime::init();
    let empty: Vec<i64> = Vec::new();
    let v: OCaml<OCamlList<OCamlInt>> = empty.to_ocaml(&mut cr);
    assert_eq!(v.get_raw(), EMPTY_LIST);
    assert_eq!(cr.heap_len(), 0);
    let back: Vec<i64> = FromOCaml::from_ocaml(&v, &cr);
    assert!(back.is_empty());
}

#[test]
fn list_round_trip() {
    let mut cr = OCamlRuntime::init();
    let src = vec![String::from("a"), String::new(), String::from("ccc")];
    let v: OCaml<OCamlList<String>> = src.to_ocaml(&mut cr);
    let back: Vec<String> = FromOCaml::from_ocaml(&v, &cr);
    assert_eq!(back, src);
}

#[test]
fn string_round_trip_including_empty_and_non_ascii() {
    let mut cr = OCamlRuntime::init();
    for s in ["", "hello", "h\u{e9}llo \u{2603}"] {
        let v: OCaml<String> = String::from(s).to_ocaml(&mut cr);
        match cr.block(v.get_raw()) {
            Block::Bytes { data } => assert_eq!(data.as_slice(), s.as_bytes()),
            other => panic!("not bytes: {:?}", other),
        }
        let back: String = FromOCaml::from_ocaml(&v, &cr);
        assert_eq!(back, s);
    }
    assert_eq!(STRING_TAG, 252);
}

#[test]
fn bytes_and_string_share_representation() {
    let mut cr = OCamlRuntime::init();
    let a: OCaml<OCamlBytes> = String::from("0000").to_ocaml(&mut cr);
    let b: OCaml<String> = b"0000".to_vec().to_ocaml(&mut cr);
    assert_eq!(cr.block(a.get_raw()), cr.block(b.get_raw()));
    let back: Vec<u8> = FromOCaml::from_ocaml(&a, &cr);
    assert_eq!(back, b"0000".to_vec());
}

#[test]
fn nested_option_round_trip() {
    let mut cr = OCamlRuntime::init();
    let cases: Vec<Option<Option<i64>>> = vec![None, Some(None), Some(Some(-5))];
    for c in cases {
        let v: OCaml<Option<Option<OCamlInt>>> = c.to_ocaml(&mut cr);
        let back: Option<Option<i64>> = FromOCaml::from_ocaml(&v, &cr);
        assert_eq!(back, c);
    }
    let none: OCaml<Option<OCamlInt>> = None::<i64>.to_ocaml(&mut cr);
    assert_eq!(none.get_raw(), NONE);
}

#[test]
fn result_round_trip_both_variants() {
    let mut cr = OCamlRuntime::init();
    let ok: Result<i64, String> = Ok(12);
    let err: Result<i64, String> = Err(String::from("boom"));
    let vo: OCaml<Result<OCamlInt, String>> = ok.to_ocaml(&mut cr);
    let ve: OCaml<Result<OCamlInt, String>> = err.to_ocaml(&mut cr);
    let bo: Result<i64, String> = FromOCaml::from_ocaml(&vo, &cr);
    let be: Result<i64, String> = FromOCaml::from_ocaml(&ve, &cr);
    assert_eq!(bo, ok);
    assert_eq!(be, err);
}

#[test]
fn result_failure_tag_reads_without_payload() {
    let mut cr = OCamlRuntime::init();
    let err: Result<i64, Vec<i64>> = Err(vec![4, 5]);
    let v: OCaml<Result<OCamlInt, OCamlList<OCamlInt>>> = err.to_ocaml(&mut cr);
    let (tag, f) = fields(&cr, v.get_raw());
    assert_eq!(tag, TAG_ERROR);
    assert_eq!(f.len(), 1);
    let payload: OCaml<OCamlList<OCamlInt>> = OCaml::new(f[0]);
    let back: Vec<i64> = FromOCaml::from_ocaml(&payload, &cr);
    assert_eq!(back, vec![4, 5]);
    assert!(!is_ok_result(&v, &cr));
    let ok: Result<i64, Vec<i64>> = Ok(1);
    let w: OCaml<Result<OCamlInt, OCamlList<OCamlInt>>> = ok.to_ocaml(&mut cr);
    assert!(is_ok_result(&w, &cr));
    assert_eq!(fields(&cr, w.get_raw()).0, TAG_OK);
}

#[test]
fn tuples_and_boxed_integers() {
    let mut cr = OCamlRuntime::init();
    let t = (7i64, String::from("x"));
    let v: OCaml<(OCamlInt64, String)> = t.to_ocaml(&mut cr);
    let back: (i64, String) = FromOCaml::from_ocaml(&v, &cr);
    assert_eq!(back, t);
    let (_, f) = fields(&cr, v.get_raw());
    assert_eq!(cr.block(f[0]), &Block::Int64 { int64: 7 });
    let t3 = (true, -3i32, vec![1i64]);
    let v3: OCaml<(bool, OCamlInt32, OCamlList<OCamlInt>)> = t3.to_ocaml(&mut cr);
    let back3: (bool, i32, Vec<i64>) = FromOCaml::from_ocaml(&v3, &cr);
    assert_eq!(back3, t3);
}

#[test]
fn boxed_value_converts_as_its_content() {
    let mut cr = OCamlRuntime::init();
    let b = Box::new(5i64);
    let v: OCaml<OCamlInt> = b.to_ocaml(&mut cr);
    assert_eq!(v.get_raw(), 11);
    let small: OCaml<OCamlInt> = 5i32.to_ocaml(&mut cr);
    assert_eq!(small.get_raw(), 11);
}

#[test]
fn borrowed_text_and_bytes_give_identical_blocks() {
    let mut cr = OCamlRuntime::init();
    let a: OCaml<String> = "0000000000000000".to_ocaml(&mut cr);
    let b: OCaml<OCamlBytes> = "0000000000000000".to_ocaml(&mut cr);
    let c: OCaml<OCamlBytes> = (&b"0000000000000000"[..]).to_ocaml(&mut cr);
    let d: OCaml<String> = (&b"0000000000000000"[..]).to_ocaml(&mut cr);
    let e: OCaml<String> = String::from("0000000000000000").to_ocaml(&mut cr);
    assert_eq!(cr.block(a.get_raw()), cr.block(b.get_raw()));
    assert_eq!(cr.block(a.get_raw()), cr.block(c.get_raw()));
    assert_eq!(cr.block(a.get_raw()), cr.block(d.get_raw()));
    assert_eq!(cr.block(a.get_raw()), cr.block(e.get_raw()));
    assert_eq!(cr.heap_len(), 5);
}

#[test]
fn nine_tuple_round_trip() {
    let mut cr = OCamlRuntime::init();
    let t = (1i64, 2i64, 3i64, true, String::from("e"), Some(6i64), vec![7i64], 8i32, false);
    let v: OCaml<(
        OCamlInt,
        OCamlInt,
        OCamlInt,
        bool,
        String,
        Option<OCamlInt>,
        OCamlList<OCamlInt>,
        OCamlInt,
        bool,
    )> = t.to_ocaml(&mut cr);
    let (tag, f) = fields(&cr, v.get_raw());
    assert_eq!(tag, 0);
    assert_eq!(f.len(), 9);
    assert_eq!(f[0], 3);
    let back: (i64, i64, i64, bool, String, Option<i64>, Vec<i64>, i64, bool) =
        FromOCaml::from_ocaml(&v, &cr);
    assert_eq!(back, (1, 2, 3, true, String::from("e"), Some(6), vec![7], 8, false));
}
