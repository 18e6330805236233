use znfe::boxroot::BoxRoot;
use znfe::conv::ToOCaml;
use znfe::runtime::{LockEvent, OCamlBlockingSection, OCamlRuntime, RootEvent};
use znfe::value::{OCaml, OCamlInt};

#[test]
fn root_over_block_registers_once_across_rewrites() {
    let mut cr = OCamlRuntime::init();
    let v: OCaml<String> = String::from("abc").to_ocaml(&mut cr);
    let mut root = BoxRoot::new(&mut cr, v);
    assert_eq!(cr.root_events().len(), 1);
    for i in 0..5i64 {
        let w: OCaml<String> = format!("x{}", i).to_ocaml(&mut cr);
        let kept = root.keep(w);
        assert_eq!(root.get(&cr).get_raw(), kept.get_raw());
    }
    let n: OCaml<String> = OCaml::new(1);
    root.keep(n);
    root.release(&mut cr);
    assert_eq!(cr.root_events(), &vec![RootEvent::Register(0), RootEvent::Deregister(0)]);
}

#[test]
fn root_over_immediate_never_registers() {
    let mut cr = OCamlRuntime::init();
    let v: OCaml<OCamlInt> = 42i64.to_ocaml(&mut cr);
    let mut root = BoxRoot::new(&mut cr, v);
    assert!(cr.root_events().is_empty());
    let w: OCaml<OCamlInt> = 7i64.to_ocaml(&mut cr);
    root.keep(w);
    assert_eq!(root.get(&cr).get_raw(), 15);
    root.release(&mut cr);
    assert!(cr.root_events().is_empty());
}

#[test]
fn roots_get_distinct_cells() {
    let mut cr = OCamlRuntime::init();
    let a: OCaml<String> = String::from("a").to_ocaml(&mut cr);
    let b: OCaml<String> = String::from("b").to_ocaml(&mut cr);
    let ra = BoxRoot::new(&mut cr, a);
    let rb = BoxRoot::new(&mut cr, b);
    rb.release(&mut cr);
    ra.release(&mut cr);
    assert_eq!(
        cr.root_events(),
        &vec![
            RootEvent::Register(0),
            RootEvent::Register(1),
            RootEvent::Deregister(1),
            RootEvent::Deregister(0)
        ]
    );
}

#[test]
fn to_boxroot_roots_converted_value() {
    let mut cr = OCamlRuntime::init();
    let root = ToOCaml::<String>::to_boxroot(&String::from("hi"), &mut cr);
    assert_eq!(cr.root_events(), &vec![RootEvent::Register(0)]);
    let imm = ToOCaml::<OCamlInt>::to_boxroot(&3i64, &mut cr);
    assert_eq!(imm.get(&cr).get_raw(), 7);
    assert_eq!(cr.root_events().len(), 1);
    root.release(&mut cr);
    imm.release(&mut cr);
    assert_eq!(cr.root_events().len(), 2);
}

#[test]
fn releasing_runtime_releases_and_reacquires() {
    let mut cr = OCamlRuntime::init();
    assert!(cr.holds_lock());
    let r = cr.releasing_runtime(|| 6 * 7);
    assert_eq!(r, 42);
    assert!(cr.holds_lock());
    assert_eq!(cr.lock_events(), &vec![LockEvent::Release, LockEvent::Acquire]);
}

#[test]
fn blocking_section_perform() {
    let mut cr = OCamlRuntime::init();
    let s = OCamlBlockingSection::new().perform(&mut cr, || String::from("done"));
    assert_eq!(s, "done");
    let t = cr.releasing_runtime(|| 1u8);
    assert_eq!(t, 1);
    assert_eq!(cr.lock_events().len(), 4);
    assert!(cr.holds_lock());
}

#[test]
fn blocking_section_leave_acquires_once() {
    let mut cr = OCamlRuntime::init();
    let mut section = OCamlBlockingSection::new();
    section.enter(&mut cr);
    assert!(!cr.holds_lock());
    section.leave(&mut cr);
    section.leave(&mut cr);
    assert!(cr.holds_lock());
    assert_eq!(cr.lock_events(), &vec![LockEvent::Release, LockEvent::Acquire]);
}
