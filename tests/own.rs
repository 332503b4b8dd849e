use ownage::own;
use ownage::Closure;

use std::cell::Cell;
use std::cell::RefCell;
use std::rc::Rc;
use std::sync::Arc;

/// A value whose clones record, in a shared log, which slot they were made from.
struct Logged {
    slot: u32,
    log: Rc<RefCell<Vec<u32>>>,
}

impl Clone for Logged {
    fn clone(&self) -> Logged {
        self.log.borrow_mut().push(self.slot);
        Logged { slot: self.slot, log: self.log.clone() }
    }
}

fn logged(slot: u32, log: &Rc<RefCell<Vec<u32>>>) -> Logged {
    Logged { slot, log: log.clone() }
}

fn sum_three(a: u64, b: u64, c: u64) -> u64 {
    a + b + c
}

fn with_closure<R, C: Closure<R>>(refs: R, closure: C) -> C::Output {
    own(refs, closure)
}

#[test]
fn one_number_plus_one() {
    let n: u32 = 41;
    let out = own((&n,), |x| x + 1);
    assert_eq!(out, 42);
}

#[test]
fn text_and_bool_concatenated() {
    let text = String::from("flag=");
    let flag = true;
    let out = own((text.as_str(), &flag), |s: String, b: bool| format!("{}{}", s, b));
    assert_eq!(out, "flag=true");
    let off = false;
    let out = own((&text, &off), |s: String, b: bool| s + &b.to_string());
    assert_eq!(out, "flag=false");
}

#[test]
fn three_values_moved_into_deferred_work() {
    let job = {
        let name = String::from("job");
        let items = vec![1u8, 2, 3];
        let shared = Arc::new(10u8);
        own((name.as_str(), items.as_slice(), &shared), |n: String, v: Vec<u8>, a: Arc<u8>| {
            let work: Box<dyn FnOnce() -> String> = Box::new(move || {
                let total: u32 = v.iter().map(|x| *x as u32).sum::<u32>() + *a as u32;
                format!("{}:{}", n, total)
            });
            work
        })
    };
    assert_eq!(job(), "job:16");
}

#[test]
fn owned_values_outlive_their_sources() {
    let kept = {
        let source = String::from("short lived");
        let numbers = vec![5u32, 6];
        own((&source, &numbers), |s: String, v: Vec<u32>| (s, v))
    };
    assert_eq!(kept.0, "short lived");
    assert_eq!(kept.1, vec![5, 6]);
    assert_eq!(kept.0.len() + kept.1.len(), 13);
}

#[test]
fn arguments_equal_the_borrowed_values() {
    let s = String::from("abc");
    let v = vec![Some(1i64), None];
    let c = 'x';
    let out = own((&s, &v, &c), |s2: String, v2: Vec<Option<i64>>, c2: char| (s2, v2, c2));
    assert_eq!(out.0, s);
    assert_eq!(out.1, v);
    assert_eq!(out.2, c);
}

#[test]
fn one_conversion_per_slot_in_slot_order() {
    let log = Rc::new(RefCell::new(Vec::new()));
    let t0 = logged(0, &log);
    let t1 = logged(1, &log);
    let t2 = logged(2, &log);
    let calls = Cell::new(0u32);
    let out = own((&t0, &t1, &t2), |a: Logged, b: Logged, c: Logged| {
        calls.set(calls.get() + 1);
        vec![a.slot, b.slot, c.slot]
    });
    assert_eq!(out, vec![0, 1, 2]);
    assert_eq!(*log.borrow(), vec![0, 1, 2]);
    assert_eq!(calls.get(), 1);
}

#[test]
fn twelve_slots_in_slot_order() {
    let log = Rc::new(RefCell::new(Vec::new()));
    let t: Vec<Logged> = (0..12).map(|i| logged(i, &log)).collect();
    let out = own(
        (&t[0], &t[1], &t[2], &t[3], &t[4], &t[5], &t[6], &t[7], &t[8], &t[9], &t[10], &t[11]),
        |a: Logged,
         b: Logged,
         c: Logged,
         d: Logged,
         e: Logged,
         f: Logged,
         g: Logged,
         h: Logged,
         i: Logged,
         j: Logged,
         k: Logged,
         l: Logged| {
            vec![
                a.slot, b.slot, c.slot, d.slot, e.slot, f.slot, g.slot, h.slot, i.slot, j.slot,
                k.slot, l.slot,
            ]
        },
    );
    let expected: Vec<u32> = (0..12).collect();
    assert_eq!(out, expected);
    assert_eq!(*log.borrow(), expected);
}

#[test]
fn every_arity_from_one_to_twelve() {
    let x: u8 = 1;
    assert_eq!(own((&x,), |a| a), 1);
    assert_eq!(own((&x, &x), |a, b| a + b), 2);
    assert_eq!(own((&x, &x, &x), |a, b, c| a + b + c), 3);
    assert_eq!(own((&x, &x, &x, &x), |a, b, c, d| a + b + c + d), 4);
    assert_eq!(own((&x, &x, &x, &x, &x), |a, b, c, d, e| a + b + c + d + e), 5);
    assert_eq!(own((&x, &x, &x, &x, &x, &x), |a, b, c, d, e, f| a + b + c + d + e + f), 6);
    assert_eq!(
        own((&x, &x, &x, &x, &x, &x, &x), |a, b, c, d, e, f, g| a + b + c + d + e + f + g),
        7
    );
    assert_eq!(
        own((&x, &x, &x, &x, &x, &x, &x, &x), |a, b, c, d, e, f, g, h| {
            a + b + c + d + e + f + g + h
        }),
        8
    );
    assert_eq!(
        own((&x, &x, &x, &x, &x, &x, &x, &x, &x), |a, b, c, d, e, f, g, h, i| {
            a + b + c + d + e + f + g + h + i
        }),
        9
    );
    assert_eq!(
        own((&x, &x, &x, &x, &x, &x, &x, &x, &x, &x), |a, b, c, d, e, f, g, h, i, j| {
            a + b + c + d + e + f + g + h + i + j
        }),
        10
    );
    assert_eq!(
        own((&x, &x, &x, &x, &x, &x, &x, &x, &x, &x, &x), |a, b, c, d, e, f, g, h, i, j, k| {
            a + b + c + d + e + f + g + h + i + j + k
        }),
        11
    );
    assert_eq!(
        own(
            (&x, &x, &x, &x, &x, &x, &x, &x, &x, &x, &x, &x),
            |a, b, c, d, e, f, g, h, i, j, k, l| a + b + c + d + e + f + g + h + i + j + k + l
        ),
        12
    );
}

#[test]
fn result_is_the_consumers_result() {
    let word = String::from("same");
    let out = own((&word,), |w: String| Some(w));
    assert_eq!(out, Some(String::from("same")));
    let unit = own((&word,), |_w: String| ());
    assert_eq!(unit, ());
    let err: Result<u8, String> = own((&word,), |w: String| Err(w));
    assert_eq!(err, Err(String::from("same")));
}

#[test]
fn fn_item_as_consumer() {
    let (a, b, c) = (1u64, 20u64, 300u64);
    assert_eq!(own((&a, &b, &c), sum_three), 321);
    let pointer: fn(u64, u64, u64) -> u64 = sum_three;
    assert_eq!(own((&a, &b, &c), pointer), 321);
}

#[test]
fn mixed_borrowed_forms() {
    let string = String::new();
    let str_ref = string.as_str();
    let vec = Vec::<bool>::new();
    let slice = vec.as_slice();
    let arc = Arc::new(42u8);
    let u = 42u8;
    let answer = own((&string, str_ref, &vec, slice, &arc, &u), |s, s_ref, v, sl, arc, u| {
        let s: String = s;
        let s_ref: String = s_ref;
        let v: Vec<bool> = v;
        let sl: Vec<bool> = sl;
        let arc: Arc<u8> = arc;
        assert!(s.is_empty() && s_ref.is_empty() && v.is_empty() && sl.is_empty());
        assert_eq!(*arc, 42);
        u
    });
    assert_eq!(answer, 42);
}

#[test]
fn closure_bound_works_generically() {
    let n: i32 = -7;
    let text = "x";
    let out = with_closure((&n, text), |m: i32, t: String| format!("{}{}", t, m.abs()));
    assert_eq!(out, "x7");
}

#[test]
fn slice_becomes_vec_with_same_items() {
    let data = [3u16, 1, 2];
    let out = own((&data[..],), |v: Vec<u16>| v);
    assert_eq!(out, vec![3, 1, 2]);
}
