use cc_trace::CcPtr;
use cc_trace::EdgeLog;
use cc_trace::GuardedCell;
use cc_trace::Trace;
use cc_trace::Tracer;
use cc_trace::trace_non_atomic;

fn logged_addrs<T: Trace>(value: &T) -> Vec<usize> {
    let mut log = EdgeLog::new();
    value.trace(&mut log);
    let mut addrs = Vec::new();
    let mut i: usize = 0;
    while i < log.len() {
        addrs.push(log.get(i).addr);
        i += 1;
    }
    addrs.sort();
    addrs
}

#[test]
fn integer_leaf_reports_nothing() {
    assert_eq!(logged_addrs(&7u64), Vec::<usize>::new());
    assert_eq!(logged_addrs(&-3i32), Vec::<usize>::new());
    assert!(7u64.is_atomic());
}

#[test]
fn bool_char_unit_leaves_report_nothing() {
    assert_eq!(logged_addrs(&true), Vec::<usize>::new());
    assert_eq!(logged_addrs(&'x'), Vec::<usize>::new());
    assert_eq!(logged_addrs(&()), Vec::<usize>::new());
}

#[test]
fn string_leaf_reports_nothing() {
    let s = String::from("cycle");
    assert_eq!(logged_addrs(&s), Vec::<usize>::new());
    assert!(s.is_atomic());
}

#[test]
fn handle_reports_itself_once() {
    let p = CcPtr::new(41);
    assert_eq!(logged_addrs(&p), vec![41]);
    assert!(!p.is_atomic());
}

#[test]
fn vec_reports_each_element() {
    let v = vec![CcPtr::new(1), CcPtr::new(2), CcPtr::new(3)];
    assert_eq!(logged_addrs(&v), vec![1, 2, 3]);
    assert!(!v.is_atomic());
}

#[test]
fn empty_vec_reports_nothing() {
    let v: Vec<CcPtr> = Vec::new();
    assert_eq!(logged_addrs(&v), Vec::<usize>::new());
}

#[test]
fn vecdeque_reports_each_element() {
    let mut q = std::collections::VecDeque::new();
    q.push_back(CcPtr::new(10));
    q.push_front(CcPtr::new(20));
    assert_eq!(logged_addrs(&q), vec![10, 20]);
}

#[test]
fn boxed_value_reports_its_contents() {
    let b = Box::new(CcPtr::new(9));
    assert_eq!(logged_addrs(&b), vec![9]);
}

#[test]
fn btree_map_reports_value_side() {
    let mut m = std::collections::BTreeMap::new();
    m.insert(5u64, CcPtr::new(50));
    m.insert(6u64, CcPtr::new(60));
    assert_eq!(logged_addrs(&m), vec![50, 60]);
}

#[test]
fn empty_btree_map_reports_nothing() {
    let m: std::collections::BTreeMap<u64, CcPtr> = std::collections::BTreeMap::new();
    assert_eq!(logged_addrs(&m), Vec::<usize>::new());
}

#[test]
fn hash_map_reports_value_side() {
    let mut m = std::collections::HashMap::new();
    m.insert(1u64, CcPtr::new(100));
    m.insert(2u64, CcPtr::new(200));
    m.insert(3u64, CcPtr::new(300));
    assert_eq!(logged_addrs(&m), vec![100, 200, 300]);
}

#[test]
fn map_of_atomic_values_reports_nothing() {
    let mut m = std::collections::BTreeMap::new();
    m.insert(1u64, String::from("a"));
    m.insert(2u64, String::from("b"));
    assert_eq!(logged_addrs(&m), Vec::<usize>::new());
}

#[test]
fn shared_pointers_are_atomic() {
    let rc = std::rc::Rc::new(5u64);
    let arc = std::sync::Arc::new(5u64);
    assert_eq!(logged_addrs(&rc), Vec::<usize>::new());
    assert_eq!(logged_addrs(&arc), Vec::<usize>::new());
    assert!(rc.is_atomic());
    assert!(arc.is_atomic());
}

#[test]
fn mutex_is_atomic() {
    let m = std::sync::Mutex::new(7u64);
    assert_eq!(logged_addrs(&m), Vec::<usize>::new());
    assert!(m.is_atomic());
}

#[test]
fn rwlock_is_atomic() {
    let l = std::sync::RwLock::new(vec![CcPtr::new(1)]);
    assert_eq!(logged_addrs(&l), Vec::<usize>::new());
    assert!(l.is_atomic());
}

#[test]
fn trace_non_atomic_skips_atomic_values() {
    let mut log = EdgeLog::new();
    trace_non_atomic(&42u64, &mut log);
    assert_eq!(log.len(), 0);
}

#[test]
fn trace_non_atomic_traverses_composite_values() {
    let v = vec![CcPtr::new(4), CcPtr::new(5)];
    let mut log = EdgeLog::new();
    trace_non_atomic(&v, &mut log);
    assert_eq!(log.len(), 2);
}

#[test]
fn guarded_cell_traces_when_guard_is_free() {
    let cell = GuardedCell::new(CcPtr::new(77));
    assert_eq!(logged_addrs(&cell), vec![77]);
    assert!(!cell.is_atomic());
}

#[test]
fn guarded_cell_skips_when_guard_is_held() {
    let mut cell = GuardedCell::new(CcPtr::new(77));
    assert!(cell.acquire());
    assert_eq!(logged_addrs(&cell), Vec::<usize>::new());
    assert!(!cell.acquire());
    cell.release();
    assert_eq!(logged_addrs(&cell), vec![77]);
}

#[test]
fn guarded_cell_peek_reads_contents() {
    let cell = GuardedCell::new(CcPtr::new(13));
    assert_eq!(cell.peek().addr, 13);
}
