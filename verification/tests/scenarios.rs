use cc_trace::Category;
use cc_trace::CcPtr;
use cc_trace::EdgeLog;
use cc_trace::Trace;
use cc_trace::Tracer;
use cc_trace::category_is_atomic;
use cc_trace::trace_twice;

fn addrs_of<T: Trace>(value: &T) -> Vec<usize> {
    let mut log = EdgeLog::new();
    value.trace(&mut log);
    let mut addrs = Vec::new();
    let mut i: usize = 0;
    while i < log.len() {
        addrs.push(log.get(i).addr);
        i += 1;
    }
    addrs.sort();
    addrs
}

#[test]
fn sequence_of_three_pointers_and_one_integer() {
    let mixed: Vec<Result<CcPtr, u64>> = vec![
        Ok(CcPtr::new(1)),
        Ok(CcPtr::new(2)),
        Err(99),
        Ok(CcPtr::new(3)),
    ];
    assert_eq!(addrs_of(&mixed), vec![1, 2, 3]);
}

#[test]
fn optional_value_holding_nothing() {
    let none: Option<CcPtr> = None;
    assert_eq!(addrs_of(&none), Vec::<usize>::new());
}

#[test]
fn optional_value_holding_a_pointer() {
    let some = Some(CcPtr::new(8));
    assert_eq!(addrs_of(&some), vec![8]);
}

#[test]
fn result_failure_branch_holding_a_pointer() {
    let failed: Result<u64, CcPtr> = Err(CcPtr::new(12));
    assert_eq!(addrs_of(&failed), vec![12]);
}

#[test]
fn result_success_branch_holding_a_pointer() {
    let succeeded: Result<CcPtr, u64> = Ok(CcPtr::new(21));
    assert_eq!(addrs_of(&succeeded), vec![21]);
}

#[test]
fn nested_containers_match_flattened_contents() {
    let nested = vec![
        vec![CcPtr::new(1), CcPtr::new(2)],
        vec![],
        vec![CcPtr::new(3)],
    ];
    let flat = vec![CcPtr::new(1), CcPtr::new(2), CcPtr::new(3)];
    assert_eq!(addrs_of(&nested), addrs_of(&flat));
}

#[test]
fn deeply_nested_value_reports_depth_one_pointers() {
    let value = Some(Box::new(vec![CcPtr::new(6), CcPtr::new(7)]));
    assert_eq!(addrs_of(&value), vec![6, 7]);
}

#[test]
fn tracing_twice_reports_the_same_multiset() {
    let v = vec![CcPtr::new(5), CcPtr::new(5), CcPtr::new(9)];
    let (first_pass, second_pass) = trace_twice(&v);
    assert_eq!(first_pass.len(), second_pass.len());
    let collect = |log: &EdgeLog| {
        let mut addrs = Vec::new();
        let mut i: usize = 0;
        while i < log.len() {
            addrs.push(log.get(i).addr);
            i += 1;
        }
        addrs.sort();
        addrs
    };
    assert_eq!(collect(&first_pass), collect(&second_pass));
    assert_eq!(collect(&first_pass), vec![5, 5, 9]);
}

#[test]
fn policy_marks_leaf_categories_atomic() {
    assert!(category_is_atomic(Category::PrimitiveScalar));
    assert!(category_is_atomic(Category::TextValue));
    assert!(category_is_atomic(Category::SharedPointer));
    assert!(category_is_atomic(Category::SyncPrimitive));
    assert!(category_is_atomic(Category::IoHandle));
    assert!(category_is_atomic(Category::OsResource));
    assert!(category_is_atomic(Category::FunctionValue));
}

#[test]
fn policy_marks_composite_categories_traceable() {
    assert!(!category_is_atomic(Category::SequenceContainer));
    assert!(!category_is_atomic(Category::KeyValueMap));
    assert!(!category_is_atomic(Category::OptionalValue));
    assert!(!category_is_atomic(Category::FallibleValue));
    assert!(!category_is_atomic(Category::OwningIndirection));
    assert!(!category_is_atomic(Category::GuardedInterior));
}

#[test]
fn visitor_log_records_report_order() {
    let mut log = EdgeLog::new();
    log.visit(CcPtr::new(3));
    log.visit(CcPtr::new(1));
    log.visit(CcPtr::new(2));
    assert_eq!(log.len(), 3);
    assert_eq!(log.get(0).addr, 3);
    assert_eq!(log.get(1).addr, 1);
    assert_eq!(log.get(2).addr, 2);
}
