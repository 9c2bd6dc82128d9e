use erep::Ereport;

#[test]
fn empty_is_canonical() {
    let e = Ereport::empty();
    assert_eq!(e.msg, "");
    assert!(e.stack.is_empty());
}

#[test]
fn new_single_message() {
    let e = Ereport::new("boom".to_string());
    assert_eq!(e.msg, "boom");
    assert!(e.stack.is_empty());
}

#[test]
fn push_appends_at_end() {
    let e = Ereport::new("root".to_string());
    let r = e.push(Ereport::new("child".to_string()));
    assert_eq!(r.msg, "root");
    assert_eq!(r.stack.len(), 1);
    assert_eq!(r.stack[0].msg, "child");
    assert!(r.stack[0].stack.is_empty());
}

#[test]
fn push_keeps_order() {
    let e = Ereport::empty();
    let c1 = Ereport::new("first".to_string());
    let c2 = Ereport::new("second".to_string());
    let r = e.push(c1).push(c2);
    assert_eq!(r.stack.len(), 2);
    assert_eq!(r.stack[0].msg, "first");
    assert_eq!(r.stack[1].msg, "second");
}

#[test]
fn push_opt_present_appends() {
    let e = Ereport::new("root".to_string());
    let r = e.push_opt(Some(Ereport::new("child".to_string())));
    assert_eq!(r.msg, "root");
    assert_eq!(r.stack.len(), 1);
    assert_eq!(r.stack[0].msg, "child");
}

#[test]
fn push_opt_absent_is_identity() {
    let e = Ereport::new("root".to_string()).push(Ereport::new("child".to_string()));
    let r = e.push_opt(None);
    assert_eq!(r.msg, "root");
    assert_eq!(r.stack.len(), 1);
    assert_eq!(r.stack[0].msg, "child");
}
