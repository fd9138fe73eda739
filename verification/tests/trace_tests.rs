use domcell::DOMRefCell;
use domcell::Traceable;
use domcell::ThreadRole;
use domcell::Tracer;

/// A toy graph node holding a fixed number of outgoing references.
struct Node {
    payload: u64,
    out_edges: u64,
}

impl Traceable for Node {
    // The specification-level relation of the trait, spelled out as plain
    // code here: tracing a node reports one reference per outgoing edge.
    fn traced(self, before: Tracer, after: Tracer) -> bool {
        after.reported == before.reported.saturating_add(self.out_edges)
    }

    fn trace(&self, tracer: &mut Tracer) {
        let mut i: u64 = 0;
        while i < self.out_edges {
            tracer.report();
            i += 1;
        }
    }
}

#[test]
fn fresh_tracer_reports_nothing() {
    let t = Tracer::new();
    assert_eq!(t.reported, 0);
}

#[test]
fn report_counts_up_and_saturates() {
    let mut t = Tracer::new();
    t.report();
    t.report();
    assert_eq!(t.reported, 2);

    let mut full = Tracer { reported: u64::MAX };
    full.report();
    assert_eq!(full.reported, u64::MAX);
}

#[test]
fn tracing_a_plain_integer_reports_nothing() {
    let role = ThreadRole::Script;
    let mut c = DOMRefCell::new(7u64);
    let mut t = Tracer::new();
    c.trace(role, &mut t);
    assert_eq!(t.reported, 0);
    let g = c.borrow(role);
    assert_eq!(*c.read(&g), 7);
    c.release(g);
}

#[test]
fn trace_forwards_through_a_shared_borrow() {
    let role = ThreadRole::Script;
    let mut c = DOMRefCell::new(Node { payload: 5, out_edges: 3 });
    let mut t = Tracer::new();
    c.trace(role, &mut t);
    assert_eq!(t.reported, 3);

    // The shared borrow the bridge took was released: the tracker is free
    // again and the value is untouched.
    let e = c.borrow_mut(role);
    assert_eq!(c.get_mut(&e).payload, 5);
    c.release_mut(e);
}

#[test]
fn trace_under_a_live_shared_guard() {
    let role = ThreadRole::Script;
    let mut c = DOMRefCell::new(Node { payload: 1, out_edges: 2 });
    let g = c.borrow(role);
    let mut t = Tracer::new();
    // A second shared borrow is fine: tracing nests under live readers.
    c.trace(role, &mut t);
    assert_eq!(t.reported, 2);
    assert_eq!(c.read(&g).payload, 1);
    // Only the caller's own guard is still live afterwards.
    assert!(c.try_borrow_mut(role).is_none());
    c.release(g);
    assert!(c.try_borrow_mut(role).is_some());
}
