use std::sync::atomic::{AtomicU64, Ordering};
use std::sync::Arc;

use rfs::fs::backend::{Config, ConfigLocal, Node, NodeLocal, Pair};
use rfs::net::layer::request_id::{RIDLayer, RIDService, RequestId};

#[test]
fn request_id_value() {
    let id = RequestId::new(42);
    assert_eq!(*id.id(), 42);
}

#[test]
fn layer_counts_from_one() {
    let layer = RIDLayer::new();
    let a = layer.layer("first");
    let b = layer.layer("second");
    assert_eq!(a.inner, "first");
    assert_eq!(*a.next_id().id(), 1);
    assert_eq!(*b.next_id().id(), 2);
    assert_eq!(*a.next_id().id(), 3);
}

#[test]
fn service_uses_given_counter() {
    let counter = Arc::new(AtomicU64::new(10));
    let s = RIDService::new((), counter.clone());
    assert_eq!(*s.next_id().id(), 10);
    assert_eq!(counter.load(Ordering::SeqCst), 11);
}

#[test]
fn backends_match_up() {
    let conf = Config::Local(ConfigLocal { path: "/srv/store".to_owned() });
    let node = Node::Local(NodeLocal { path: "docs/a.txt".to_owned() });
    match Pair::match_up(&conf, &node) {
        Ok(Pair::Local((c, n))) => {
            assert_eq!(c.path, "/srv/store");
            assert_eq!(n.path, "docs/a.txt");
        }
        Err(_) => panic!("local backends must match"),
    }
    assert_eq!(node.as_local().map(|l| l.path.as_str()), Some("docs/a.txt"));
}
