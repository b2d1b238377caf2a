use objbind::Base;
use objbind::Initer;
use objbind::ObjectStore;

#[test]
fn peeked_handles_agree_before_consumption() {
    let mut store = ObjectStore::new();
    let gd = store.allocate();
    let initer = Initer::new(Base::from_gd(&gd));
    let first = initer.to_gd();
    let second = initer.to_gd();
    assert_eq!(first.instance_id(), second.instance_id());
    let base = initer.into_base();
    assert_eq!(base.to_init_gd().instance_id(), first.instance_id());
}

#[test]
fn into_base_keeps_identity() {
    let mut store = ObjectStore::new();
    let _other = store.allocate();
    let gd = store.allocate();
    let initer = Initer::new(Base::from_gd(&gd));
    let base = initer.into_base();
    assert_eq!(base.to_init_gd().instance_id(), 1);
}

#[test]
fn allocate_hands_out_fresh_identities() {
    let mut store = ObjectStore::new();
    let first = store.allocate();
    let second = store.allocate();
    let third = store.allocate();
    assert_eq!(first.instance_id(), 0);
    assert_eq!(second.instance_id(), 1);
    assert_eq!(third.instance_id(), 2);
    assert_eq!(first.state(&store), 0);
    assert_eq!(third.state(&store), 0);
}
