use amethyst_imgui::buffers::{DynamicBuffer, WriteAction};
use amethyst_imgui::draw_data::TextureId;
use amethyst_imgui::textures::{Registration, TextureTracker};

#[test]
fn register_gives_handles_in_order() {
    let mut t = TextureTracker::new();
    assert_eq!(t.register(40), Some(Registration { id: TextureId(0), upload: true }));
    assert_eq!(t.register(30), Some(Registration { id: TextureId(1), upload: true }));
    assert_eq!(t.register(50), Some(Registration { id: TextureId(2), upload: true }));
    assert_eq!(t.len(), 3);
}

#[test]
fn register_twice_gives_same_handle_and_one_upload() {
    let mut t = TextureTracker::new();
    let first = t.register(7).unwrap();
    let other = t.register(8).unwrap();
    let second = t.register(7).unwrap();
    assert_eq!(first.id, second.id);
    assert!(first.upload);
    assert!(!second.upload);
    assert!(other.id != first.id);
    assert_eq!(t.len(), 2);
}

#[test]
fn lookup_finds_only_registered() {
    let mut t = TextureTracker::new();
    assert_eq!(t.lookup(3), None);
    t.register(3);
    t.register(4);
    assert_eq!(t.lookup(4), Some(TextureId(1)));
    assert_eq!(t.lookup(3), Some(TextureId(0)));
    assert_eq!(t.lookup(5), None);
}

#[test]
fn texture_is_not_ready_until_its_upload_finished() {
    let mut t = TextureTracker::new();
    let a = t.register(1).unwrap().id;
    let b = t.register(2).unwrap().id;
    assert!(!t.is_ready(a));
    assert!(!t.is_ready(b));
    t.maintain(&Vec::new());
    assert!(!t.is_ready(a));
    t.maintain(&vec![b]);
    assert!(!t.is_ready(a));
    assert!(t.is_ready(b));
    t.maintain(&vec![a, b]);
    assert!(t.is_ready(a));
    assert!(t.is_ready(b));
}

#[test]
fn texture_that_the_device_gave_up_is_not_ready() {
    let mut t = TextureTracker::new();
    let a = t.register(1).unwrap().id;
    let b = t.register(2).unwrap().id;
    t.maintain(&vec![a, b]);
    t.maintain(&vec![b]);
    assert!(!t.is_ready(a));
    assert!(t.is_ready(b));
    assert_eq!(t.pending(), vec![a]);
    assert_eq!(t.register(1), Some(Registration { id: a, upload: false }));
    t.maintain(&Vec::new());
    assert!(!t.is_ready(b));
    assert_eq!(t.len(), 2);
}

#[test]
fn registering_again_keeps_readiness() {
    let mut t = TextureTracker::new();
    let a = t.register(1).unwrap().id;
    t.maintain(&vec![a]);
    assert_eq!(t.register(1), Some(Registration { id: a, upload: false }));
    assert!(t.is_ready(a));
}

#[test]
fn unknown_handles_are_never_ready() {
    let mut t = TextureTracker::new();
    assert!(!t.is_ready(TextureId(0)));
    t.maintain(&vec![TextureId(0), TextureId(99)]);
    assert!(!t.is_ready(TextureId(0)));
    assert!(!t.is_ready(TextureId(99)));
    let a = t.register(5).unwrap().id;
    assert_eq!(a, TextureId(0));
    assert!(!t.is_ready(a));
}

#[test]
fn buffer_starts_empty() {
    let b = DynamicBuffer::new(3);
    assert_eq!(b.slots(), 3);
    for i in 0..3 {
        assert_eq!(b.capacity(i), 0);
        assert_eq!(b.len(i), 0);
    }
}

#[test]
fn buffer_grows_on_demand_and_never_shrinks() {
    let mut b = DynamicBuffer::new(2);
    assert_eq!(b.write(1, 10), WriteAction::Grow(10));
    assert_eq!(b.capacity(1), 10);
    assert_eq!(b.len(1), 10);
    assert_eq!(b.write(1, 4), WriteAction::Reuse);
    assert_eq!(b.capacity(1), 10);
    assert_eq!(b.len(1), 4);
    assert_eq!(b.write(1, 10), WriteAction::Reuse);
    assert_eq!(b.write(1, 11), WriteAction::Grow(11));
    assert_eq!(b.capacity(1), 11);
}

#[test]
fn buffer_write_leaves_other_slots_alone() {
    let mut b = DynamicBuffer::new(3);
    b.write(0, 5);
    b.write(2, 9);
    assert_eq!(b.capacity(0), 5);
    assert_eq!(b.capacity(1), 0);
    assert_eq!(b.capacity(2), 9);
    assert_eq!(b.len(1), 0);
    assert_eq!(b.write(1, 0), WriteAction::Reuse);
    assert_eq!(b.capacity(1), 0);
}

#[test]
fn pending_are_the_registered_and_unready() {
    let mut t = TextureTracker::new();
    assert!(t.pending().is_empty());
    let a = t.register(10).unwrap().id;
    let b = t.register(20).unwrap().id;
    let c = t.register(30).unwrap().id;
    assert_eq!(t.pending(), vec![a, b, c]);
    t.maintain(&vec![b]);
    assert_eq!(t.pending(), vec![a, c]);
    t.maintain(&vec![c, a]);
    assert_eq!(t.pending(), vec![b]);
    t.maintain(&vec![c, a, b, b]);
    assert!(t.pending().is_empty());
}

#[test]
fn reference_of_a_handle() {
    let mut t = TextureTracker::new();
    let a = t.register(10).unwrap().id;
    let b = t.register(20).unwrap().id;
    assert_eq!(t.reference(a), Some(10));
    assert_eq!(t.reference(b), Some(20));
    assert_eq!(t.reference(TextureId(2)), None);
}

#[test]
fn buffer_gets_more_slots_and_keeps_the_old() {
    let mut b = DynamicBuffer::new(1);
    b.write(0, 7);
    b.ensure_slots(3);
    assert_eq!(b.slots(), 3);
    assert_eq!(b.capacity(0), 7);
    assert_eq!(b.len(0), 7);
    assert_eq!(b.capacity(1), 0);
    assert_eq!(b.capacity(2), 0);
    b.ensure_slots(0);
    assert_eq!(b.slots(), 3);
}
