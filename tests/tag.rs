use lunatic::{Tag, TagGenerator};

#[test]
fn tag_increments() {
    let mut tags = TagGenerator::new();
    assert_eq!(Tag::new(&mut tags), Tag::from(1));
    assert_eq!(Tag::new(&mut tags), Tag::from(2));
    assert_eq!(Tag::new(&mut tags), Tag::from(3));
    assert_eq!(Tag::new(&mut tags), Tag::from(4));
}

#[test]
fn tags_are_distinct_and_increasing() {
    let mut tags = TagGenerator::new();
    let mut ids = Vec::new();
    for _ in 0..100 {
        ids.push(Tag::new(&mut tags).id());
    }
    for i in 1..ids.len() {
        assert!(ids[i - 1] < ids[i]);
    }
    assert_eq!(tags.issued(), 100);
}

#[test]
fn id_read_twice_is_the_same() {
    let mut tags = TagGenerator::new();
    let t = Tag::new(&mut tags);
    assert_eq!(t.id(), t.id());
    assert_eq!(t.id(), 1);
    assert_eq!(Tag::from(-7).id(), -7);
}

#[test]
fn default_consumes_one_step() {
    let mut by_new = TagGenerator::new();
    let mut by_default = TagGenerator::new();
    Tag::new(&mut by_new);
    Tag::new(&mut by_default);
    let a = Tag::new(&mut by_new);
    let b = Tag::default(&mut by_default);
    assert_eq!(a, b);
    assert_eq!(by_new.issued(), by_default.issued());
    assert_eq!(b.id(), 2);
}

#[test]
fn fresh_generator_has_issued_nothing() {
    let tags = TagGenerator::new();
    assert_eq!(tags.issued(), 0);
}

#[test]
fn equal_ids_mean_equal_tags() {
    let mut tags = TagGenerator::new();
    let t = Tag::new(&mut tags);
    assert_eq!(Tag::from(t.id()), t);
    assert_ne!(Tag::from(2), t);
}
