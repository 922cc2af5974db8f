use lunatic::{
    spawn, spawn_config, spawn_link, spawn_link_config, IntoProcess, IntoProcessLink, ModuleRef,
    ProcessConfig, SpawnRequest, Tag, TagGenerator,
};

#[test]
fn spawn_uses_host_defaults_and_no_link() {
    let r: SpawnRequest<u32, &str> = spawn(7u32, "entry").unwrap();
    assert_eq!(r.module, None);
    assert_eq!(r.config, None);
    assert_eq!(r.link, None);
    assert_eq!(r.capture, 7);
    assert_eq!(r.handler, "entry");
}

#[test]
fn spawn_config_passes_the_config() {
    let cfg = ProcessConfig { id: 11 };
    let r: SpawnRequest<u32, u8> = spawn_config(&cfg, 1u32, 2u8).unwrap();
    assert_eq!(r.module, None);
    assert_eq!(r.config, Some(cfg));
    assert_eq!(r.link, None);
}

#[test]
fn spawn_link_names_a_fresh_tag() {
    let mut tags = TagGenerator::new();
    let before = Tag::new(&mut tags);
    let r: SpawnRequest<u32, u8> = spawn_link(&mut tags, 5u32, 6u8).unwrap();
    assert_eq!(r.link, Some(Tag::from(2)));
    assert_ne!(r.link, Some(before));
    assert_eq!(r.config, None);
    assert_eq!(r.capture, 5);
    assert_eq!(tags.issued(), 2);
}

#[test]
fn spawn_link_config_passes_config_and_tag() {
    let mut tags = TagGenerator::new();
    let cfg = ProcessConfig { id: 3 };
    let r: SpawnRequest<u32, u8> = spawn_link_config(&mut tags, &cfg, 5u32, 6u8).unwrap();
    assert_eq!(r.link, Some(Tag::from(1)));
    assert_eq!(r.config, Some(cfg));
    assert_eq!(r.module, None);
}

#[test]
fn explicit_module_is_kept() {
    let m = ModuleRef { id: 42 };
    let cfg = ProcessConfig { id: 1 };
    let r = <SpawnRequest<u8, u8> as IntoProcess<u8>>::spawn(Some(m), Some(&cfg), 1, 2).unwrap();
    assert_eq!(r.module, Some(m));
    assert_eq!(r.config, Some(cfg));
    let l = <SpawnRequest<u8, u8> as IntoProcessLink<u8>>::spawn_link(
        Some(m),
        None,
        Tag::from(9),
        1,
        2,
    )
    .unwrap();
    assert_eq!(l.module, Some(m));
    assert_eq!(l.link, Some(Tag::from(9)));
}

#[test]
fn sleep_millis_rounds_up_and_saturates() {
    assert_eq!(lunatic::sleep_millis(1500, 500_000_000), 1500);
    assert_eq!(lunatic::sleep_millis(1500, 500_000_001), 1501);
    assert_eq!(lunatic::sleep_millis(0, 1), 1);
    assert_eq!(lunatic::sleep_millis(0, 0), 0);
    assert_eq!(lunatic::sleep_millis(u64::MAX as u128 + 5, 3), u64::MAX);
    assert_eq!(lunatic::sleep_millis(u64::MAX as u128 - 1, 7), u64::MAX);
}
