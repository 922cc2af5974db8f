use vstd::prelude::*;

use crate::tag::{issues, Tag, TagGenerator};

verus! {

/// A compiled unit that the host can start processes from, named by the
/// identifier the host gave it.
#[derive(Debug, PartialEq, Eq, Structural, Clone, Copy, Hash)]
pub struct ModuleRef {
    pub id: u64,
}

/// A process configuration (resource limits and the like) held by the host,
/// named by its identifier. It is passed through unchanged.
#[derive(Debug, PartialEq, Eq, Structural, Clone, Copy, Hash)]
pub struct ProcessConfig {
    pub id: u64,
}

/// The identifier the host assigned to a running process.
#[derive(Debug, PartialEq, Eq, Structural, Clone, Copy, Hash)]
pub struct ProcessId {
    pub id: u64,
}

/// Why spawning failed.
#[derive(Debug, PartialEq, Eq, Structural, Clone, Copy)]
pub enum SpawnError {
    /// The host refused to create the process; the code is the host's.
    SpawnFailed(u64),
}

/// How a process ended.
#[derive(Debug, PartialEq, Eq, Structural, Clone, Copy)]
pub enum ExitReason {
    Normal,
    /// Abnormal termination, with the host's code for its cause.
    Trapped(u64),
}

/// What every process linked to a terminated one receives: the tag of the
/// link, the process that ended, and why.
#[derive(Debug, PartialEq, Eq, Structural, Clone, Copy)]
pub struct Notification {
    pub tag: Tag,
    pub process: ProcessId,
    pub reason: ExitReason,
}

/// The owned form of an optional borrowed configuration.
pub open spec fn owned_config(config: Option<&ProcessConfig>) -> Option<ProcessConfig> {
    match config {
        Some(c) => Some(*c),
        None => None,
    }
}

/// A process shape that can be spawned from a captured state `C` and a
/// handler.
pub trait IntoProcess<C>: Sized {
    /// What the new process runs, given the captured state.
    type Handler;

    /// What spawning this shape from these arguments may give.
    spec fn spawned(
        module: Option<ModuleRef>,
        config: Option<ProcessConfig>,
        capture: C,
        handler: Self::Handler,
        r: Result<Self, SpawnError>,
    ) -> bool;

    /// Spawns a new process and returns a handle to it. Without a module or a
    /// configuration the host's defaults apply.
    fn spawn(
        module: Option<ModuleRef>,
        config: Option<&ProcessConfig>,
        capture: C,
        handler: Self::Handler,
    ) -> (r: Result<Self, SpawnError>)
        ensures
            Self::spawned(module, owned_config(config), capture, handler, r),
    ;
}

/// A process shape that can be spawned linked to the caller, the link being
/// labelled with a tag.
pub trait IntoProcessLink<C>: Sized {
    /// What the new process runs, given the captured state.
    type Handler;

    /// What spawning this shape linked under `tag` may give.
    spec fn spawned_linked(
        module: Option<ModuleRef>,
        config: Option<ProcessConfig>,
        tag: Tag,
        capture: C,
        handler: Self::Handler,
        r: Result<Self, SpawnError>,
    ) -> bool;

    /// Spawns a new process linked to the caller under `tag`, the link being
    /// in place before the new process runs, and returns a handle to it.
    fn spawn_link(
        module: Option<ModuleRef>,
        config: Option<&ProcessConfig>,
        tag: Tag,
        capture: C,
        handler: Self::Handler,
    ) -> (r: Result<Self, SpawnError>)
        ensures
            Self::spawned_linked(module, owned_config(config), tag, capture, handler, r),
    ;
}

/// Spawns a process of shape `T` from the caller's own module with the
/// host's default configuration.
pub fn spawn<T: IntoProcess<C>, C>(capture: C, handler: T::Handler) -> (r: Result<T, SpawnError>)
    ensures
        T::spawned(None, None, capture, handler, r),
{
    T::spawn(None, None, capture, handler)
}

/// Spawns a process of shape `T` from the caller's own module with the given
/// configuration.
pub fn spawn_config<T: IntoProcess<C>, C>(
    config: &ProcessConfig,
    capture: C,
    handler: T::Handler,
) -> (r: Result<T, SpawnError>)
    ensures
        T::spawned(None, Some(*config), capture, handler, r),
{
    T::spawn(None, Some(config), capture, handler)
}

/// Spawns a process of shape `T` linked to the caller under a tag freshly
/// issued by `tags`, with the host's default configuration.
pub fn spawn_link<T: IntoProcessLink<C>, C>(
    tags: &mut TagGenerator,
    capture: C,
    handler: T::Handler,
) -> (r: Result<T, SpawnError>)
    requires
        old(tags).can_issue(),
    ensures
        issues(*old(tags), *final(tags), final(tags).last_tag()),
        T::spawned_linked(None, None, final(tags).last_tag(), capture, handler, r),
{
    let tag = Tag::new(tags);
    T::spawn_link(None, None, tag, capture, handler)
}

/// Spawns a process of shape `T` linked to the caller under a tag freshly
/// issued by `tags`, with the given configuration.
pub fn spawn_link_config<T: IntoProcessLink<C>, C>(
    tags: &mut TagGenerator,
    config: &ProcessConfig,
    capture: C,
    handler: T::Handler,
) -> (r: Result<T, SpawnError>)
    requires
        old(tags).can_issue(),
    ensures
        issues(*old(tags), *final(tags), final(tags).last_tag()),
        T::spawned_linked(None, Some(*config), final(tags).last_tag(), capture, handler, r),
{
    let tag = Tag::new(tags);
    T::spawn_link(None, Some(config), tag, capture, handler)
}

/// The whole number of milliseconds to ask the host to sleep for a duration
/// of `whole_millis` milliseconds and `subsec_nanos` nanoseconds past its last
/// whole second: a leftover part of a millisecond counts as one more, so the
/// sleep lasts at least the duration; beyond `u64` it saturates.
pub open spec fn sleep_millis_spec(whole_millis: u128, subsec_nanos: u32) -> int {
    let wanted = whole_millis + if subsec_nanos % 1_000_000 != 0 { 1int } else { 0int };
    if wanted > u64::MAX { u64::MAX as int } else { wanted }
}

/// The number of milliseconds to hand the host's sleep call.
pub fn sleep_millis(whole_millis: u128, subsec_nanos: u32) -> (r: u64)
    ensures
        r == sleep_millis_spec(whole_millis, subsec_nanos),
{
    let extra: u128 = if subsec_nanos % 1_000_000 != 0 { 1 } else { 0 };
    if whole_millis >= u64::MAX as u128 {
        u64::MAX
    } else {
        (whole_millis + extra) as u64
    }
}

/// A process that is yet to be created: the request that the host carries
/// out. A linked request names the link tag, and the host establishes the link
/// as part of creating the process, before its handler starts.
#[derive(Debug)]
pub struct SpawnRequest<C, H> {
    pub module: Option<ModuleRef>,
    pub config: Option<ProcessConfig>,
    pub link: Option<Tag>,
    pub capture: C,
    pub handler: H,
}

impl<C, H> IntoProcess<C> for SpawnRequest<C, H> {
    type Handler = H;

    open spec fn spawned(
        module: Option<ModuleRef>,
        config: Option<ProcessConfig>,
        capture: C,
        handler: H,
        r: Result<Self, SpawnError>,
    ) -> bool {
        r == Ok::<Self, SpawnError>(
            SpawnRequest { module, config, link: None, capture, handler },
        )
    }

    fn spawn(
        module: Option<ModuleRef>,
        config: Option<&ProcessConfig>,
        capture: C,
        handler: H,
    ) -> (r: Result<Self, SpawnError>) {
        Ok(SpawnRequest { module, config: copy_config(config), link: None, capture, handler })
    }
}

impl<C, H> IntoProcessLink<C> for SpawnRequest<C, H> {
    type Handler = H;

    open spec fn spawned_linked(
        module: Option<ModuleRef>,
        config: Option<ProcessConfig>,
        tag: Tag,
        capture: C,
        handler: H,
        r: Result<Self, SpawnError>,
    ) -> bool {
        r == Ok::<Self, SpawnError>(
            SpawnRequest { module, config, link: Some(tag), capture, handler },
        )
    }

    fn spawn_link(
        module: Option<ModuleRef>,
        config: Option<&ProcessConfig>,
        tag: Tag,
        capture: C,
        handler: H,
    ) -> (r: Result<Self, SpawnError>) {
        Ok(
            SpawnRequest {
                module,
                config: copy_config(config),
                link: Some(tag),
                capture,
                handler,
            },
        )
    }
}

fn copy_config(config: Option<&ProcessConfig>) -> (r: Option<ProcessConfig>)
    ensures
        r == owned_config(config),
{
    match config {
        Some(c) => Some(*c),
        None => None,
    }
}

/// A linked spawn hands the host a single request that already names the
/// link: there is no step between creating the process and linking it in
/// which the new process could run, so a trap on its first instruction is
/// reported under the fresh tag. An unlinked spawn names no link.
pub proof fn lemma_link_before_run<C, H>(
    before: TagGenerator,
    after: TagGenerator,
    tag: Tag,
    config: Option<ProcessConfig>,
    capture: C,
    handler: H,
    linked: Result<SpawnRequest<C, H>, SpawnError>,
    unlinked: Result<SpawnRequest<C, H>, SpawnError>,
)
    requires
        issues(before, after, tag),
        <SpawnRequest<C, H> as IntoProcessLink<C>>::spawned_linked(
            None,
            config,
            tag,
            capture,
            handler,
            linked,
        ),
        <SpawnRequest<C, H> as IntoProcess<C>>::spawned(None, config, capture, handler, unlinked),
    ensures
        linked is Ok && linked->Ok_0.link == Some(tag),
        tag.view_id() > before.last(),
        unlinked is Ok && unlinked->Ok_0.link is None,
{
}

} // verus!
