use vstd::prelude::*;

use crate::process::{ExitReason, Notification, ProcessId};
use crate::tag::Tag;

verus! {

/// Where a supervised child stands.
#[derive(Debug, PartialEq, Eq, Structural, Clone, Copy)]
pub enum ChildState {
    Running,
    /// It trapped; a new process for it has been asked for and not yet
    /// reported back.
    Restarting,
    /// It exited normally and is not restarted.
    Stopped,
}

/// One supervised child: its current process, the tag its link carries, and
/// its state.
#[derive(Debug, PartialEq, Eq, Structural, Clone, Copy)]
pub struct Child {
    pub process: ProcessId,
    pub tag: Tag,
    pub state: ChildState,
}

/// What the supervisor asks for after a failure notification.
#[derive(Debug, PartialEq, Eq, Structural, Clone, Copy)]
pub enum SupervisorAction {
    /// The notification is for no running child.
    Ignore,
    /// Spawn child `child` again from its original specification
    /// ([`Supervisor::spec`]), linked
    /// under `tag`, and report the new process with
    /// [`Supervisor::restarted`].
    Restart { child: usize, tag: Tag },
    /// Child `child` exited normally and stays down.
    Stop { child: usize },
}

/// The children of a supervisor, in the order they were added, each with the
/// specification `S` it was spawned from (its captured state and handler).
#[derive(Debug)]
pub struct Supervisor<S> {
    children: Vec<Child>,
    specs: Vec<S>,
}

/// Whether child `i` is the first running child linked under `tag`.
pub open spec fn first_running(children: Seq<Child>, tag: Tag, i: int) -> bool {
    &&& 0 <= i < children.len()
    &&& children[i].tag == tag
    &&& children[i].state == ChildState::Running
    &&& forall|j: int|
        0 <= j < i ==> !(#[trigger] children[j].tag == tag && children[j].state
            == ChildState::Running)
}

/// Whether no running child is linked under `tag`.
pub open spec fn none_running(children: Seq<Child>, tag: Tag) -> bool {
    forall|j: int|
        0 <= j < children.len() ==> !(#[trigger] children[j].tag == tag && children[j].state
            == ChildState::Running)
}

/// The restart policy: how the children and the action follow from the
/// children before a notification and the notification itself. The child
/// concerned is the first running one linked under the notification's tag; a
/// trap restarts it under the same tag, a normal exit stops it.
pub open spec fn exit_step(
    before: Seq<Child>,
    note: Notification,
    after: Seq<Child>,
    action: SupervisorAction,
) -> bool {
    match action {
        SupervisorAction::Ignore => none_running(before, note.tag) && after == before,
        SupervisorAction::Restart { child, tag } => {
            &&& first_running(before, note.tag, child as int)
            &&& note.reason is Trapped
            &&& tag == note.tag
            &&& after == before.update(
                child as int,
                Child { state: ChildState::Restarting, ..before[child as int] },
            )
        },
        SupervisorAction::Stop { child } => {
            &&& first_running(before, note.tag, child as int)
            &&& note.reason is Normal
            &&& after == before.update(
                child as int,
                Child { state: ChildState::Stopped, ..before[child as int] },
            )
        },
    }
}

impl<S> Supervisor<S> {
    /// The children, in the order they were added.
    pub closed spec fn view_children(&self) -> Seq<Child> {
        self.children@
    }

    /// The children's specifications, in the same order.
    pub closed spec fn view_specs(&self) -> Seq<S> {
        self.specs@
    }

    /// Every child has exactly one specification.
    pub open spec fn wf(&self) -> bool {
        self.view_specs().len() == self.view_children().len()
    }

    /// A supervisor with no children.
    pub fn new() -> (s: Supervisor<S>)
        ensures
            s.wf(),
            s.view_children() == Seq::<Child>::empty(),
    {
        Supervisor { children: Vec::new(), specs: Vec::new() }
    }

    /// The number of children.
    pub fn len(&self) -> (r: usize)
        ensures
            r == self.view_children().len(),
    {
        self.children.len()
    }

    /// Child `i`.
    pub fn child(&self, i: usize) -> (c: Child)
        requires
            i < self.view_children().len(),
        ensures
            c == self.view_children()[i as int],
    {
        self.children[i]
    }

    /// The specification child `i` was spawned from.
    pub fn spec(&self, i: usize) -> (r: &S)
        requires
            self.wf(),
            i < self.view_children().len(),
        ensures
            *r == self.view_specs()[i as int],
    {
        &self.specs[i]
    }

    /// Registers a child that was spawned from `spec`, linked under `tag`, as
    /// `process`, and returns its index.
    pub fn add_child(&mut self, spec: S, process: ProcessId, tag: Tag) -> (i: usize)
        requires
            old(self).wf(),
        ensures
            final(self).wf(),
            i == old(self).view_children().len(),
            final(self).view_children() == old(self).view_children().push(
                Child { process, tag, state: ChildState::Running },
            ),
            final(self).view_specs() == old(self).view_specs().push(spec),
    {
        let i = self.children.len();
        self.children.push(Child { process, tag, state: ChildState::Running });
        self.specs.push(spec);
        i
    }

    /// Applies the restart policy to a failure notification.
    pub fn on_exit(&mut self, note: Notification) -> (action: SupervisorAction)
        requires
            old(self).wf(),
        ensures
            final(self).wf(),
            final(self).view_specs() == old(self).view_specs(),
            exit_step(old(self).view_children(), note, final(self).view_children(), action),
    {
        let n = self.children.len();
        let mut i: usize = 0;
        while i < n
            invariant
                n == self.children@.len(),
                self.children@ == old(self).children@,
                self.specs@ == old(self).specs@,
                self.specs@.len() == n,
                i <= n,
                forall|j: int|
                    0 <= j < i ==> !(#[trigger] self.children@[j].tag == note.tag
                        && self.children@[j].state == ChildState::Running),
            decreases n - i,
        {
            let c = self.children[i];
            if c.tag == note.tag && c.state == ChildState::Running {
                match note.reason {
                    ExitReason::Trapped(_) => {
                        self.children.set(i, Child { state: ChildState::Restarting, ..c });
                        return SupervisorAction::Restart { child: i, tag: note.tag };
                    },
                    ExitReason::Normal => {
                        self.children.set(i, Child { state: ChildState::Stopped, ..c });
                        return SupervisorAction::Stop { child: i };
                    },
                }
            }
            i = i + 1;
        }
        SupervisorAction::Ignore
    }

    /// Records that child `i`, which was restarting, runs again as
    /// `process`, linked under the same tag as before.
    pub fn restarted(&mut self, i: usize, process: ProcessId)
        requires
            old(self).wf(),
            i < old(self).view_children().len(),
            old(self).view_children()[i as int].state == ChildState::Restarting,
        ensures
            final(self).wf(),
            final(self).view_specs() == old(self).view_specs(),
            final(self).view_children() == old(self).view_children().update(
                i as int,
                Child { process, state: ChildState::Running, ..old(self).view_children()[i as int] },
            ),
    {
        let c = self.children[i];
        self.children.set(i, Child { process, state: ChildState::Running, ..c });
    }
}

/// A child that exits normally is never restarted, and a running child that
/// traps is always restarted, under its own tag; reporting the new process
/// leaves it running again under that tag, with every other child untouched.
pub proof fn lemma_restart_only_on_trap(
    before: Seq<Child>,
    note: Notification,
    after: Seq<Child>,
    action: SupervisorAction,
    process: ProcessId,
)
    requires
        exit_step(before, note, after, action),
    ensures
        note.reason is Normal ==> !(action is Restart),
        note.reason is Trapped && (exists|i: int|
            0 <= i < before.len() && #[trigger] before[i].tag == note.tag && before[i].state
                == ChildState::Running) ==> action is Restart,
        action matches SupervisorAction::Restart { child, tag } ==> {
            let again = after.update(
                child as int,
                Child { process, state: ChildState::Running, ..after[child as int] },
            );
            &&& tag == note.tag
            &&& again[child as int].tag == before[child as int].tag
            &&& again[child as int].state == ChildState::Running
            &&& again[child as int].process == process
            &&& forall|j: int| 0 <= j < before.len() && j != child ==> again[j] == before[j]
        },
{
}

} // verus!
