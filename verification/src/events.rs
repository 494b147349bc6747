//! The event loop's decision core: per-event dispatch, the focus tracker,
//! and the hook commands owed for each event.
//!
//! The loop itself lives outside: it pulls events from the subscription,
//! asks [`Engine::on_event`] what to do, sends the planned commands in
//! order, and runs the naming and layout engines on fresh snapshots when
//! the plan says so.

use vstd::prelude::*;

use crate::hooks::scoped_hook;
use crate::hooks::scoped_hook_command;

verus! {

/// The run-time configuration: four independent toggles and templates,
/// read once at startup and immutable for the process lifetime.
#[derive(Debug)]
pub struct Config {
    /// Whether the autolayout engine runs on focus changes.
    pub autolayout: bool,
    /// Whether the workspace naming engine runs on focus and close changes.
    pub workspace_renaming: bool,
    /// Command template sent, unscoped, when a window comes into focus.
    pub on_window_focus: Option<String>,
    /// Command template sent, scoped to the container that lost focus,
    /// when focus moves away from it.
    pub on_window_focus_leave: Option<String>,
    /// Command template sent once on shutdown.
    pub on_exit: Option<String>,
}

/// The kind of a window change notification.  Kinds the daemon does not
/// react to are classified as `Ignored` explicitly rather than through a
/// default arm, so that a new kind fails loudly under test.
#[derive(Clone, Copy, Debug, PartialEq, Eq, Structural)]
pub enum WindowChange {
    /// A container came into focus.
    Focus,
    /// A container was closed.
    Close,
    /// Any other change kind.
    Ignored,
}

/// The event's container snapshot: the parts of it the decision core
/// reads.  Nothing of it outlives the event's handling except the id,
/// which may be copied into the focus tracker.
#[derive(Debug)]
pub struct ContainerInfo {
    /// Container id, unique for the window manager's lifetime.
    pub id: i64,
    /// The application identifier, if the surface set one.
    pub app_id: Option<String>,
    /// The legacy window-class property, if present.
    pub window_class: Option<String>,
}

/// The plan for one event: hook commands to send first, in the given
/// order, then which engines to run on freshly fetched snapshots.
#[derive(Debug)]
pub struct EventPlan {
    /// Commands owed before anything else for this event; the focus-leave
    /// hook, when owed, stands first.
    pub commands: Vec<String>,
    /// Whether the workspace naming engine should run for this event.
    pub run_renaming: bool,
    /// Whether the autolayout engine should run for this event.
    pub run_autolayout: bool,
}

/// The event loop's transient state: the immutable configuration plus the
/// focus tracker.
#[derive(Debug)]
pub struct Engine {
    /// The configuration, fixed for the process lifetime.
    pub config: Config,
    /// The focus tracker: the id of the most recently focused container,
    /// or `None` right after a close was processed.
    pub prev_focused: Option<i64>,
}

/// The focus-leave hook command owed for one event: present on focus and
/// close changes when a leave template is configured and the tracker holds
/// the previously focused container, and scoped to that container.
pub open spec fn leave_commands(config: Config, prev: Option<i64>, change: WindowChange) -> Seq<
    Seq<char>,
> {
    match change {
        WindowChange::Ignored => Seq::empty(),
        _ => match (config.on_window_focus_leave, prev) {
            (Some(h), Some(id)) => seq![scoped_hook(id as int, h@)],
            _ => Seq::empty(),
        },
    }
}

/// The focus-enter hook command owed for one event: the template verbatim,
/// on focus changes only.
pub open spec fn enter_commands(config: Config, change: WindowChange) -> Seq<Seq<char>> {
    match change {
        WindowChange::Focus => match config.on_window_focus {
            Some(c) => seq![c@],
            None => Seq::empty(),
        },
        _ => Seq::empty(),
    }
}

/// All hook commands owed for one event, in order: the leave hook for the
/// container focused before this event, then the enter hook.
pub open spec fn hook_commands(config: Config, prev: Option<i64>, change: WindowChange) -> Seq<
    Seq<char>,
> {
    leave_commands(config, prev, change) + enter_commands(config, change)
}

impl Engine {
    /// A fresh engine: nothing was focused yet.
    pub fn new(config: Config) -> (r: Engine)
        ensures
            r.config == config,
            r.prev_focused is None,
    {
        Engine { config, prev_focused: None }
    }

    /// Handles one event.  The returned plan lists the owed hook commands
    /// in order — the leave hook, aimed at the container focused before
    /// this event, always before anything else — and says which engines to
    /// run.  The focus tracker is read before it is overwritten: it ends
    /// at the new container's id on a focus change, is cleared on a close,
    /// and is untouched otherwise.
    pub fn on_event(&mut self, change: &WindowChange, container_id: i64) -> (plan: EventPlan)
        ensures
            final(self).config == old(self).config,
            match change {
                WindowChange::Focus => final(self).prev_focused == Some(container_id),
                WindowChange::Close => final(self).prev_focused is None,
                WindowChange::Ignored => final(self).prev_focused == old(self).prev_focused,
            },
            plan.commands.deep_view() == hook_commands(
                old(self).config,
                old(self).prev_focused,
                *change,
            ),
            plan.run_renaming == match change {
                WindowChange::Ignored => false,
                _ => old(self).config.workspace_renaming,
            },
            plan.run_autolayout == (change matches WindowChange::Focus
                && old(self).config.autolayout),
    {
        let mut commands: Vec<String> = Vec::new();
        match change {
            WindowChange::Focus | WindowChange::Close => {
                if let Some(h) = &self.config.on_window_focus_leave {
                    if let Some(id) = self.prev_focused {
                        commands.push(scoped_hook_command(id, h.as_str()));
                    }
                }
            },
            WindowChange::Ignored => {},
        }
        match change {
            WindowChange::Focus => {
                if let Some(c) = &self.config.on_window_focus {
                    commands.push(c.clone());
                }
            },
            WindowChange::Close | WindowChange::Ignored => {},
        }
        let run_renaming = match change {
            WindowChange::Focus | WindowChange::Close => self.config.workspace_renaming,
            WindowChange::Ignored => false,
        };
        let run_autolayout = match change {
            WindowChange::Focus => self.config.autolayout,
            WindowChange::Close | WindowChange::Ignored => false,
        };
        match change {
            WindowChange::Focus => {
                self.prev_focused = Some(container_id);
            },
            WindowChange::Close => {
                self.prev_focused = None;
            },
            WindowChange::Ignored => {},
        }
        proof {
            assert(commands.deep_view() =~= hook_commands(
                old(self).config,
                old(self).prev_focused,
                *change,
            ));
        }
        EventPlan { commands, run_renaming, run_autolayout }
    }
}

} // verus!
