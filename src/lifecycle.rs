use vstd::prelude::*;

use crate::protocol::{UiPropertyValue, UiWidgetId};

verus! {

/// Data of a command that every running plugin processes.
#[derive(Debug, Clone)]
pub enum AllPluginCommandData {
    OpenInlineView { text: String },
}

/// Data of a command addressed to a single plugin.
#[derive(Debug, Clone)]
pub enum OnePluginCommandData {
    RunCommand { entrypoint_id: String },
    RunGeneratedCommand { entrypoint_id: String },
    RenderView { entrypoint_id: String },
    CloseView,
    HandleViewEvent { widget_id: UiWidgetId, event_name: String, event_arguments: Vec<UiPropertyValue> },
    HandleKeyboardEvent {
        entrypoint_id: String,
        key: String,
        modifier_shift: bool,
        modifier_control: bool,
        modifier_alt: bool,
        modifier_meta: bool,
    },
    ReloadSearchIndex,
    Stop,
}

/// A command on the bus from the manager to the plugin runtimes.
#[derive(Debug, Clone)]
pub enum PluginCommand {
    All { data: AllPluginCommandData },
    One { id: String, data: OnePluginCommandData },
}

/// Whether the subscriber of plugin `plugin_id` processes `cmd`.
pub open spec fn addressed_to(cmd: PluginCommand, plugin_id: Seq<char>) -> bool {
    match cmd {
        PluginCommand::All { .. } => true,
        PluginCommand::One { id, .. } => id@ == plugin_id,
    }
}

/// The subscriber-side filter: `All` reaches everyone, `One` only its plugin.
pub fn is_addressed_to(cmd: &PluginCommand, plugin_id: &String) -> (r: bool)
    ensures
        r == addressed_to(*cmd, plugin_id@),
{
    match cmd {
        PluginCommand::All { .. } => true,
        PluginCommand::One { id, .. } => *id == *plugin_id,
    }
}

/// What a subscriber that missed commands processes in their place: a
/// reload of its search index, from which the lost state is re-derived.
pub fn lagged_command(plugin_id: String) -> (r: PluginCommand)
    ensures
        r == (PluginCommand::One { id: plugin_id, data: OnePluginCommandData::ReloadSearchIndex }),
{
    PluginCommand::One { id: plugin_id, data: OnePluginCommandData::ReloadSearchIndex }
}

/// The running plugins that observe `cmd`.
pub open spec fn recipients_spec(running: Set<Seq<char>>, cmd: PluginCommand) -> Set<Seq<char>> {
    running.filter(|id: Seq<char>| addressed_to(cmd, id))
}

/// The set of plugins whose runtime is alive.
pub struct RunStatusHolder {
    running: Vec<String>,
    ids: Ghost<Set<Seq<char>>>,
}

impl View for RunStatusHolder {
    type V = Set<Seq<char>>;

    closed spec fn view(&self) -> Set<Seq<char>> {
        self.ids@
    }
}

impl RunStatusHolder {
    /// Each id is held once, and the held ids are exactly the set.
    pub closed spec fn wf(&self) -> bool {
        &&& forall|i: int, j: int|
            0 <= i < j < self.running@.len() ==> self.running@[i]@ != self.running@[j]@
        &&& forall|i: int| 0 <= i < self.running@.len() ==> self.ids@.contains(#[trigger] self.running@[i]@)
        &&& forall|k: Seq<char>| #[trigger]
            self.ids@.contains(k) ==> exists|i: int| 0 <= i < self.running@.len() && self.running@[i]@ == k
    }

    pub fn new() -> (r: RunStatusHolder)
        ensures
            r.wf(),
            r@ == Set::<Seq<char>>::empty(),
    {
        RunStatusHolder { running: Vec::new(), ids: Ghost(Set::empty()) }
    }

    fn position(&self, plugin_id: &String) -> (r: Option<usize>)
        requires
            self.wf(),
        ensures
            match r {
                Some(i) => i < self.running@.len() && self.running@[i as int]@ == plugin_id@,
                None => !self@.contains(plugin_id@),
            },
    {
        let mut i: usize = 0;
        while i < self.running.len()
            invariant
                i <= self.running@.len(),
                forall|j: int| 0 <= j < i ==> (#[trigger] self.running@[j])@ != plugin_id@,
            decreases self.running.len() - i,
        {
            if self.running[i] == *plugin_id {
                return Some(i);
            }
            i = i + 1;
        }
        None
    }

    pub fn is_plugin_running(&self, plugin_id: &String) -> (r: bool)
        requires
            self.wf(),
        ensures
            r == self@.contains(plugin_id@),
    {
        self.position(plugin_id).is_some()
    }

    /// Records that the runtime of `plugin_id` has started.
    pub fn start_block(&mut self, plugin_id: String)
        requires
            old(self).wf(),
        ensures
            final(self).wf(),
            final(self)@ == old(self)@.insert(plugin_id@),
    {
        let ghost k = plugin_id@;
        if self.position(&plugin_id).is_none() {
            self.running.push(plugin_id);
            self.ids = Ghost(self.ids@.insert(k));
            proof {
                let n = self.running@.len() - 1;
                assert(self.running@[n]@ == k);
                assert forall|k2: Seq<char>| #[trigger]
                    self.ids@.contains(k2) implies exists|j: int|
                    0 <= j < self.running@.len() && self.running@[j]@ == k2 by {
                    if k2 != k {
                        assert(old(self).ids@.contains(k2));
                        let j0 = choose|j: int| 0 <= j < old(self).running@.len() && old(self).running@[j]@ == k2;
                        assert(self.running@[j0] == old(self).running@[j0]);
                    }
                }
                assert forall|a: int, b: int|
                    0 <= a < b < self.running@.len() implies self.running@[a]@ != self.running@[b]@ by {
                    if b == n {
                        assert(old(self).ids@.contains(old(self).running@[a]@));
                    }
                }
            }
        } else {
            assert(self.ids@.insert(k) =~= self.ids@);
        }
    }

    /// Records that the runtime of `plugin_id` has ended.
    pub fn stop_block(&mut self, plugin_id: &String)
        requires
            old(self).wf(),
        ensures
            final(self).wf(),
            final(self)@ == old(self)@.remove(plugin_id@),
    {
        let ghost k = plugin_id@;
        match self.position(plugin_id) {
            Some(i) => {
                let ghost old_l = self.running@;
                self.running.remove(i);
                self.ids = Ghost(self.ids@.remove(k));
                proof {
                    let l = self.running@;
                    assert forall|j: int| 0 <= j < l.len() implies #[trigger] l[j] == (if j < i {
                        old_l[j]
                    } else {
                        old_l[j + 1]
                    }) by {}
                    assert forall|a: int, b: int| 0 <= a < b < l.len() implies l[a]@ != l[b]@ by {
                        let a0 = if a < i { a } else { a + 1 };
                        let b0 = if b < i { b } else { b + 1 };
                        assert(l[a] == old_l[a0]);
                        assert(l[b] == old_l[b0]);
                    }
                    assert forall|j: int| 0 <= j < l.len() implies self.ids@.contains(#[trigger] l[j]@) by {
                        let j0 = if j < i { j } else { j + 1 };
                        assert(l[j] == old_l[j0]);
                        assert(old_l[j0]@ != old_l[i as int]@);
                        assert(old(self).ids@.contains(old_l[j0]@));
                    }
                    assert forall|k2: Seq<char>| #[trigger]
                        self.ids@.contains(k2) implies exists|j: int| 0 <= j < l.len() && l[j]@ == k2 by {
                        assert(old(self).ids@.contains(k2));
                        let m = choose|m: int| 0 <= m < old_l.len() && old_l[m]@ == k2;
                        assert(m != i);
                        if m < i {
                            assert(l[m] == old_l[m]);
                        } else {
                            assert(l[m - 1] == old_l[m]);
                        }
                    }
                }
            },
            None => {
                assert(self.ids@.remove(k) =~= self.ids@);
            },
        }
    }

    /// The running plugins whose subscriber processes `cmd`.
    pub fn recipients(&self, cmd: &PluginCommand) -> (r: Vec<String>)
        requires
            self.wf(),
        ensures
            forall|k: Seq<char>|
                recipients_spec(self@, *cmd).contains(k) <==> exists|i: int| 0 <= i < r@.len() && #[trigger] r@[i]@ == k,
    {
        let mut r: Vec<String> = Vec::new();
        let mut i: usize = 0;
        while i < self.running.len()
            invariant
                self.wf(),
                i <= self.running@.len(),
                forall|m: int|
                    0 <= m < r@.len() ==> addressed_to(*cmd, #[trigger] r@[m]@) && exists|j: int|
                        0 <= j < i && (#[trigger] self.running@[j])@ == r@[m]@,
                forall|j: int|
                    0 <= j < i && addressed_to(*cmd, (#[trigger] self.running@[j])@) ==> exists|m: int|
                        0 <= m < r@.len() && (#[trigger] r@[m])@ == self.running@[j]@,
            decreases self.running.len() - i,
        {
            let ghost before = r@;
            if is_addressed_to(cmd, &self.running[i]) {
                r.push(self.running[i].clone());
                proof {
                    assert(r@[r@.len() - 1] == self.running@[i as int]);
                    assert forall|m: int| 0 <= m < r@.len() implies addressed_to(*cmd, #[trigger] r@[m]@)
                        && exists|j: int| 0 <= j < i + 1 && (#[trigger] self.running@[j])@ == r@[m]@ by {
                        if m < before.len() {
                            assert(r@[m] == before[m]);
                        }
                    }
                    assert forall|j: int|
                        0 <= j < i + 1 && addressed_to(*cmd, (#[trigger] self.running@[j])@) implies exists|m: int|
                        0 <= m < r@.len() && (#[trigger] r@[m])@ == self.running@[j]@ by {
                        if j < i {
                            let m = choose|m: int| 0 <= m < before.len() && (#[trigger] before[m])@ == self.running@[j]@;
                            assert(r@[m] == before[m]);
                        }
                    }
                }
            }
            i = i + 1;
        }
        proof {
            assert forall|k: Seq<char>|
                recipients_spec(self@, *cmd).contains(k) <==> exists|m: int| 0 <= m < r@.len() && #[trigger] r@[m]@ == k by {
                if recipients_spec(self@, *cmd).contains(k) {
                    assert(self.ids@.contains(k));
                    let j = choose|j: int| 0 <= j < self.running@.len() && self.running@[j]@ == k;
                    assert(addressed_to(*cmd, self.running@[j]@));
                }
                if exists|m: int| 0 <= m < r@.len() && #[trigger] r@[m]@ == k {
                    let m = choose|m: int| 0 <= m < r@.len() && #[trigger] r@[m]@ == k;
                    let j = choose|j: int| 0 <= j < self.running@.len() && (#[trigger] self.running@[j])@ == r@[m]@;
                    assert(self.ids@.contains(self.running@[j]@));
                }
            }
        }
        r
    }
}

/// What the manager does when a plugin is asked to be enabled or disabled.
#[derive(Debug, Clone, Copy, PartialEq, Eq, Structural)]
pub enum PluginStateAction {
    /// Persist enabled = true, then start the runtime.
    EnableAndStart,
    /// Start the runtime.
    Start,
    /// Persist enabled = false, stop the runtime, drop it from the search index.
    DisableAndStop,
    /// The plugin runs though it is disabled: report it, change nothing.
    RunningWhileDisabled,
    /// Nothing to do.
    Nothing,
}

pub open spec fn plugin_state_action_spec(currently_running: bool, currently_enabled: bool, set_enabled: bool) -> PluginStateAction {
    if !currently_running && !currently_enabled && set_enabled {
        PluginStateAction::EnableAndStart
    } else if !currently_running && currently_enabled && set_enabled {
        PluginStateAction::Start
    } else if currently_running && currently_enabled && !set_enabled {
        PluginStateAction::DisableAndStop
    } else if currently_running && !currently_enabled {
        PluginStateAction::RunningWhileDisabled
    } else {
        PluginStateAction::Nothing
    }
}

/// The transition table of enabling and disabling a plugin.
pub fn plugin_state_action(currently_running: bool, currently_enabled: bool, set_enabled: bool) -> (r:
    PluginStateAction)
    ensures
        r == plugin_state_action_spec(currently_running, currently_enabled, set_enabled),
{
    match (currently_running, currently_enabled, set_enabled) {
        (false, false, true) => PluginStateAction::EnableAndStart,
        (false, true, true) => PluginStateAction::Start,
        (true, true, false) => PluginStateAction::DisableAndStop,
        (true, false, _) => PluginStateAction::RunningWhileDisabled,
        _ => PluginStateAction::Nothing,
    }
}

/// What a reload does to one persisted plugin.
#[derive(Debug, Clone, Copy, PartialEq, Eq, Structural)]
pub enum ReloadAction {
    /// Enabled but not running: start it.
    Start,
    /// Running but disabled: stop it and drop it from the search index.
    Stop,
    /// Running state already matches the enabled flag.
    Keep,
}

pub open spec fn reload_action_spec(running: bool, enabled: bool) -> ReloadAction {
    if !running && enabled {
        ReloadAction::Start
    } else if running && !enabled {
        ReloadAction::Stop
    } else {
        ReloadAction::Keep
    }
}

/// Reconciles running state with the persisted enabled flag.
pub fn reload_action(running: bool, enabled: bool) -> (r: ReloadAction)
    ensures
        r == reload_action_spec(running, enabled),
{
    match (running, enabled) {
        (false, true) => ReloadAction::Start,
        (true, false) => ReloadAction::Stop,
        _ => ReloadAction::Keep,
    }
}

/// The running set after a state action on `plugin_id`.
pub open spec fn after_state_action(running: Set<Seq<char>>, plugin_id: Seq<char>, action: PluginStateAction) -> Set<
    Seq<char>,
> {
    match action {
        PluginStateAction::EnableAndStart | PluginStateAction::Start => running.insert(plugin_id),
        PluginStateAction::DisableAndStop => running.remove(plugin_id),
        _ => running,
    }
}

/// The decisions of the plugin lifecycle manager, over the set of running
/// plugins. The caller performs each returned action: it persists the flag,
/// starts the runtime or sends it `Stop`, and updates the search index.
pub struct ApplicationManager {
    run_status_holder: RunStatusHolder,
}

impl View for ApplicationManager {
    type V = Set<Seq<char>>;

    closed spec fn view(&self) -> Set<Seq<char>> {
        self.run_status_holder@
    }
}

impl ApplicationManager {
    pub closed spec fn wf(&self) -> bool {
        self.run_status_holder.wf()
    }

    pub fn new() -> (r: ApplicationManager)
        ensures
            r.wf(),
            r@ == Set::<Seq<char>>::empty(),
    {
        ApplicationManager { run_status_holder: RunStatusHolder::new() }
    }

    pub fn is_plugin_running(&self, plugin_id: &String) -> (r: bool)
        requires
            self.wf(),
        ensures
            r == self@.contains(plugin_id@),
    {
        self.run_status_holder.is_plugin_running(plugin_id)
    }

    /// Enables or disables `plugin_id`, whose persisted flag is
    /// `currently_enabled`, and returns what the caller must carry out.
    pub fn set_plugin_state(&mut self, plugin_id: String, currently_enabled: bool, set_enabled: bool) -> (r:
        PluginStateAction)
        requires
            old(self).wf(),
        ensures
            final(self).wf(),
            r == plugin_state_action_spec(old(self)@.contains(plugin_id@), currently_enabled, set_enabled),
            final(self)@ == after_state_action(old(self)@, plugin_id@, r),
    {
        let running = self.run_status_holder.is_plugin_running(&plugin_id);
        let action = plugin_state_action(running, currently_enabled, set_enabled);
        match action {
            PluginStateAction::EnableAndStart | PluginStateAction::Start => {
                self.run_status_holder.start_block(plugin_id);
            },
            PluginStateAction::DisableAndStop => {
                self.run_status_holder.stop_block(&plugin_id);
            },
            _ => {},
        }
        action
    }

    /// Reconciles one persisted plugin with its enabled flag during a reload.
    pub fn reload_plugin_state(&mut self, plugin_id: String, enabled: bool) -> (r: ReloadAction)
        requires
            old(self).wf(),
        ensures
            final(self).wf(),
            r == reload_action_spec(old(self)@.contains(plugin_id@), enabled),
            final(self)@ == (match r {
                ReloadAction::Start => old(self)@.insert(plugin_id@),
                ReloadAction::Stop => old(self)@.remove(plugin_id@),
                ReloadAction::Keep => old(self)@,
            }),
    {
        let running = self.run_status_holder.is_plugin_running(&plugin_id);
        let action = reload_action(running, enabled);
        match action {
            ReloadAction::Start => {
                self.run_status_holder.start_block(plugin_id);
            },
            ReloadAction::Stop => {
                self.run_status_holder.stop_block(&plugin_id);
            },
            ReloadAction::Keep => {},
        }
        action
    }

    /// Removes `plugin_id`: its runtime is stopped.
    pub fn remove_plugin(&mut self, plugin_id: &String)
        requires
            old(self).wf(),
        ensures
            final(self).wf(),
            final(self)@ == old(self)@.remove(plugin_id@),
    {
        self.run_status_holder.stop_block(plugin_id);
    }

    /// Records that the runtime of `plugin_id` has ended, whatever the cause:
    /// a `Stop`, an idle event loop, or an error.
    pub fn plugin_runtime_ended(&mut self, plugin_id: &String)
        requires
            old(self).wf(),
        ensures
            final(self).wf(),
            final(self)@ == old(self)@.remove(plugin_id@),
    {
        self.run_status_holder.stop_block(plugin_id);
    }

    /// The running plugins that observe `cmd`.
    pub fn recipients(&self, cmd: &PluginCommand) -> (r: Vec<String>)
        requires
            self.wf(),
        ensures
            forall|k: Seq<char>|
                recipients_spec(self@, *cmd).contains(k) <==> exists|i: int| 0 <= i < r@.len() && #[trigger] r@[i]@ == k,
    {
        self.run_status_holder.recipients(cmd)
    }

    /// The command that runs command entrypoint `entrypoint_id` of `plugin_id`.
    /// The caller then marks the entrypoint's frecency and asks for a reload
    /// of the plugin's search index.
    pub fn handle_run_command(&self, plugin_id: String, entrypoint_id: String) -> (r: PluginCommand)
        ensures
            r == (PluginCommand::One { id: plugin_id, data: OnePluginCommandData::RunCommand { entrypoint_id } }),
    {
        PluginCommand::One { id: plugin_id, data: OnePluginCommandData::RunCommand { entrypoint_id } }
    }

    /// The command that runs generated command `entrypoint_id` of `plugin_id`.
    pub fn handle_run_generated_command(&self, plugin_id: String, entrypoint_id: String) -> (r: PluginCommand)
        ensures
            r == (PluginCommand::One {
                id: plugin_id,
                data: OnePluginCommandData::RunGeneratedCommand { entrypoint_id },
            }),
    {
        PluginCommand::One { id: plugin_id, data: OnePluginCommandData::RunGeneratedCommand { entrypoint_id } }
    }

    /// The command that renders view `entrypoint_id` of `plugin_id`.
    pub fn handle_render_view(&self, plugin_id: String, entrypoint_id: String) -> (r: PluginCommand)
        ensures
            r == (PluginCommand::One { id: plugin_id, data: OnePluginCommandData::RenderView { entrypoint_id } }),
    {
        PluginCommand::One { id: plugin_id, data: OnePluginCommandData::RenderView { entrypoint_id } }
    }

    /// The command that closes the view of `plugin_id`.
    pub fn handle_view_close(&self, plugin_id: String) -> (r: PluginCommand)
        ensures
            r == (PluginCommand::One { id: plugin_id, data: OnePluginCommandData::CloseView }),
    {
        PluginCommand::One { id: plugin_id, data: OnePluginCommandData::CloseView }
    }

    /// The command that hands a view event to `plugin_id`.
    pub fn handle_view_event(
        &self,
        plugin_id: String,
        widget_id: UiWidgetId,
        event_name: String,
        event_arguments: Vec<UiPropertyValue>,
    ) -> (r: PluginCommand)
        ensures
            r == (PluginCommand::One {
                id: plugin_id,
                data: OnePluginCommandData::HandleViewEvent { widget_id, event_name, event_arguments },
            }),
    {
        PluginCommand::One {
            id: plugin_id,
            data: OnePluginCommandData::HandleViewEvent { widget_id, event_name, event_arguments },
        }
    }

    /// The command that hands a key press to entrypoint `entrypoint_id` of
    /// `plugin_id`.
    pub fn handle_keyboard_event(
        &self,
        plugin_id: String,
        entrypoint_id: String,
        key: String,
        modifier_shift: bool,
        modifier_control: bool,
        modifier_alt: bool,
        modifier_meta: bool,
    ) -> (r: PluginCommand)
        ensures
            r == (PluginCommand::One {
                id: plugin_id,
                data: OnePluginCommandData::HandleKeyboardEvent {
                    entrypoint_id,
                    key,
                    modifier_shift,
                    modifier_control,
                    modifier_alt,
                    modifier_meta,
                },
            }),
    {
        PluginCommand::One {
            id: plugin_id,
            data: OnePluginCommandData::HandleKeyboardEvent {
                entrypoint_id,
                key,
                modifier_shift,
                modifier_control,
                modifier_alt,
                modifier_meta,
            },
        }
    }

    /// The command that makes `plugin_id` regenerate its search entries.
    pub fn request_search_index_reload(&self, plugin_id: String) -> (r: PluginCommand)
        ensures
            r == (PluginCommand::One { id: plugin_id, data: OnePluginCommandData::ReloadSearchIndex }),
    {
        PluginCommand::One { id: plugin_id, data: OnePluginCommandData::ReloadSearchIndex }
    }

    /// The command that stops the runtime of `plugin_id`.
    pub fn stop_command(&self, plugin_id: String) -> (r: PluginCommand)
        ensures
            r == (PluginCommand::One { id: plugin_id, data: OnePluginCommandData::Stop }),
    {
        PluginCommand::One { id: plugin_id, data: OnePluginCommandData::Stop }
    }

    /// The command that opens the inline view for `text` in every plugin.
    pub fn handle_inline_view(&self, text: &str) -> (r: PluginCommand)
        ensures
            match r {
                PluginCommand::All { data: AllPluginCommandData::OpenInlineView { text: t } } => t@ == text@,
                _ => false,
            },
    {
        PluginCommand::All { data: AllPluginCommandData::OpenInlineView { text: text.to_owned() } }
    }
}

/// Once disabling a plugin returns, it is not running and no command on the
/// bus reaches it. A plugin that runs though disabled is the one state where
/// disabling changes nothing.
pub proof fn lemma_disabled_plugin_is_stopped(
    running: Set<Seq<char>>,
    plugin_id: Seq<char>,
    currently_enabled: bool,
    cmd: PluginCommand,
)
    requires
        !(running.contains(plugin_id) && !currently_enabled),
    ensures
        !after_state_action(
            running,
            plugin_id,
            plugin_state_action_spec(running.contains(plugin_id), currently_enabled, false),
        ).contains(plugin_id),
        !recipients_spec(
            after_state_action(
                running,
                plugin_id,
                plugin_state_action_spec(running.contains(plugin_id), currently_enabled, false),
            ),
            cmd,
        ).contains(plugin_id),
{
}

} // verus!
