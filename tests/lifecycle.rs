use gauntlet_core::lifecycle::{
    is_addressed_to, lagged_command, plugin_state_action, reload_action, AllPluginCommandData, ApplicationManager,
    OnePluginCommandData, PluginCommand, PluginStateAction, ReloadAction, RunStatusHolder,
};

fn s(x: &str) -> String {
    x.to_owned()
}

fn stop(id: &str) -> PluginCommand {
    PluginCommand::One { id: s(id), data: OnePluginCommandData::Stop }
}

#[test]
fn state_table() {
    assert_eq!(plugin_state_action(false, false, true), PluginStateAction::EnableAndStart);
    assert_eq!(plugin_state_action(false, true, true), PluginStateAction::Start);
    assert_eq!(plugin_state_action(true, true, false), PluginStateAction::DisableAndStop);
    assert_eq!(plugin_state_action(true, false, true), PluginStateAction::RunningWhileDisabled);
    assert_eq!(plugin_state_action(true, false, false), PluginStateAction::RunningWhileDisabled);
    assert_eq!(plugin_state_action(false, false, false), PluginStateAction::Nothing);
    assert_eq!(plugin_state_action(false, true, false), PluginStateAction::Nothing);
    assert_eq!(plugin_state_action(true, true, true), PluginStateAction::Nothing);
}

#[test]
fn reload_table() {
    assert_eq!(reload_action(false, true), ReloadAction::Start);
    assert_eq!(reload_action(true, false), ReloadAction::Stop);
    assert_eq!(reload_action(true, true), ReloadAction::Keep);
    assert_eq!(reload_action(false, false), ReloadAction::Keep);
}

#[test]
fn run_status_holder_tracks_plugins() {
    let mut h = RunStatusHolder::new();
    assert!(!h.is_plugin_running(&s("a")));
    h.start_block(s("a"));
    h.start_block(s("a"));
    h.start_block(s("b"));
    assert!(h.is_plugin_running(&s("a")));
    h.stop_block(&s("a"));
    assert!(!h.is_plugin_running(&s("a")));
    assert!(h.is_plugin_running(&s("b")));
    h.stop_block(&s("missing"));
    assert!(h.is_plugin_running(&s("b")));
}

#[test]
fn enable_then_disable() {
    let mut m = ApplicationManager::new();
    assert_eq!(m.set_plugin_state(s("p"), false, true), PluginStateAction::EnableAndStart);
    assert!(m.is_plugin_running(&s("p")));
    assert_eq!(m.set_plugin_state(s("p"), true, false), PluginStateAction::DisableAndStop);
    assert!(!m.is_plugin_running(&s("p")));
    assert!(m.recipients(&stop("p")).is_empty());
    let all = PluginCommand::All { data: AllPluginCommandData::OpenInlineView { text: s("x") } };
    assert!(m.recipients(&all).is_empty());
}

#[test]
fn running_while_disabled_changes_nothing() {
    let mut m = ApplicationManager::new();
    m.set_plugin_state(s("p"), true, true);
    assert_eq!(m.set_plugin_state(s("p"), false, false), PluginStateAction::RunningWhileDisabled);
    assert!(m.is_plugin_running(&s("p")));
}

#[test]
fn reload_reconciles_plugins() {
    let mut m = ApplicationManager::new();
    assert_eq!(m.reload_plugin_state(s("a"), true), ReloadAction::Start);
    assert_eq!(m.reload_plugin_state(s("a"), true), ReloadAction::Keep);
    assert_eq!(m.reload_plugin_state(s("a"), false), ReloadAction::Stop);
    assert!(!m.is_plugin_running(&s("a")));
    m.reload_plugin_state(s("b"), true);
    m.remove_plugin(&s("b"));
    assert!(!m.is_plugin_running(&s("b")));
}

#[test]
fn command_fan_out() {
    let mut m = ApplicationManager::new();
    for id in ["a", "b", "c"] {
        m.set_plugin_state(s(id), true, true);
    }
    let cmd = m.handle_inline_view("abc");
    assert!(matches!(&cmd, PluginCommand::All { data: AllPluginCommandData::OpenInlineView { text } } if text == "abc"));
    let mut got = m.recipients(&cmd);
    got.sort();
    assert_eq!(got, vec![s("a"), s("b"), s("c")]);
    for id in ["a", "b", "c"] {
        assert!(is_addressed_to(&cmd, &s(id)));
    }
}

#[test]
fn addressed_command_reaches_one_plugin() {
    let mut m = ApplicationManager::new();
    m.set_plugin_state(s("a"), true, true);
    m.set_plugin_state(s("b"), true, true);
    let cmd = PluginCommand::One { id: s("b"), data: OnePluginCommandData::RenderView { entrypoint_id: s("main") } };
    assert_eq!(m.recipients(&cmd), vec![s("b")]);
    assert!(!is_addressed_to(&cmd, &s("a")));
    assert!(is_addressed_to(&cmd, &s("b")));
    assert!(m.recipients(&stop("zzz")).is_empty());
}

#[test]
fn enable_disable_race() {
    let mut m = ApplicationManager::new();
    m.set_plugin_state(s("p"), true, true);
    let render = PluginCommand::One { id: s("p"), data: OnePluginCommandData::RenderView { entrypoint_id: s("e") } };
    assert_eq!(m.recipients(&render), vec![s("p")]);
    assert_eq!(m.set_plugin_state(s("p"), true, false), PluginStateAction::DisableAndStop);
    assert!(m.recipients(&render).is_empty());
    assert_eq!(m.set_plugin_state(s("p"), false, false), PluginStateAction::Nothing);
    assert!(!m.is_plugin_running(&s("p")));
}

#[test]
fn addressed_commands_carry_their_data() {
    let m = ApplicationManager::new();
    assert!(matches!(m.handle_run_command(s("p"), s("e")),
        PluginCommand::One { ref id, data: OnePluginCommandData::RunCommand { ref entrypoint_id } } if id == "p" && entrypoint_id == "e"));
    assert!(matches!(m.handle_run_generated_command(s("p"), s("g")),
        PluginCommand::One { data: OnePluginCommandData::RunGeneratedCommand { ref entrypoint_id }, .. } if entrypoint_id == "g"));
    assert!(matches!(m.handle_render_view(s("p"), s("v")),
        PluginCommand::One { data: OnePluginCommandData::RenderView { ref entrypoint_id }, .. } if entrypoint_id == "v"));
    assert!(matches!(m.handle_view_close(s("p")), PluginCommand::One { data: OnePluginCommandData::CloseView, .. }));
    assert!(matches!(m.handle_view_event(s("p"), 3, s("onClick"), vec![]),
        PluginCommand::One { data: OnePluginCommandData::HandleViewEvent { widget_id: 3, ref event_name, .. }, .. } if event_name == "onClick"));
    assert!(matches!(m.handle_keyboard_event(s("p"), s("e"), s("k"), true, false, true, false),
        PluginCommand::One { data: OnePluginCommandData::HandleKeyboardEvent { modifier_shift: true, modifier_control: false, modifier_alt: true, modifier_meta: false, ref key, .. }, .. } if key == "k"));
    assert!(matches!(m.request_search_index_reload(s("p")), PluginCommand::One { ref id, data: OnePluginCommandData::ReloadSearchIndex } if id == "p"));
    assert!(matches!(m.stop_command(s("q")), PluginCommand::One { ref id, data: OnePluginCommandData::Stop } if id == "q"));
}

#[test]
fn runtime_end_clears_running_state() {
    let mut m = ApplicationManager::new();
    m.set_plugin_state(s("p"), true, true);
    m.plugin_runtime_ended(&s("p"));
    assert!(!m.is_plugin_running(&s("p")));
    assert_eq!(m.set_plugin_state(s("p"), true, true), PluginStateAction::Start);
}

#[test]
fn lag_turns_into_a_search_index_reload() {
    let cmd = lagged_command(s("p"));
    assert!(matches!(cmd, PluginCommand::One { ref id, data: OnePluginCommandData::ReloadSearchIndex } if id == "p"));
}
