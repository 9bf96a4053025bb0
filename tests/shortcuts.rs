use gauntlet_core::shortcuts::{
    action_shortcuts, ActionShortcutKind, DbPluginAction, DbPluginActionShortcutKind, DbPluginActionUserData,
};

fn s(x: &str) -> String {
    x.to_owned()
}

#[test]
fn user_override_takes_precedence() {
    let actions = vec![
        DbPluginAction { id: s("copy"), key: s("c"), kind: DbPluginActionShortcutKind::Main },
        DbPluginAction { id: s("open"), key: s("o"), kind: DbPluginActionShortcutKind::Alternative },
    ];
    let user = vec![DbPluginActionUserData { id: s("copy"), key: s("k"), kind: DbPluginActionShortcutKind::Alternative }];
    let r = action_shortcuts(&actions, &user);
    assert_eq!(r.len(), 2);
    assert_eq!(r[0].0, "copy");
    assert_eq!(r[0].1.key, "k");
    assert_eq!(r[0].1.kind, ActionShortcutKind::Alternative);
    assert_eq!(r[1].0, "open");
    assert_eq!(r[1].1.key, "o");
    assert_eq!(r[1].1.kind, ActionShortcutKind::Alternative);
}

#[test]
fn last_override_counts() {
    let actions = vec![DbPluginAction { id: s("copy"), key: s("c"), kind: DbPluginActionShortcutKind::Main }];
    let user = vec![
        DbPluginActionUserData { id: s("copy"), key: s("x"), kind: DbPluginActionShortcutKind::Alternative },
        DbPluginActionUserData { id: s("copy"), key: s("y"), kind: DbPluginActionShortcutKind::Main },
    ];
    let r = action_shortcuts(&actions, &user);
    assert_eq!(r[0].1.key, "y");
    assert_eq!(r[0].1.kind, ActionShortcutKind::Main);
}

#[test]
fn no_actions_no_shortcuts() {
    let user = vec![DbPluginActionUserData { id: s("copy"), key: s("x"), kind: DbPluginActionShortcutKind::Main }];
    assert!(action_shortcuts(&vec![], &user).is_empty());
}
