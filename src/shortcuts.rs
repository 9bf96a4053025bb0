use vstd::prelude::*;

verus! {

/// Which of the two shortcut slots an action uses, as stored.
#[derive(Debug, Clone, Copy, PartialEq, Eq, Structural)]
pub enum DbPluginActionShortcutKind {
    Main,
    Alternative,
}

/// An action shortcut as the plugin declares it.
#[derive(Debug, Clone)]
pub struct DbPluginAction {
    pub id: String,
    pub key: String,
    pub kind: DbPluginActionShortcutKind,
}

/// A user's override of an action's shortcut.
#[derive(Debug, Clone)]
pub struct DbPluginActionUserData {
    pub id: String,
    pub key: String,
    pub kind: DbPluginActionShortcutKind,
}

/// Which of the two shortcut slots an action uses.
#[derive(Debug, Clone, Copy, PartialEq, Eq, Structural)]
pub enum ActionShortcutKind {
    Main,
    Alternative,
}

/// The shortcut in effect for an action.
#[derive(Debug, Clone)]
pub struct ActionShortcut {
    pub key: String,
    pub kind: ActionShortcutKind,
}

pub open spec fn kind_spec(kind: DbPluginActionShortcutKind) -> ActionShortcutKind {
    match kind {
        DbPluginActionShortcutKind::Main => ActionShortcutKind::Main,
        DbPluginActionShortcutKind::Alternative => ActionShortcutKind::Alternative,
    }
}

fn shortcut_kind(kind: DbPluginActionShortcutKind) -> (r: ActionShortcutKind)
    ensures
        r == kind_spec(kind),
{
    match kind {
        DbPluginActionShortcutKind::Main => ActionShortcutKind::Main,
        DbPluginActionShortcutKind::Alternative => ActionShortcutKind::Alternative,
    }
}

/// The user's override for action `id`; of several, the last one counts.
pub open spec fn user_override(data: Seq<DbPluginActionUserData>, id: Seq<char>) -> Option<DbPluginActionUserData>
    decreases data.len(),
{
    if data.len() == 0 {
        None
    } else if data.last().id@ == id {
        Some(data.last())
    } else {
        user_override(data.drop_last(), id)
    }
}

/// The shortcut in effect: the user's key and kind where an override exists,
/// else the declared ones.
pub open spec fn effective_shortcut(action: DbPluginAction, data: Seq<DbPluginActionUserData>) -> (String, ActionShortcutKind) {
    match user_override(data, action.id@) {
        Some(u) => (u.key, kind_spec(u.kind)),
        None => (action.key, kind_spec(action.kind)),
    }
}

fn find_override(data: &Vec<DbPluginActionUserData>, id: &String) -> (r: Option<usize>)
    ensures
        match user_override(data@, id@) {
            Some(u) => r matches Some(i) && i < data@.len() && data@[i as int] == u,
            None => r is None,
        },
{
    let mut i: usize = data.len();
    proof {
        assert(data@.take(i as int) =~= data@);
    }
    while i > 0
        invariant
            i <= data@.len(),
            user_override(data@, id@) == user_override(data@.take(i as int), id@),
        decreases i,
    {
        proof {
            assert(data@.take(i as int).drop_last() =~= data@.take(i - 1));
            assert(data@.take(i as int).last() == data@[i - 1]);
        }
        if data[i - 1].id == *id {
            return Some(i - 1);
        }
        i = i - 1;
    }
    None
}

/// The shortcuts of an entrypoint's actions, in the order of declaration:
/// each action's id with its user override where one exists, its declared
/// shortcut otherwise.
pub fn action_shortcuts(actions: &Vec<DbPluginAction>, actions_user_data: &Vec<DbPluginActionUserData>) -> (r: Vec<
    (String, ActionShortcut),
>)
    ensures
        r@.len() == actions@.len(),
        forall|i: int|
            0 <= i < actions@.len() ==> (#[trigger] r@[i]).0 == actions@[i].id && (r@[i].1.key, r@[i].1.kind)
                == effective_shortcut(actions@[i], actions_user_data@),
{
    let mut r: Vec<(String, ActionShortcut)> = Vec::new();
    let mut i: usize = 0;
    while i < actions.len()
        invariant
            i <= actions@.len(),
            r@.len() == i,
            forall|j: int|
                0 <= j < i ==> (#[trigger] r@[j]).0 == actions@[j].id && (r@[j].1.key, r@[j].1.kind)
                    == effective_shortcut(actions@[j], actions_user_data@),
        decreases actions.len() - i,
    {
        let action = &actions[i];
        let shortcut = match find_override(actions_user_data, &action.id) {
            Some(u) => ActionShortcut {
                key: actions_user_data[u].key.clone(),
                kind: shortcut_kind(actions_user_data[u].kind),
            },
            None => ActionShortcut { key: action.key.clone(), kind: shortcut_kind(action.kind) },
        };
        r.push((action.id.clone(), shortcut));
        i = i + 1;
    }
    r
}

} // verus!
