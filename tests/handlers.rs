use gauntlet_core::handlers::{is_children_key, EventHandlers, ScriptValue};
use gauntlet_core::protocol::UiPropertyValue;

fn s(x: &str) -> String {
    x.to_owned()
}

#[test]
fn add_and_look_up_listener() {
    let mut h: EventHandlers<u32> = EventHandlers::new();
    assert_eq!(h.listener(1, &s("onClick")), None);
    h.add_listener(1, s("onClick"), 10);
    assert_eq!(h.listener(1, &s("onClick")), Some(&10));
    assert_eq!(h.listener(2, &s("onClick")), None);
    assert_eq!(h.listener(1, &s("onHover")), None);
}

#[test]
fn later_listener_replaces_earlier() {
    let mut h: EventHandlers<u32> = EventHandlers::new();
    h.add_listener(1, s("onClick"), 10);
    h.add_listener(1, s("onClick"), 11);
    assert_eq!(h.listener(1, &s("onClick")), Some(&11));
    h.remove_listener(1, &s("onClick"));
    assert_eq!(h.listener(1, &s("onClick")), None);
}

#[test]
fn last_callable_wins_across_set_properties() {
    let mut h: EventHandlers<u32> = EventHandlers::new();
    h.bind_properties(5, vec![(s("onClick"), ScriptValue::Function(1))]);
    h.bind_properties(5, vec![(s("onClick"), ScriptValue::Function(2)), (s("onClick"), ScriptValue::Function(3))]);
    assert_eq!(h.listener(5, &s("onClick")), Some(&3));
}

#[test]
fn plain_value_unbinds_listener() {
    let mut h: EventHandlers<u32> = EventHandlers::new();
    h.bind_properties(5, vec![(s("onClick"), ScriptValue::Function(1))]);
    let out = h.bind_properties(5, vec![(s("onClick"), ScriptValue::Bool(false))]);
    assert_eq!(h.listener(5, &s("onClick")), None);
    assert!(matches!(out[0].1, UiPropertyValue::Bool(false)));
}

#[test]
fn other_widgets_keep_their_listeners() {
    let mut h: EventHandlers<u32> = EventHandlers::new();
    h.add_listener(1, s("onClick"), 1);
    h.bind_properties(2, vec![(s("onClick"), ScriptValue::Function(2))]);
    assert_eq!(h.listener(1, &s("onClick")), Some(&1));
    assert_eq!(h.listener(2, &s("onClick")), Some(&2));
}

#[test]
fn children_are_not_sent() {
    let mut h: EventHandlers<u32> = EventHandlers::new();
    let out = h.bind_properties(
        3,
        vec![
            (s("children"), ScriptValue::Function(9)),
            (s("title"), ScriptValue::Number(1.0f64.to_bits())),
            (s("onClick"), ScriptValue::Function(4)),
        ],
    );
    assert_eq!(out.len(), 2);
    assert_eq!(out[0].0, "title");
    assert!(matches!(out[0].1, UiPropertyValue::Number(n) if f64::from_bits(n) == 1.0));
    assert_eq!(out[1].0, "onClick");
    assert!(matches!(out[1].1, UiPropertyValue::Function));
    assert_eq!(h.listener(3, &s("children")), None);
    assert!(is_children_key(&s("children")));
    assert!(!is_children_key(&s("child")));
}

#[test]
fn clear_widget_drops_only_that_widget() {
    let mut h: EventHandlers<u32> = EventHandlers::new();
    h.add_listener(1, s("onClick"), 1);
    h.add_listener(2, s("onClick"), 2);
    h.add_listener(1, s("onHover"), 3);
    h.clear_widget(1);
    assert_eq!(h.listener(1, &s("onClick")), None);
    assert_eq!(h.listener(1, &s("onHover")), None);
    assert_eq!(h.listener(2, &s("onClick")), Some(&2));
    h.clear_widget(9);
    assert_eq!(h.listener(2, &s("onClick")), Some(&2));
}
