use gauntlet_core::handlers::{EventHandlers, ScriptValue};
use gauntlet_core::messages::{
    check_reply, expect_widget, expected_reply, reply_kind, reply_widget, view_created_event, view_event_event, JsUiEvent, JsUiWidget,
    PendingReplies, ProtocolError, ReplyKind, UiEvent, UiEventViewCreated, UiEventViewEvent, UiRequestData,
    UiResponseData,
};
use gauntlet_core::protocol::{
    decode_properties, encode_properties, DBusUiPropertyContainer, DBusUiPropertyOneValue,
    DBusUiPropertyZeroValue, DBusUiWidget, UiPropertyValue, UiWidget,
};

fn s(x: &str) -> String {
    x.to_owned()
}

fn lookup<'a>(props: &'a [(String, UiPropertyValue)], key: &str) -> Option<&'a UiPropertyValue> {
    props.iter().rev().find(|(k, _)| k == key).map(|(_, v)| v)
}

#[test]
fn widget_converts_both_ways() {
    let w = UiWidget { widget_id: 7 };
    let d: DBusUiWidget = w.into();
    assert_eq!(d, DBusUiWidget { widget_id: 7 });
    let back: UiWidget = d.into();
    assert_eq!(back, w);
}

#[test]
fn encode_splits_functions_from_values() {
    let props = vec![
        (s("onClick"), UiPropertyValue::Function),
        (s("title"), UiPropertyValue::String(s("x"))),
        (s("width"), UiPropertyValue::Number(2.5f64.to_bits())),
        (s("visible"), UiPropertyValue::Bool(true)),
    ];
    let c = encode_properties(&props);
    assert_eq!(c.zero, vec![(s("onClick"), DBusUiPropertyZeroValue::Function)]);
    assert_eq!(c.one.len(), 3);
    assert_eq!(c.one[0].0, "title");
    assert!(matches!(&c.one[0].1, DBusUiPropertyOneValue::String(v) if v == "x"));
    assert!(matches!(c.one[1].1, DBusUiPropertyOneValue::Number(n) if f64::from_bits(n) == 2.5));
    assert!(matches!(c.one[2].1, DBusUiPropertyOneValue::Bool(true)));
}

#[test]
fn function_never_in_value_map() {
    let props = vec![(s("onClick"), UiPropertyValue::Function), (s("onHover"), UiPropertyValue::Function)];
    let c = encode_properties(&props);
    assert!(c.one.is_empty());
    let names: Vec<&str> = c.zero.iter().map(|(k, _)| k.as_str()).collect();
    assert_eq!(names, vec!["onClick", "onHover"]);
}

#[test]
fn property_container_round_trip() {
    let props = vec![
        (s("onClick"), UiPropertyValue::Function),
        (s("title"), UiPropertyValue::String(s("hello"))),
        (s("count"), UiPropertyValue::Number((-3.0f64).to_bits())),
        (s("flag"), UiPropertyValue::Bool(false)),
    ];
    let back = decode_properties(&encode_properties(&props));
    assert_eq!(back.len(), props.len());
    assert!(matches!(lookup(&back, "onClick"), Some(UiPropertyValue::Function)));
    assert!(matches!(lookup(&back, "title"), Some(UiPropertyValue::String(v)) if v == "hello"));
    assert!(matches!(lookup(&back, "count"), Some(UiPropertyValue::Number(n)) if f64::from_bits(*n) == -3.0));
    assert!(matches!(lookup(&back, "flag"), Some(UiPropertyValue::Bool(false))));
}

#[test]
fn empty_container_round_trip() {
    let c = encode_properties(&vec![]);
    assert!(c.zero.is_empty() && c.one.is_empty());
    assert!(decode_properties(&c).is_empty());
}

#[test]
fn decode_lets_values_override_markers() {
    let c = DBusUiPropertyContainer {
        zero: vec![(s("a"), DBusUiPropertyZeroValue::Function)],
        one: vec![(s("a"), DBusUiPropertyOneValue::Bool(true))],
    };
    let back = decode_properties(&c);
    assert!(matches!(lookup(&back, "a"), Some(UiPropertyValue::Bool(true))));
}

#[test]
fn event_round_trip_through_script_form() {
    let events = vec![
        UiEvent::ViewCreated { view_name: s("main") },
        UiEvent::ViewDestroyed,
        UiEvent::ViewEvent { event_name: s("onClick"), widget_id: 4 },
    ];
    for e in events {
        let js: JsUiEvent = e.clone().into();
        let back: UiEvent = js.into();
        assert_eq!(format!("{:?}", back), format!("{:?}", e));
    }
    let js: JsUiEvent = UiEvent::ViewEvent { event_name: s("onClick"), widget_id: 4 }.into();
    assert!(matches!(js, JsUiEvent::ViewEvent { widget: JsUiWidget { widget_id: 4 }, ref event_name } if event_name == "onClick"));
}

#[test]
fn signals_are_filtered_by_plugin() {
    let mine = s("plugin-a");
    let other = s("plugin-b");
    let e = view_created_event(&mine, &mine, UiEventViewCreated { view_name: s("main") });
    assert!(matches!(e, Some(UiEvent::ViewCreated { ref view_name }) if view_name == "main"));
    assert!(view_created_event(&other, &mine, UiEventViewCreated { view_name: s("main") }).is_none());
    let e = view_event_event(&mine, &mine, UiEventViewEvent { event_name: s("onClick"), widget_id: 1 });
    assert!(matches!(e, Some(UiEvent::ViewEvent { widget_id: 1, ref event_name }) if event_name == "onClick"));
    assert!(view_event_event(&other, &mine, UiEventViewEvent { event_name: s("onClick"), widget_id: 1 }).is_none());
}

#[test]
fn reply_kinds_match_requests() {
    assert_eq!(expected_reply(&UiRequestData::GetContainer), ReplyKind::GetContainer);
    assert_eq!(expected_reply(&UiRequestData::CreateTextInstance { text: s("hello") }), ReplyKind::CreateTextInstance);
    assert_eq!(
        expected_reply(&UiRequestData::CloneInstance { widget_type: s("box"), properties: vec![] }),
        ReplyKind::CloneInstance
    );
    assert_eq!(
        expected_reply(&UiRequestData::AppendChild { parent: UiWidget { widget_id: 1 }, child: UiWidget { widget_id: 2 } }),
        ReplyKind::Unit
    );
    let resp = UiResponseData::CreateInstance { widget: UiWidget { widget_id: 3 } };
    assert_eq!(reply_kind(&resp), ReplyKind::CreateInstance);
    assert_eq!(reply_widget(&resp), Some(UiWidget { widget_id: 3 }));
    assert_eq!(reply_widget(&UiResponseData::Unit), None);
}

#[test]
fn simple_view_render() {
    let requests = vec![
        UiRequestData::GetContainer,
        UiRequestData::CreateTextInstance { text: s("hello") },
        UiRequestData::AppendChild { parent: UiWidget { widget_id: 1 }, child: UiWidget { widget_id: 2 } },
    ];
    let mut pending = PendingReplies::new();
    for r in &requests {
        pending.sent(r);
    }
    assert_eq!(pending.len(), 3);
    let c = pending.received(UiResponseData::GetContainer { container: UiWidget { widget_id: 1 } });
    assert_eq!(c, Ok(UiResponseData::GetContainer { container: UiWidget { widget_id: 1 } }));
    let t = pending.received(UiResponseData::CreateTextInstance { widget: UiWidget { widget_id: 2 } });
    assert_eq!(reply_widget(&t.unwrap()), Some(UiWidget { widget_id: 2 }));
    assert_eq!(pending.received(UiResponseData::Unit), Ok(UiResponseData::Unit));
    assert_eq!(pending.len(), 0);
}

#[test]
fn mismatched_reply_is_a_protocol_error() {
    let mut pending = PendingReplies::new();
    pending.sent(&UiRequestData::GetContainer);
    pending.sent(&UiRequestData::CreateTextInstance { text: s("x") });
    let r = pending.received(UiResponseData::CreateTextInstance { widget: UiWidget { widget_id: 9 } });
    assert_eq!(
        r,
        Err(ProtocolError::UnexpectedResponse { expected: ReplyKind::GetContainer, received: ReplyKind::CreateTextInstance })
    );
    assert_eq!(pending.len(), 1);
}

#[test]
fn reply_without_request_is_a_protocol_error() {
    let mut pending = PendingReplies::new();
    assert_eq!(pending.received(UiResponseData::Unit), Err(ProtocolError::NoPendingRequest));
    assert_eq!(pending.len(), 0);
}

#[test]
fn event_roundtrip_scenario() {
    let mut handlers: EventHandlers<&'static str> = EventHandlers::new();
    let props = vec![(s("onClick"), ScriptValue::Function("click-fn")), (s("title"), ScriptValue::String(s("x")))];
    let out = handlers.bind_properties(1, props);
    let c = encode_properties(&out);
    assert_eq!(c.zero, vec![(s("onClick"), DBusUiPropertyZeroValue::Function)]);
    assert_eq!(c.one.len(), 1);
    assert_eq!(c.one[0].0, "title");
    assert!(matches!(&c.one[0].1, DBusUiPropertyOneValue::String(v) if v == "x"));
    let event = view_event_event(&s("p"), &s("p"), UiEventViewEvent { event_name: s("onClick"), widget_id: 1 });
    match event {
        Some(UiEvent::ViewEvent { event_name, widget_id }) => {
            assert_eq!(handlers.listener(widget_id, &event_name), Some(&"click-fn"));
        }
        _ => panic!("expected a view event"),
    }
}

#[test]
fn host_ops_take_the_widget_of_the_matching_reply() {
    let get = UiRequestData::GetContainer;
    let ok = UiResponseData::GetContainer { container: UiWidget { widget_id: 1 } };
    assert_eq!(expect_widget(&get, &ok), Ok(UiWidget { widget_id: 1 }));
    let wrong = UiResponseData::CreateInstance { widget: UiWidget { widget_id: 2 } };
    assert_eq!(
        expect_widget(&get, &wrong),
        Err(ProtocolError::UnexpectedResponse { expected: ReplyKind::GetContainer, received: ReplyKind::CreateInstance })
    );
    let text = UiRequestData::CreateTextInstance { text: s("hello") };
    let reply = UiResponseData::CreateTextInstance { widget: UiWidget { widget_id: 2 } };
    assert_eq!(expect_widget(&text, &reply), Ok(UiWidget { widget_id: 2 }));
    let append = UiRequestData::AppendChild { parent: UiWidget { widget_id: 1 }, child: UiWidget { widget_id: 2 } };
    assert_eq!(
        expect_widget(&append, &UiResponseData::Unit),
        Err(ProtocolError::NoWidgetExpected { expected: ReplyKind::Unit })
    );
}

#[test]
fn single_reply_is_checked_against_its_request() {
    let req = UiRequestData::CreateInstance { widget_type: s("button"), properties: vec![] };
    let good = UiResponseData::CreateInstance { widget: UiWidget { widget_id: 5 } };
    assert_eq!(check_reply(&req, good), Ok(good));
    assert_eq!(
        check_reply(&req, UiResponseData::Unit),
        Err(ProtocolError::UnexpectedResponse { expected: ReplyKind::CreateInstance, received: ReplyKind::Unit })
    );
}
