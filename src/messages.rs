use vstd::prelude::*;

use crate::protocol::{UiEventName, UiPropertyValue, UiWidget, UiWidgetId};

verus! {

/// An event that flows from the UI process to a plugin.
#[derive(Debug, Clone)]
pub enum UiEvent {
    ViewCreated { view_name: String },
    ViewDestroyed,
    ViewEvent { event_name: UiEventName, widget_id: UiWidgetId },
}

/// Payload of the "view created" signal of the UI process.
#[derive(Debug, Clone)]
pub struct UiEventViewCreated {
    pub view_name: String,
}

/// Payload of the "view event" signal of the UI process.
#[derive(Debug, Clone)]
pub struct UiEventViewEvent {
    pub event_name: UiEventName,
    pub widget_id: UiWidgetId,
}

/// A widget handle as the script sees it.
#[derive(Debug, PartialEq, Eq, Structural, Clone, Copy)]
pub struct JsUiWidget {
    pub widget_id: UiWidgetId,
}

/// An event in the shape that the script receives.
#[derive(Debug, Clone)]
pub enum JsUiEvent {
    ViewCreated { view_name: String },
    ViewDestroyed,
    ViewEvent { widget: JsUiWidget, event_name: UiEventName },
}

pub open spec fn event_to_js(e: UiEvent) -> JsUiEvent {
    match e {
        UiEvent::ViewCreated { view_name } => JsUiEvent::ViewCreated { view_name },
        UiEvent::ViewDestroyed => JsUiEvent::ViewDestroyed,
        UiEvent::ViewEvent { event_name, widget_id } => JsUiEvent::ViewEvent {
            widget: JsUiWidget { widget_id },
            event_name,
        },
    }
}

pub open spec fn event_from_js(e: JsUiEvent) -> UiEvent {
    match e {
        JsUiEvent::ViewCreated { view_name } => UiEvent::ViewCreated { view_name },
        JsUiEvent::ViewDestroyed => UiEvent::ViewDestroyed,
        JsUiEvent::ViewEvent { widget, event_name } => UiEvent::ViewEvent {
            event_name,
            widget_id: widget.widget_id,
        },
    }
}

impl From<UiEvent> for JsUiEvent {
    fn from(value: UiEvent) -> (r: JsUiEvent) {
        match value {
            UiEvent::ViewCreated { view_name } => JsUiEvent::ViewCreated { view_name },
            UiEvent::ViewDestroyed => JsUiEvent::ViewDestroyed,
            UiEvent::ViewEvent { event_name, widget_id } => JsUiEvent::ViewEvent {
                widget: JsUiWidget { widget_id },
                event_name,
            },
        }
    }
}

impl vstd::std_specs::convert::FromSpecImpl<UiEvent> for JsUiEvent {
    open spec fn obeys_from_spec() -> bool {
        true
    }

    open spec fn from_spec(v: UiEvent) -> JsUiEvent {
        event_to_js(v)
    }
}

impl From<JsUiEvent> for UiEvent {
    fn from(value: JsUiEvent) -> (r: UiEvent) {
        match value {
            JsUiEvent::ViewCreated { view_name } => UiEvent::ViewCreated { view_name },
            JsUiEvent::ViewDestroyed => UiEvent::ViewDestroyed,
            JsUiEvent::ViewEvent { widget, event_name } => UiEvent::ViewEvent {
                event_name,
                widget_id: widget.widget_id,
            },
        }
    }
}

impl vstd::std_specs::convert::FromSpecImpl<JsUiEvent> for UiEvent {
    open spec fn obeys_from_spec() -> bool {
        true
    }

    open spec fn from_spec(v: JsUiEvent) -> UiEvent {
        event_from_js(v)
    }
}

/// Handing an event to the script and reading it back gives the same event,
/// and the other way round.
pub proof fn lemma_event_round_trip(e: UiEvent, j: JsUiEvent)
    ensures
        event_from_js(event_to_js(e)) == e,
        event_to_js(event_from_js(j)) == j,
{
}

/// The event that a "view created" signal yields for the plugin `plugin_id`:
/// none when the signal is addressed to another plugin.
pub fn view_created_event(signal_plugin_id: &String, plugin_id: &String, signal: UiEventViewCreated) -> (r:
    Option<UiEvent>)
    ensures
        r == (if signal_plugin_id@ == plugin_id@ {
            Some(UiEvent::ViewCreated { view_name: signal.view_name })
        } else {
            None
        }),
{
    if *signal_plugin_id == *plugin_id {
        Some(UiEvent::ViewCreated { view_name: signal.view_name })
    } else {
        None
    }
}

/// The event that a "view event" signal yields for the plugin `plugin_id`:
/// none when the signal is addressed to another plugin.
pub fn view_event_event(signal_plugin_id: &String, plugin_id: &String, signal: UiEventViewEvent) -> (r:
    Option<UiEvent>)
    ensures
        r == (if signal_plugin_id@ == plugin_id@ {
            Some(UiEvent::ViewEvent { event_name: signal.event_name, widget_id: signal.widget_id })
        } else {
            None
        }),
{
    if *signal_plugin_id == *plugin_id {
        Some(UiEvent::ViewEvent { event_name: signal.event_name, widget_id: signal.widget_id })
    } else {
        None
    }
}

/// A request from a plugin to the UI process.
#[derive(Debug, Clone)]
pub enum UiRequestData {
    GetContainer,
    CreateInstance { widget_type: String, properties: Vec<(String, UiPropertyValue)> },
    CreateTextInstance { text: String },
    CloneInstance { widget_type: String, properties: Vec<(String, UiPropertyValue)> },
    AppendChild { parent: UiWidget, child: UiWidget },
    RemoveChild { parent: UiWidget, child: UiWidget },
    InsertBefore { parent: UiWidget, child: UiWidget, before_child: UiWidget },
    ReplaceContainerChildren { container: UiWidget, new_children: Vec<UiWidget> },
    SetProperties { widget: UiWidget, properties: Vec<(String, UiPropertyValue)> },
    SetText { widget: UiWidget, text: String },
}

/// The reply of the UI process to one request.
#[derive(Debug, Clone, Copy, PartialEq, Eq, Structural)]
pub enum UiResponseData {
    GetContainer { container: UiWidget },
    CreateInstance { widget: UiWidget },
    CreateTextInstance { widget: UiWidget },
    CloneInstance { widget: UiWidget },
    Unit,
}

/// The tag of a reply, without its data.
#[derive(Debug, Clone, Copy, PartialEq, Eq, Structural)]
pub enum ReplyKind {
    GetContainer,
    CreateInstance,
    CreateTextInstance,
    CloneInstance,
    Unit,
}

pub open spec fn expected_reply_spec(req: UiRequestData) -> ReplyKind {
    match req {
        UiRequestData::GetContainer => ReplyKind::GetContainer,
        UiRequestData::CreateInstance { .. } => ReplyKind::CreateInstance,
        UiRequestData::CreateTextInstance { .. } => ReplyKind::CreateTextInstance,
        UiRequestData::CloneInstance { .. } => ReplyKind::CloneInstance,
        _ => ReplyKind::Unit,
    }
}

pub open spec fn reply_kind_spec(resp: UiResponseData) -> ReplyKind {
    match resp {
        UiResponseData::GetContainer { .. } => ReplyKind::GetContainer,
        UiResponseData::CreateInstance { .. } => ReplyKind::CreateInstance,
        UiResponseData::CreateTextInstance { .. } => ReplyKind::CreateTextInstance,
        UiResponseData::CloneInstance { .. } => ReplyKind::CloneInstance,
        UiResponseData::Unit => ReplyKind::Unit,
    }
}

/// The kind of reply that a request calls for.
pub fn expected_reply(req: &UiRequestData) -> (r: ReplyKind)
    ensures
        r == expected_reply_spec(*req),
{
    match req {
        UiRequestData::GetContainer => ReplyKind::GetContainer,
        UiRequestData::CreateInstance { .. } => ReplyKind::CreateInstance,
        UiRequestData::CreateTextInstance { .. } => ReplyKind::CreateTextInstance,
        UiRequestData::CloneInstance { .. } => ReplyKind::CloneInstance,
        _ => ReplyKind::Unit,
    }
}

/// The kind of a reply.
pub fn reply_kind(resp: &UiResponseData) -> (r: ReplyKind)
    ensures
        r == reply_kind_spec(*resp),
{
    match resp {
        UiResponseData::GetContainer { .. } => ReplyKind::GetContainer,
        UiResponseData::CreateInstance { .. } => ReplyKind::CreateInstance,
        UiResponseData::CreateTextInstance { .. } => ReplyKind::CreateTextInstance,
        UiResponseData::CloneInstance { .. } => ReplyKind::CloneInstance,
        UiResponseData::Unit => ReplyKind::Unit,
    }
}

/// The widget that a reply carries, if any.
pub fn reply_widget(resp: &UiResponseData) -> (r: Option<UiWidget>)
    ensures
        r == (match *resp {
            UiResponseData::GetContainer { container } => Some(container),
            UiResponseData::CreateInstance { widget } => Some(widget),
            UiResponseData::CreateTextInstance { widget } => Some(widget),
            UiResponseData::CloneInstance { widget } => Some(widget),
            UiResponseData::Unit => None,
        }),
{
    match resp {
        UiResponseData::GetContainer { container } => Some(*container),
        UiResponseData::CreateInstance { widget } => Some(*widget),
        UiResponseData::CreateTextInstance { widget } => Some(*widget),
        UiResponseData::CloneInstance { widget } => Some(*widget),
        UiResponseData::Unit => None,
    }
}

/// A reply that the bridge cannot pair with the request it answers.
#[derive(Debug, Clone, Copy, PartialEq, Eq, Structural)]
pub enum ProtocolError {
    /// A reply came while no request was waiting.
    NoPendingRequest,
    /// The reply's tag is not the one that the oldest request calls for.
    UnexpectedResponse { expected: ReplyKind, received: ReplyKind },
    /// The request calls for no widget.
    NoWidgetExpected { expected: ReplyKind },
}

/// The reply to `req`, provided it carries the tag that `req` calls for.
pub fn check_reply(req: &UiRequestData, resp: UiResponseData) -> (r: Result<UiResponseData, ProtocolError>)
    ensures
        r == (if reply_kind_spec(resp) == expected_reply_spec(*req) {
            Ok::<UiResponseData, ProtocolError>(resp)
        } else {
            Err(ProtocolError::UnexpectedResponse {
                expected: expected_reply_spec(*req),
                received: reply_kind_spec(resp),
            })
        }),
{
    let expected = expected_reply(req);
    let received = reply_kind(&resp);
    if received == expected {
        Ok(resp)
    } else {
        Err(ProtocolError::UnexpectedResponse { expected, received })
    }
}

/// The widget that `resp` returns for `req`: the reply must carry the tag
/// that the request calls for, and that tag must carry a widget.
pub fn expect_widget(req: &UiRequestData, resp: &UiResponseData) -> (r: Result<UiWidget, ProtocolError>)
    ensures
        expected_reply_spec(*req) == ReplyKind::Unit ==> r == Err::<UiWidget, ProtocolError>(
            ProtocolError::NoWidgetExpected { expected: ReplyKind::Unit },
        ),
        expected_reply_spec(*req) != ReplyKind::Unit && reply_kind_spec(*resp) != expected_reply_spec(*req) ==> r
            == Err::<UiWidget, ProtocolError>(
            ProtocolError::UnexpectedResponse {
                expected: expected_reply_spec(*req),
                received: reply_kind_spec(*resp),
            },
        ),
        expected_reply_spec(*req) != ReplyKind::Unit && reply_kind_spec(*resp) == expected_reply_spec(*req) ==> (
        match *resp {
            UiResponseData::GetContainer { container } => r == Ok::<UiWidget, ProtocolError>(container),
            UiResponseData::CreateInstance { widget } => r == Ok::<UiWidget, ProtocolError>(widget),
            UiResponseData::CreateTextInstance { widget } => r == Ok::<UiWidget, ProtocolError>(widget),
            UiResponseData::CloneInstance { widget } => r == Ok::<UiWidget, ProtocolError>(widget),
            UiResponseData::Unit => false,
        }),
{
    let expected = expected_reply(req);
    if expected == ReplyKind::Unit {
        return Err(ProtocolError::NoWidgetExpected { expected });
    }
    let received = reply_kind(resp);
    if received != expected {
        return Err(ProtocolError::UnexpectedResponse { expected, received });
    }
    match reply_widget(resp) {
        Some(w) => Ok(w),
        None => Err(ProtocolError::NoWidgetExpected { expected }),
    }
}

/// The requests of one plugin that still wait for a reply, oldest first.
/// Replies are paired with requests strictly in the order of sending.
pub struct PendingReplies {
    waiting: Vec<ReplyKind>,
}

impl View for PendingReplies {
    type V = Seq<ReplyKind>;

    closed spec fn view(&self) -> Seq<ReplyKind> {
        self.waiting@
    }
}

impl PendingReplies {
    pub fn new() -> (r: PendingReplies)
        ensures
            r@ == Seq::<ReplyKind>::empty(),
    {
        PendingReplies { waiting: Vec::new() }
    }

    pub fn len(&self) -> (r: usize)
        ensures
            r == self@.len(),
    {
        self.waiting.len()
    }

    /// Records that `req` was sent and waits for its reply.
    pub fn sent(&mut self, req: &UiRequestData)
        ensures
            final(self)@ == old(self)@.push(expected_reply_spec(*req)),
    {
        let kind = expected_reply(req);
        self.waiting.push(kind);
    }

    /// Pairs `resp` with the oldest waiting request. The reply is handed back
    /// when its tag is the one that request calls for; the request stops
    /// waiting either way.
    pub fn received(&mut self, resp: UiResponseData) -> (r: Result<UiResponseData, ProtocolError>)
        ensures
            old(self)@.len() == 0 ==> final(self)@ == old(self)@ && r == Err::<UiResponseData, ProtocolError>(
                ProtocolError::NoPendingRequest,
            ),
            old(self)@.len() > 0 ==> final(self)@ == old(self)@.drop_first() && r == (if reply_kind_spec(resp)
                == old(self)@[0] {
                Ok::<UiResponseData, ProtocolError>(resp)
            } else {
                Err(ProtocolError::UnexpectedResponse { expected: old(self)@[0], received: reply_kind_spec(resp) })
            }),
    {
        if self.waiting.len() == 0 {
            return Err(ProtocolError::NoPendingRequest);
        }
        let expected = self.waiting.remove(0);
        proof {
            assert(self.waiting@ =~= old(self)@.drop_first());
        }
        let received = reply_kind(&resp);
        if received == expected {
            Ok(resp)
        } else {
            Err(ProtocolError::UnexpectedResponse { expected, received })
        }
    }
}

} // verus!
