use vstd::prelude::*;

use crate::messages::UiRequestData;
use crate::protocol::{
    decode_container, decode_properties, encode_one, encode_properties, encode_zero, keys_unique, lemma_properties_round_trip,
    lookup, DBusUiPropertyContainer, DBusUiWidget, UiPropertyValue, UiWidget,
};

verus! {

/// A request as it travels on the transport: widgets in their wire form and
/// properties split into reference- and value-carrying maps.
#[derive(Debug, Clone)]
pub enum DBusUiRequest {
    GetContainer,
    CreateInstance { widget_type: String, properties: DBusUiPropertyContainer },
    CreateTextInstance { text: String },
    CloneInstance { widget_type: String, properties: DBusUiPropertyContainer },
    AppendChild { parent: DBusUiWidget, child: DBusUiWidget },
    RemoveChild { parent: DBusUiWidget, child: DBusUiWidget },
    InsertBefore { parent: DBusUiWidget, child: DBusUiWidget, before_child: DBusUiWidget },
    ReplaceContainerChildren { container: DBusUiWidget, new_children: Vec<DBusUiWidget> },
    SetProperties { widget: DBusUiWidget, properties: DBusUiPropertyContainer },
    SetText { widget: DBusUiWidget, text: String },
}

pub open spec fn encodes_properties(p: Seq<(String, UiPropertyValue)>, c: DBusUiPropertyContainer) -> bool {
    c.zero@ == encode_zero(p) && c.one@ == encode_one(p)
}

pub open spec fn same_widgets(a: Seq<UiWidget>, b: Seq<DBusUiWidget>) -> bool {
    a.len() == b.len() && forall|i: int| 0 <= i < a.len() ==> (#[trigger] a[i]).widget_id == b[i].widget_id
}

/// `w` is the wire form of `r`.
pub open spec fn encodes_request(r: UiRequestData, w: DBusUiRequest) -> bool {
    match (r, w) {
        (UiRequestData::GetContainer, DBusUiRequest::GetContainer) => true,
        (
            UiRequestData::CreateInstance { widget_type: t1, properties: p },
            DBusUiRequest::CreateInstance { widget_type: t2, properties: c },
        ) => t1 == t2 && encodes_properties(p@, c),
        (UiRequestData::CreateTextInstance { text: t1 }, DBusUiRequest::CreateTextInstance { text: t2 }) => t1 == t2,
        (
            UiRequestData::CloneInstance { widget_type: t1, properties: p },
            DBusUiRequest::CloneInstance { widget_type: t2, properties: c },
        ) => t1 == t2 && encodes_properties(p@, c),
        (
            UiRequestData::AppendChild { parent: pa, child: c1 },
            DBusUiRequest::AppendChild { parent: pb, child: c2 },
        ) => pa.widget_id == pb.widget_id && c1.widget_id == c2.widget_id,
        (
            UiRequestData::RemoveChild { parent: pa, child: c1 },
            DBusUiRequest::RemoveChild { parent: pb, child: c2 },
        ) => pa.widget_id == pb.widget_id && c1.widget_id == c2.widget_id,
        (
            UiRequestData::InsertBefore { parent: pa, child: c1, before_child: b1 },
            DBusUiRequest::InsertBefore { parent: pb, child: c2, before_child: b2 },
        ) => pa.widget_id == pb.widget_id && c1.widget_id == c2.widget_id && b1.widget_id == b2.widget_id,
        (
            UiRequestData::ReplaceContainerChildren { container: c1, new_children: n1 },
            DBusUiRequest::ReplaceContainerChildren { container: c2, new_children: n2 },
        ) => c1.widget_id == c2.widget_id && same_widgets(n1@, n2@),
        (
            UiRequestData::SetProperties { widget: w1, properties: p },
            DBusUiRequest::SetProperties { widget: w2, properties: c },
        ) => w1.widget_id == w2.widget_id && encodes_properties(p@, c),
        (UiRequestData::SetText { widget: w1, text: t1 }, DBusUiRequest::SetText { widget: w2, text: t2 }) => w1.widget_id
            == w2.widget_id && t1 == t2,
        _ => false,
    }
}

/// `r` is the request that a receiver rebuilds from `w`.
pub open spec fn decodes_request(w: DBusUiRequest, r: UiRequestData) -> bool {
    match (w, r) {
        (DBusUiRequest::GetContainer, UiRequestData::GetContainer) => true,
        (
            DBusUiRequest::CreateInstance { widget_type: t2, properties: c },
            UiRequestData::CreateInstance { widget_type: t1, properties: p },
        ) => t1 == t2 && p@ == decode_container(c.zero@, c.one@),
        (DBusUiRequest::CreateTextInstance { text: t2 }, UiRequestData::CreateTextInstance { text: t1 }) => t1 == t2,
        (
            DBusUiRequest::CloneInstance { widget_type: t2, properties: c },
            UiRequestData::CloneInstance { widget_type: t1, properties: p },
        ) => t1 == t2 && p@ == decode_container(c.zero@, c.one@),
        (
            DBusUiRequest::AppendChild { parent: pb, child: c2 },
            UiRequestData::AppendChild { parent: pa, child: c1 },
        ) => pa.widget_id == pb.widget_id && c1.widget_id == c2.widget_id,
        (
            DBusUiRequest::RemoveChild { parent: pb, child: c2 },
            UiRequestData::RemoveChild { parent: pa, child: c1 },
        ) => pa.widget_id == pb.widget_id && c1.widget_id == c2.widget_id,
        (
            DBusUiRequest::InsertBefore { parent: pb, child: c2, before_child: b2 },
            UiRequestData::InsertBefore { parent: pa, child: c1, before_child: b1 },
        ) => pa.widget_id == pb.widget_id && c1.widget_id == c2.widget_id && b1.widget_id == b2.widget_id,
        (
            DBusUiRequest::ReplaceContainerChildren { container: c2, new_children: n2 },
            UiRequestData::ReplaceContainerChildren { container: c1, new_children: n1 },
        ) => c1.widget_id == c2.widget_id && same_widgets(n1@, n2@),
        (
            DBusUiRequest::SetProperties { widget: w2, properties: c },
            UiRequestData::SetProperties { widget: w1, properties: p },
        ) => w1.widget_id == w2.widget_id && p@ == decode_container(c.zero@, c.one@),
        (DBusUiRequest::SetText { widget: w2, text: t2 }, UiRequestData::SetText { widget: w1, text: t1 }) => w1.widget_id
            == w2.widget_id && t1 == t2,
        _ => false,
    }
}

/// Two property mappings bind every key to the same value.
pub open spec fn same_properties(a: Seq<(String, UiPropertyValue)>, b: Seq<(String, UiPropertyValue)>) -> bool {
    forall|k: Seq<char>| #[trigger] lookup(a, k) == lookup(b, k)
}

/// The property lists of a request have no repeated key.
pub open spec fn request_keys_unique(r: UiRequestData) -> bool {
    match r {
        UiRequestData::CreateInstance { properties, .. } => keys_unique(properties@),
        UiRequestData::CloneInstance { properties, .. } => keys_unique(properties@),
        UiRequestData::SetProperties { properties, .. } => keys_unique(properties@),
        _ => true,
    }
}

/// Two requests are the same: same variant and fields, property lists read
/// as mappings.
pub open spec fn same_request(a: UiRequestData, b: UiRequestData) -> bool {
    match (a, b) {
        (UiRequestData::GetContainer, UiRequestData::GetContainer) => true,
        (
            UiRequestData::CreateInstance { widget_type: t1, properties: pa },
            UiRequestData::CreateInstance { widget_type: t2, properties: pb },
        ) => t1 == t2 && same_properties(pa@, pb@),
        (UiRequestData::CreateTextInstance { text: t1 }, UiRequestData::CreateTextInstance { text: t2 }) => t1 == t2,
        (
            UiRequestData::CloneInstance { widget_type: t1, properties: pa },
            UiRequestData::CloneInstance { widget_type: t2, properties: pb },
        ) => t1 == t2 && same_properties(pa@, pb@),
        (
            UiRequestData::AppendChild { parent: pa, child: c1 },
            UiRequestData::AppendChild { parent: pb, child: c2 },
        ) => pa == pb && c1 == c2,
        (
            UiRequestData::RemoveChild { parent: pa, child: c1 },
            UiRequestData::RemoveChild { parent: pb, child: c2 },
        ) => pa == pb && c1 == c2,
        (
            UiRequestData::InsertBefore { parent: pa, child: c1, before_child: b1 },
            UiRequestData::InsertBefore { parent: pb, child: c2, before_child: b2 },
        ) => pa == pb && c1 == c2 && b1 == b2,
        (
            UiRequestData::ReplaceContainerChildren { container: c1, new_children: n1 },
            UiRequestData::ReplaceContainerChildren { container: c2, new_children: n2 },
        ) => c1 == c2 && n1@ == n2@,
        (
            UiRequestData::SetProperties { widget: w1, properties: pa },
            UiRequestData::SetProperties { widget: w2, properties: pb },
        ) => w1 == w2 && same_properties(pa@, pb@),
        (UiRequestData::SetText { widget: w1, text: t1 }, UiRequestData::SetText { widget: w2, text: t2 }) => w1 == w2
            && t1 == t2,
        _ => false,
    }
}

fn widgets_to_dbus(ws: &Vec<UiWidget>) -> (r: Vec<DBusUiWidget>)
    ensures
        same_widgets(ws@, r@),
{
    let mut r: Vec<DBusUiWidget> = Vec::new();
    let mut i: usize = 0;
    while i < ws.len()
        invariant
            i <= ws@.len(),
            r@.len() == i,
            forall|j: int| 0 <= j < i ==> (#[trigger] ws@[j]).widget_id == r@[j].widget_id,
        decreases ws.len() - i,
    {
        r.push(DBusUiWidget::from(ws[i]));
        i = i + 1;
    }
    r
}

fn widgets_from_dbus(ws: &Vec<DBusUiWidget>) -> (r: Vec<UiWidget>)
    ensures
        same_widgets(r@, ws@),
{
    let mut r: Vec<UiWidget> = Vec::new();
    let mut i: usize = 0;
    while i < ws.len()
        invariant
            i <= ws@.len(),
            r@.len() == i,
            forall|j: int| 0 <= j < i ==> (#[trigger] r@[j]).widget_id == ws@[j].widget_id,
        decreases ws.len() - i,
    {
        r.push(UiWidget::from(ws[i]));
        i = i + 1;
    }
    r
}

/// The wire form of a request.
pub fn request_to_dbus(req: &UiRequestData) -> (w: DBusUiRequest)
    ensures
        encodes_request(*req, w),
{
    match req {
        UiRequestData::GetContainer => DBusUiRequest::GetContainer,
        UiRequestData::CreateInstance { widget_type, properties } => DBusUiRequest::CreateInstance {
            widget_type: widget_type.clone(),
            properties: encode_properties(properties),
        },
        UiRequestData::CreateTextInstance { text } => DBusUiRequest::CreateTextInstance { text: text.clone() },
        UiRequestData::CloneInstance { widget_type, properties } => DBusUiRequest::CloneInstance {
            widget_type: widget_type.clone(),
            properties: encode_properties(properties),
        },
        UiRequestData::AppendChild { parent, child } => DBusUiRequest::AppendChild {
            parent: DBusUiWidget::from(*parent),
            child: DBusUiWidget::from(*child),
        },
        UiRequestData::RemoveChild { parent, child } => DBusUiRequest::RemoveChild {
            parent: DBusUiWidget::from(*parent),
            child: DBusUiWidget::from(*child),
        },
        UiRequestData::InsertBefore { parent, child, before_child } => DBusUiRequest::InsertBefore {
            parent: DBusUiWidget::from(*parent),
            child: DBusUiWidget::from(*child),
            before_child: DBusUiWidget::from(*before_child),
        },
        UiRequestData::ReplaceContainerChildren { container, new_children } => DBusUiRequest::ReplaceContainerChildren {
            container: DBusUiWidget::from(*container),
            new_children: widgets_to_dbus(new_children),
        },
        UiRequestData::SetProperties { widget, properties } => DBusUiRequest::SetProperties {
            widget: DBusUiWidget::from(*widget),
            properties: encode_properties(properties),
        },
        UiRequestData::SetText { widget, text } => DBusUiRequest::SetText {
            widget: DBusUiWidget::from(*widget),
            text: text.clone(),
        },
    }
}

/// The request that a receiver rebuilds from its wire form.
pub fn request_from_dbus(w: &DBusUiRequest) -> (r: UiRequestData)
    ensures
        decodes_request(*w, r),
{
    match w {
        DBusUiRequest::GetContainer => UiRequestData::GetContainer,
        DBusUiRequest::CreateInstance { widget_type, properties } => UiRequestData::CreateInstance {
            widget_type: widget_type.clone(),
            properties: decode_properties(properties),
        },
        DBusUiRequest::CreateTextInstance { text } => UiRequestData::CreateTextInstance { text: text.clone() },
        DBusUiRequest::CloneInstance { widget_type, properties } => UiRequestData::CloneInstance {
            widget_type: widget_type.clone(),
            properties: decode_properties(properties),
        },
        DBusUiRequest::AppendChild { parent, child } => UiRequestData::AppendChild {
            parent: UiWidget::from(*parent),
            child: UiWidget::from(*child),
        },
        DBusUiRequest::RemoveChild { parent, child } => UiRequestData::RemoveChild {
            parent: UiWidget::from(*parent),
            child: UiWidget::from(*child),
        },
        DBusUiRequest::InsertBefore { parent, child, before_child } => UiRequestData::InsertBefore {
            parent: UiWidget::from(*parent),
            child: UiWidget::from(*child),
            before_child: UiWidget::from(*before_child),
        },
        DBusUiRequest::ReplaceContainerChildren { container, new_children } => UiRequestData::ReplaceContainerChildren {
            container: UiWidget::from(*container),
            new_children: widgets_from_dbus(new_children),
        },
        DBusUiRequest::SetProperties { widget, properties } => UiRequestData::SetProperties {
            widget: UiWidget::from(*widget),
            properties: decode_properties(properties),
        },
        DBusUiRequest::SetText { widget, text } => UiRequestData::SetText {
            widget: UiWidget::from(*widget),
            text: text.clone(),
        },
    }
}

proof fn lemma_properties_same_after_round_trip(p: Seq<(String, UiPropertyValue)>, c: DBusUiPropertyContainer)
    requires
        keys_unique(p),
        encodes_properties(p, c),
    ensures
        same_properties(p, decode_container(c.zero@, c.one@)),
{
    assert forall|k: Seq<char>| #[trigger] lookup(p, k) == lookup(decode_container(c.zero@, c.one@), k) by {
        lemma_properties_round_trip(p, k);
    }
}

/// Sending a request and rebuilding it on the other side gives the same
/// request back: every field as it was, and every property key bound to the
/// same value.
pub proof fn lemma_request_round_trip(r: UiRequestData, w: DBusUiRequest, back: UiRequestData)
    requires
        request_keys_unique(r),
        encodes_request(r, w),
        decodes_request(w, back),
    ensures
        same_request(r, back),
{
    match (r, w) {
        (UiRequestData::CreateInstance { properties: p, .. }, DBusUiRequest::CreateInstance { properties: c, .. }) => {
            lemma_properties_same_after_round_trip(p@, c);
        },
        (UiRequestData::CloneInstance { properties: p, .. }, DBusUiRequest::CloneInstance { properties: c, .. }) => {
            lemma_properties_same_after_round_trip(p@, c);
        },
        (UiRequestData::SetProperties { properties: p, .. }, DBusUiRequest::SetProperties { properties: c, .. }) => {
            lemma_properties_same_after_round_trip(p@, c);
        },
        (
            UiRequestData::ReplaceContainerChildren { new_children: n1, .. },
            DBusUiRequest::ReplaceContainerChildren { new_children: n2, .. },
        ) => {
            if let UiRequestData::ReplaceContainerChildren { new_children: n3, .. } = back {
                assert(n1@ =~= n3@) by {
                    assert forall|i: int| 0 <= i < n1@.len() implies n1@[i] == n3@[i] by {
                        assert(n1@[i].widget_id == n2@[i].widget_id);
                        assert(n3@[i].widget_id == n2@[i].widget_id);
                    }
                }
            }
        },
        _ => {},
    }
}

} // verus!
