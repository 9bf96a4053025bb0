use vstd::prelude::*;

use crate::protocol::{
    encode_one, encode_zero, keys_unique, lemma_functions_travel_by_reference, lookup, DBusUiPropertyZeroValue,
    UiPropertyValue, UiWidgetId,
};

verus! {

/// A property value as the script hands it over: a callable, or a plain
/// value (a number as the bit pattern of its IEEE-754 double).
#[derive(Debug, Clone)]
pub enum ScriptValue<F> {
    Function(F),
    String(String),
    Number(u64),
    Bool(bool),
}

/// The key under which a component passes its children; child topology
/// travels only through append, insert, remove and replace.
pub open spec fn children_key() -> Seq<char> {
    seq!['c', 'h', 'i', 'l', 'd', 'r', 'e', 'n']
}

pub open spec fn outbound_value<F>(v: ScriptValue<F>) -> UiPropertyValue {
    match v {
        ScriptValue::Function(_) => UiPropertyValue::Function,
        ScriptValue::String(s) => UiPropertyValue::String(s),
        ScriptValue::Number(n) => UiPropertyValue::Number(n),
        ScriptValue::Bool(b) => UiPropertyValue::Bool(b),
    }
}

/// The properties that go out to the UI: all but `children`, in order, each
/// callable replaced by the function marker.
pub open spec fn outbound_properties<F>(props: Seq<(String, ScriptValue<F>)>) -> Seq<(String, UiPropertyValue)>
    decreases props.len(),
{
    if props.len() == 0 {
        Seq::empty()
    } else {
        let rest = outbound_properties(props.drop_last());
        if props.last().0@ == children_key() {
            rest
        } else {
            rest.push((props.last().0, outbound_value(props.last().1)))
        }
    }
}

/// The table after one property of `widget` is set: a callable is bound to
/// the property's name, any other value unbinds it.
pub open spec fn bind_one<F>(
    table: Map<(UiWidgetId, Seq<char>), F>,
    widget: UiWidgetId,
    prop: (String, ScriptValue<F>),
) -> Map<(UiWidgetId, Seq<char>), F> {
    if prop.0@ == children_key() {
        table
    } else {
        match prop.1 {
            ScriptValue::Function(f) => table.insert((widget, prop.0@), f),
            _ => table.remove((widget, prop.0@)),
        }
    }
}

/// The table after the properties of `widget` are set one after the other.
pub open spec fn bound_table<F>(
    table: Map<(UiWidgetId, Seq<char>), F>,
    widget: UiWidgetId,
    props: Seq<(String, ScriptValue<F>)>,
) -> Map<(UiWidgetId, Seq<char>), F>
    decreases props.len(),
{
    if props.len() == 0 {
        table
    } else {
        bind_one(bound_table(table, widget, props.drop_last()), widget, props.last())
    }
}

pub open spec fn entry_key<F>(e: (UiWidgetId, String, F)) -> (UiWidgetId, Seq<char>) {
    (e.0, e.1@)
}

/// The callables that a plugin registered, keyed by widget and event name.
pub struct EventHandlers<F> {
    listeners: Vec<(UiWidgetId, String, F)>,
    table: Ghost<Map<(UiWidgetId, Seq<char>), F>>,
}

impl<F> View for EventHandlers<F> {
    type V = Map<(UiWidgetId, Seq<char>), F>;

    closed spec fn view(&self) -> Map<(UiWidgetId, Seq<char>), F> {
        self.table@
    }
}

/// Whether `name` is the `children` key.
pub fn is_children_key(name: &String) -> (r: bool)
    ensures
        r == (name@ == children_key()),
{
    let children = "children".to_owned();
    proof {
        reveal_strlit("children");
        assert(children@ =~= children_key());
    }
    *name == children
}

impl<F> EventHandlers<F> {
    /// Each entry's key occurs once, and the entries are exactly the table.
    pub closed spec fn wf(&self) -> bool {
        &&& forall|i: int, j: int|
            0 <= i < j < self.listeners@.len() ==> entry_key(self.listeners@[i]) != entry_key(
                self.listeners@[j],
            )
        &&& forall|i: int|
            0 <= i < self.listeners@.len() ==> self.table@.contains_key(
                #[trigger] entry_key(self.listeners@[i]),
            ) && self.table@[entry_key(self.listeners@[i])] == self.listeners@[i].2
        &&& forall|k: (UiWidgetId, Seq<char>)|
            #[trigger] self.table@.contains_key(k) ==> exists|i: int|
                0 <= i < self.listeners@.len() && entry_key(self.listeners@[i]) == k
    }

    pub fn new() -> (r: EventHandlers<F>)
        ensures
            r.wf(),
            r@ == Map::<(UiWidgetId, Seq<char>), F>::empty(),
    {
        EventHandlers { listeners: Vec::new(), table: Ghost(Map::empty()) }
    }

    fn position(&self, widget: UiWidgetId, event_name: &String) -> (r: Option<usize>)
        requires
            self.wf(),
        ensures
            match r {
                Some(i) => i < self.listeners@.len() && entry_key(self.listeners@[i as int]) == (
                    widget,
                    event_name@,
                ),
                None => !self@.contains_key((widget, event_name@)),
            },
    {
        let mut i: usize = 0;
        while i < self.listeners.len()
            invariant
                i <= self.listeners@.len(),
                forall|j: int| 0 <= j < i ==> entry_key(#[trigger] self.listeners@[j]) != (widget, event_name@),
            decreases self.listeners.len() - i,
        {
            if self.listeners[i].0 == widget && self.listeners[i].1 == *event_name {
                return Some(i);
            }
            i = i + 1;
        }
        None
    }

    /// The callable bound to `event_name` on `widget`, if any.
    pub fn listener(&self, widget: UiWidgetId, event_name: &String) -> (r: Option<&F>)
        requires
            self.wf(),
        ensures
            match r {
                Some(f) => self@.contains_key((widget, event_name@)) && self@[(widget, event_name@)] == *f,
                None => !self@.contains_key((widget, event_name@)),
            },
    {
        match self.position(widget, event_name) {
            Some(i) => Some(&self.listeners[i].2),
            None => None,
        }
    }

    /// Binds `function` to `event_name` on `widget`, replacing any earlier
    /// binding of that pair.
    pub fn add_listener(&mut self, widget: UiWidgetId, event_name: String, function: F)
        requires
            old(self).wf(),
        ensures
            final(self).wf(),
            final(self)@ == old(self)@.insert((widget, event_name@), function),
    {
        let ghost k = (widget, event_name@);
        let ghost f = function;
        match self.position(widget, &event_name) {
            Some(i) => {
                self.listeners[i] = (widget, event_name, function);
                self.table = Ghost(self.table@.insert(k, f));
                proof {
                    assert forall|k2: (UiWidgetId, Seq<char>)| #[trigger]
                        self.table@.contains_key(k2) implies exists|j: int|
                        0 <= j < self.listeners@.len() && entry_key(self.listeners@[j]) == k2 by {
                        if k2 != k {
                            assert(old(self).table@.contains_key(k2));
                            let j0 = choose|j: int|
                                0 <= j < old(self).listeners@.len() && entry_key(old(self).listeners@[j]) == k2;
                            assert(self.listeners@[j0] == old(self).listeners@[j0]);
                        } else {
                            assert(entry_key(self.listeners@[i as int]) == k2);
                        }
                    }
                }
            },
            None => {
                self.listeners.push((widget, event_name, function));
                self.table = Ghost(self.table@.insert(k, f));
                proof {
                    let n = self.listeners@.len() - 1;
                    assert(entry_key(self.listeners@[n]) == k);
                    assert forall|k2: (UiWidgetId, Seq<char>)| #[trigger]
                        self.table@.contains_key(k2) implies exists|j: int|
                        0 <= j < self.listeners@.len() && entry_key(self.listeners@[j]) == k2 by {
                        if k2 != k {
                            assert(old(self).table@.contains_key(k2));
                            let j0 = choose|j: int|
                                0 <= j < old(self).listeners@.len() && entry_key(old(self).listeners@[j]) == k2;
                            assert(self.listeners@[j0] == old(self).listeners@[j0]);
                        } else {
                            assert(entry_key(self.listeners@[n]) == k2);
                        }
                    }
                    assert forall|a: int, b: int|
                        0 <= a < b < self.listeners@.len() implies entry_key(self.listeners@[a]) != entry_key(
                        self.listeners@[b],
                    ) by {
                        if b == n {
                            assert(old(self).table@.contains_key(entry_key(old(self).listeners@[a])));
                        }
                    }
                }
            },
        }
    }

    fn remove_at(&mut self, i: usize)
        requires
            old(self).wf(),
            i < old(self).listeners@.len(),
        ensures
            final(self).wf(),
            final(self).listeners@ == old(self).listeners@.remove(i as int),
            final(self)@ == old(self)@.remove(entry_key(old(self).listeners@[i as int])),
    {
        let ghost old_l = self.listeners@;
        let ghost k = entry_key(old_l[i as int]);
        self.listeners.remove(i);
        self.table = Ghost(self.table@.remove(k));
        proof {
            let l = self.listeners@;
            assert forall|j: int| 0 <= j < l.len() implies #[trigger] l[j] == (if j < i {
                old_l[j]
            } else {
                old_l[j + 1]
            }) by {}
            assert forall|a: int, b: int| 0 <= a < b < l.len() implies entry_key(l[a]) != entry_key(l[b]) by {
                let a0 = if a < i { a } else { a + 1 };
                let b0 = if b < i { b } else { b + 1 };
                assert(l[a] == old_l[a0]);
                assert(l[b] == old_l[b0]);
            }
            assert forall|j: int| 0 <= j < l.len() implies self.table@.contains_key(#[trigger] entry_key(l[j]))
                && self.table@[entry_key(l[j])] == l[j].2 by {
                let j0 = if j < i { j } else { j + 1 };
                assert(l[j] == old_l[j0]);
                assert(entry_key(old_l[j0]) != entry_key(old_l[i as int]));
                assert(old(self).table@.contains_key(entry_key(old_l[j0])));
            }
            assert forall|k2: (UiWidgetId, Seq<char>)| #[trigger]
                self.table@.contains_key(k2) implies exists|j: int| 0 <= j < l.len() && entry_key(l[j]) == k2 by {
                assert(old(self).table@.contains_key(k2));
                let m = choose|m: int| 0 <= m < old_l.len() && entry_key(old_l[m]) == k2;
                assert(m != i);
                if m < i {
                    assert(l[m] == old_l[m]);
                } else {
                    assert(l[m - 1] == old_l[m]);
                }
            }
        }
    }

    /// Unbinds whatever is bound to `event_name` on `widget`.
    pub fn remove_listener(&mut self, widget: UiWidgetId, event_name: &String)
        requires
            old(self).wf(),
        ensures
            final(self).wf(),
            final(self)@ == old(self)@.remove((widget, event_name@)),
    {
        match self.position(widget, event_name) {
            Some(i) => {
                self.remove_at(i);
            },
            None => {
                assert(self.table@.remove((widget, event_name@)) =~= self.table@);
            },
        }
    }

    /// Unbinds every callable of `widget`; other widgets keep theirs.
    pub fn clear_widget(&mut self, widget: UiWidgetId)
        requires
            old(self).wf(),
        ensures
            final(self).wf(),
            forall|k: (UiWidgetId, Seq<char>)|
                #[trigger] final(self)@.contains_key(k) <==> old(self)@.contains_key(k) && k.0 != widget,
            forall|k: (UiWidgetId, Seq<char>)| #[trigger] final(self)@.contains_key(k) ==> final(self)@[k] == old(self)@[k],
    {
        let mut i: usize = 0;
        while i < self.listeners.len()
            invariant
                self.wf(),
                i <= self.listeners@.len(),
                forall|j: int| 0 <= j < i ==> (#[trigger] self.listeners@[j]).0 != widget,
                forall|k: (UiWidgetId, Seq<char>)|
                    #[trigger] self@.contains_key(k) ==> old(self)@.contains_key(k) && self@[k] == old(self)@[k],
                forall|k: (UiWidgetId, Seq<char>)|
                    old(self)@.contains_key(k) && k.0 != widget ==> #[trigger] self@.contains_key(k),
            decreases self.listeners.len() - i,
        {
            if self.listeners[i].0 == widget {
                let ghost before = self.listeners@;
                self.remove_at(i);
                proof {
                    assert forall|j: int| 0 <= j < i implies (#[trigger] self.listeners@[j]).0 != widget by {
                        assert(self.listeners@[j] == before[j]);
                    }
                }
            } else {
                i = i + 1;
            }
        }
        proof {
            assert forall|k: (UiWidgetId, Seq<char>)| #[trigger] self@.contains_key(k) implies k.0 != widget by {
                let j = choose|j: int| 0 <= j < self.listeners@.len() && entry_key(self.listeners@[j]) == k;
                assert(self.listeners@[j].0 != widget);
            }
        }
    }

    /// Sets the properties of `widget` as the script gave them: `children` is
    /// left out, each callable is bound to its name and replaced by the
    /// function marker, and a plain value unbinds its name. Returns the
    /// properties to send to the UI.
    pub fn bind_properties(&mut self, widget: UiWidgetId, props: Vec<(String, ScriptValue<F>)>) -> (r: Vec<
        (String, UiPropertyValue),
    >)
        requires
            old(self).wf(),
        ensures
            final(self).wf(),
            final(self)@ == bound_table(old(self)@, widget, props@),
            r@ == outbound_properties(props@),
    {
        let ghost orig = props@;
        let ghost start = self@;
        let mut props = props;
        let mut out: Vec<(String, UiPropertyValue)> = Vec::new();
        while props.len() > 0
            invariant
                self.wf(),
                props@.len() <= orig.len(),
                props@ == orig.skip(orig.len() - props@.len()),
                out@ == outbound_properties(orig.take(orig.len() - props@.len())),
                self@ == bound_table(start, widget, orig.take(orig.len() - props@.len())),
            decreases props.len(),
        {
            let ghost d = orig.len() - props@.len();
            proof {
                assert(props@[0] == orig[d]);
                assert(orig.take(d + 1).drop_last() =~= orig.take(d));
                assert(orig.take(d + 1).last() == orig[d]);
            }
            let (name, value) = props.remove(0);
            proof {
                assert(props@ =~= orig.skip(orig.len() - props@.len()));
            }
            if !is_children_key(&name) {
                match value {
                    ScriptValue::Function(f) => {
                        out.push((name.clone(), UiPropertyValue::Function));
                        self.add_listener(widget, name, f);
                    },
                    ScriptValue::String(s) => {
                        self.remove_listener(widget, &name);
                        out.push((name, UiPropertyValue::String(s)));
                    },
                    ScriptValue::Number(n) => {
                        self.remove_listener(widget, &name);
                        out.push((name, UiPropertyValue::Number(n)));
                    },
                    ScriptValue::Bool(b) => {
                        self.remove_listener(widget, &name);
                        out.push((name, UiPropertyValue::Bool(b)));
                    },
                }
            }
        }
        proof {
            assert(orig.take(orig.len() as int) =~= orig);
        }
        out
    }
}

/// After the properties of a widget are set, the callable bound to a name is
/// the last one assigned to it; a name whose last assignment is a plain
/// value has none. Each (widget, name) pair holds at most one callable.
pub proof fn lemma_last_assignment_wins<F>(
    table: Map<(UiWidgetId, Seq<char>), F>,
    widget: UiWidgetId,
    props: Seq<(String, ScriptValue<F>)>,
    i: int,
)
    requires
        0 <= i < props.len(),
        props[i].0@ != children_key(),
        forall|j: int| i < j < props.len() ==> props[j].0@ != props[i].0@,
    ensures
        match props[i].1 {
            ScriptValue::Function(f) => bound_table(table, widget, props).contains_key((widget, props[i].0@))
                && bound_table(table, widget, props)[(widget, props[i].0@)] == f,
            _ => !bound_table(table, widget, props).contains_key((widget, props[i].0@)),
        },
    decreases props.len(),
{
    if i < props.len() - 1 {
        let d = props.drop_last();
        assert forall|j: int| i < j < d.len() implies d[j].0@ != d[i].0@ by {
            assert(d[j] == props[j]);
        }
        lemma_last_assignment_wins(table, widget, d, i);
        assert(props.last() == props[props.len() - 1]);
    }
}

/// Setting the properties of a widget in two calls binds the same as setting
/// them all in one call, so the laws on one call cover a whole sequence.
pub proof fn lemma_bound_table_concat<F>(
    table: Map<(UiWidgetId, Seq<char>), F>,
    widget: UiWidgetId,
    first: Seq<(String, ScriptValue<F>)>,
    second: Seq<(String, ScriptValue<F>)>,
)
    ensures
        bound_table(bound_table(table, widget, first), widget, second) == bound_table(table, widget, first + second),
    decreases second.len(),
{
    if second.len() == 0 {
        assert(first + second =~= first);
    } else {
        assert((first + second).drop_last() =~= first + second.drop_last());
        assert((first + second).last() == second.last());
        lemma_bound_table_concat(table, widget, first, second.drop_last());
    }
}

/// Setting the properties of one widget leaves the bindings of every other
/// widget as they were.
pub proof fn lemma_other_widgets_untouched<F>(
    table: Map<(UiWidgetId, Seq<char>), F>,
    widget: UiWidgetId,
    props: Seq<(String, ScriptValue<F>)>,
    other: UiWidgetId,
    name: Seq<char>,
)
    requires
        other != widget,
    ensures
        bound_table(table, widget, props).contains_key((other, name)) == table.contains_key((other, name)),
        table.contains_key((other, name)) ==> bound_table(table, widget, props)[(other, name)] == table[(
        other,
        name,
        )],
    decreases props.len(),
{
    if props.len() > 0 {
        lemma_other_widgets_untouched(table, widget, props.drop_last(), other, name);
    }
}

proof fn lemma_outbound_keys_come_from_props<F>(props: Seq<(String, ScriptValue<F>)>, j: int)
    requires
        0 <= j < outbound_properties(props).len(),
    ensures
        exists|i: int| 0 <= i < props.len() && (#[trigger] props[i]).0@ == outbound_properties(props)[j].0@,
    decreases props.len(),
{
    let rest = outbound_properties(props.drop_last());
    if j < rest.len() {
        lemma_outbound_keys_come_from_props(props.drop_last(), j);
        let i = choose|i: int| 0 <= i < props.drop_last().len() && (#[trigger] props.drop_last()[i]).0@ == rest[j].0@;
        assert(props[i] == props.drop_last()[i]);
    } else {
        assert(props[props.len() - 1] == props.last());
    }
}

proof fn lemma_outbound_keys_unique<F>(props: Seq<(String, ScriptValue<F>)>)
    requires
        keys_unique(props),
    ensures
        keys_unique(outbound_properties(props)),
    decreases props.len(),
{
    if props.len() > 0 {
        let d = props.drop_last();
        assert(keys_unique(d)) by {
            assert forall|a: int, b: int| 0 <= a < b < d.len() implies d[a].0@ != d[b].0@ by {
                assert(d[a] == props[a] && d[b] == props[b]);
            }
        }
        lemma_outbound_keys_unique(d);
        let rest = outbound_properties(d);
        let out = outbound_properties(props);
        if out.len() > rest.len() {
            assert forall|a: int, b: int| 0 <= a < b < out.len() implies out[a].0@ != out[b].0@ by {
                if b == out.len() - 1 {
                    assert(out[a] == rest[a]);
                    lemma_outbound_keys_come_from_props(d, a);
                    let i = choose|i: int| 0 <= i < d.len() && (#[trigger] d[i]).0@ == rest[a].0@;
                    assert(d[i] == props[i]);
                    assert(props[i].0@ != props[props.len() - 1].0@);
                } else {
                    assert(out[a] == rest[a] && out[b] == rest[b]);
                }
            }
        }
    }
}

proof fn lemma_lookup_outbound<F>(props: Seq<(String, ScriptValue<F>)>, k: Seq<char>)
    requires
        k != children_key(),
    ensures
        lookup(outbound_properties(props), k) == (match lookup(props, k) {
            Some(v) => Some(outbound_value(v)),
            None => None,
        }),
    decreases props.len(),
{
    if props.len() > 0 {
        lemma_lookup_outbound(props.drop_last(), k);
        let rest = outbound_properties(props.drop_last());
        if props.last().0@ != children_key() {
            assert(rest.push((props.last().0, outbound_value(props.last().1))).drop_last() =~= rest);
        } else {
            assert(props.last().0@ != k);
        }
    }
}

/// A callable that the script sets as a property is never sent as a value:
/// in the wire form of what `bind_properties` sends, its name carries the
/// function marker in the reference-carrying map and is absent from the
/// value-carrying map.
pub proof fn lemma_callables_never_sent_as_values<F>(props: Seq<(String, ScriptValue<F>)>, k: Seq<char>)
    requires
        keys_unique(props),
        k != children_key(),
        lookup(props, k) matches Some(ScriptValue::Function(_)),
    ensures
        lookup(encode_zero(outbound_properties(props)), k) == Some(DBusUiPropertyZeroValue::Function),
        lookup(encode_one(outbound_properties(props)), k) is None,
{
    lemma_lookup_outbound(props, k);
    lemma_outbound_keys_unique(props);
    lemma_functions_travel_by_reference(outbound_properties(props), k);
}

} // verus!
