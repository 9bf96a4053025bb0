use vstd::prelude::*;

verus! {

/// Identifier of a widget, allocated by the UI process.
pub type UiWidgetId = u32;

/// Name of an event that a widget emits ("onClick").
pub type UiEventName = String;

/// A widget as seen on the plugin side of the bridge.
#[derive(Debug, PartialEq, Eq, Structural, Clone, Copy)]
pub struct UiWidget {
    pub widget_id: UiWidgetId,
}

/// A widget as it travels on the transport to the UI process.
#[derive(Debug, PartialEq, Eq, Structural, Clone, Copy)]
pub struct DBusUiWidget {
    pub widget_id: UiWidgetId,
}

impl From<UiWidget> for DBusUiWidget {
    fn from(value: UiWidget) -> (r: DBusUiWidget) {
        DBusUiWidget { widget_id: value.widget_id }
    }
}

impl vstd::std_specs::convert::FromSpecImpl<UiWidget> for DBusUiWidget {
    open spec fn obeys_from_spec() -> bool {
        true
    }

    open spec fn from_spec(v: UiWidget) -> DBusUiWidget {
        DBusUiWidget { widget_id: v.widget_id }
    }
}

impl From<DBusUiWidget> for UiWidget {
    fn from(value: DBusUiWidget) -> (r: UiWidget) {
        UiWidget { widget_id: value.widget_id }
    }
}

impl vstd::std_specs::convert::FromSpecImpl<DBusUiWidget> for UiWidget {
    open spec fn obeys_from_spec() -> bool {
        true
    }

    open spec fn from_spec(v: DBusUiWidget) -> UiWidget {
        UiWidget { widget_id: v.widget_id }
    }
}

/// A typed property value. A number is carried as the bit pattern of its
/// IEEE-754 double, so that it crosses the bridge verbatim.
#[derive(Debug, Clone)]
pub enum UiPropertyValue {
    Function,
    String(String),
    Number(u64),
    Bool(bool),
}

/// Marker of a reference-carrying property: the UI emits the event back.
#[derive(Debug, PartialEq, Eq, Structural, Clone, Copy)]
pub enum DBusUiPropertyZeroValue {
    Function,
}

/// A value-carrying property on the wire.
#[derive(Debug, Clone)]
pub enum DBusUiPropertyOneValue {
    String(String),
    Number(u64),
    Bool(bool),
}

/// The wire form of a property mapping, split in two: reference-carrying
/// properties (`zero`) and value-carrying properties (`one`).
#[derive(Debug, Clone)]
pub struct DBusUiPropertyContainer {
    pub zero: Vec<(String, DBusUiPropertyZeroValue)>,
    pub one: Vec<(String, DBusUiPropertyOneValue)>,
}

/// The value that a key is bound to in a list of pairs read as a mapping:
/// a later pair overrides an earlier one with the same key.
pub open spec fn lookup<V>(s: Seq<(String, V)>, k: Seq<char>) -> Option<V>
    decreases s.len(),
{
    if s.len() == 0 {
        None
    } else if s.last().0@ == k {
        Some(s.last().1)
    } else {
        lookup(s.drop_last(), k)
    }
}

/// No key occurs twice.
pub open spec fn keys_unique<V>(s: Seq<(String, V)>) -> bool {
    forall|i: int, j: int| 0 <= i < j < s.len() ==> s[i].0@ != s[j].0@
}

pub open spec fn is_function(v: UiPropertyValue) -> bool {
    v is Function
}

/// The wire value of a value-carrying property; `None` for a function.
pub open spec fn one_value(v: UiPropertyValue) -> Option<DBusUiPropertyOneValue> {
    match v {
        UiPropertyValue::Function => None,
        UiPropertyValue::String(s) => Some(DBusUiPropertyOneValue::String(s)),
        UiPropertyValue::Number(n) => Some(DBusUiPropertyOneValue::Number(n)),
        UiPropertyValue::Bool(b) => Some(DBusUiPropertyOneValue::Bool(b)),
    }
}

pub open spec fn value_of_one(v: DBusUiPropertyOneValue) -> UiPropertyValue {
    match v {
        DBusUiPropertyOneValue::String(s) => UiPropertyValue::String(s),
        DBusUiPropertyOneValue::Number(n) => UiPropertyValue::Number(n),
        DBusUiPropertyOneValue::Bool(b) => UiPropertyValue::Bool(b),
    }
}

/// The value-carrying half of the wire form, in the order of the input.
pub open spec fn encode_one(s: Seq<(String, UiPropertyValue)>) -> Seq<(String, DBusUiPropertyOneValue)>
    decreases s.len(),
{
    if s.len() == 0 {
        Seq::empty()
    } else {
        let rest = encode_one(s.drop_last());
        match one_value(s.last().1) {
            Some(v) => rest.push((s.last().0, v)),
            None => rest,
        }
    }
}

/// The reference-carrying half of the wire form, in the order of the input.
pub open spec fn encode_zero(s: Seq<(String, UiPropertyValue)>) -> Seq<(String, DBusUiPropertyZeroValue)>
    decreases s.len(),
{
    if s.len() == 0 {
        Seq::empty()
    } else {
        let rest = encode_zero(s.drop_last());
        if is_function(s.last().1) {
            rest.push((s.last().0, DBusUiPropertyZeroValue::Function))
        } else {
            rest
        }
    }
}

pub open spec fn decode_one(o: Seq<(String, DBusUiPropertyOneValue)>) -> Seq<(String, UiPropertyValue)>
    decreases o.len(),
{
    if o.len() == 0 {
        Seq::empty()
    } else {
        decode_one(o.drop_last()).push((o.last().0, value_of_one(o.last().1)))
    }
}

pub open spec fn decode_zero(z: Seq<(String, DBusUiPropertyZeroValue)>) -> Seq<(String, UiPropertyValue)>
    decreases z.len(),
{
    if z.len() == 0 {
        Seq::empty()
    } else {
        decode_zero(z.drop_last()).push((z.last().0, UiPropertyValue::Function))
    }
}

/// The mapping that a receiver rebuilds: the markers first, then the values,
/// which override a marker of the same name.
pub open spec fn decode_container(
    zero: Seq<(String, DBusUiPropertyZeroValue)>,
    one: Seq<(String, DBusUiPropertyOneValue)>,
) -> Seq<(String, UiPropertyValue)> {
    decode_zero(zero) + decode_one(one)
}

/// Splits a property mapping into its wire form: every function becomes a
/// marker in `zero`, every other value goes verbatim into `one`.
pub fn encode_properties(props: &Vec<(String, UiPropertyValue)>) -> (r: DBusUiPropertyContainer)
    ensures
        r.one@ == encode_one(props@),
        r.zero@ == encode_zero(props@),
{
    let mut one: Vec<(String, DBusUiPropertyOneValue)> = Vec::new();
    let mut zero: Vec<(String, DBusUiPropertyZeroValue)> = Vec::new();
    let mut i: usize = 0;
    while i < props.len()
        invariant
            i <= props.len(),
            one@ == encode_one(props@.take(i as int)),
            zero@ == encode_zero(props@.take(i as int)),
        decreases props.len() - i,
    {
        proof {
            assert(props@.take(i as int + 1).drop_last() =~= props@.take(i as int));
        }
        let key = props[i].0.clone();
        match &props[i].1 {
            UiPropertyValue::Function => {
                zero.push((key, DBusUiPropertyZeroValue::Function));
            },
            UiPropertyValue::String(s) => {
                one.push((key, DBusUiPropertyOneValue::String(s.clone())));
            },
            UiPropertyValue::Number(n) => {
                one.push((key, DBusUiPropertyOneValue::Number(*n)));
            },
            UiPropertyValue::Bool(b) => {
                one.push((key, DBusUiPropertyOneValue::Bool(*b)));
            },
        }
        i = i + 1;
    }
    proof {
        assert(props@.take(props.len() as int) =~= props@);
    }
    DBusUiPropertyContainer { zero, one }
}

/// Rebuilds a single property mapping from its wire form.
pub fn decode_properties(container: &DBusUiPropertyContainer) -> (r: Vec<(String, UiPropertyValue)>)
    ensures
        r@ == decode_container(container.zero@, container.one@),
{
    let mut r: Vec<(String, UiPropertyValue)> = Vec::new();
    let mut i: usize = 0;
    while i < container.zero.len()
        invariant
            i <= container.zero.len(),
            r@ == decode_zero(container.zero@.take(i as int)),
        decreases container.zero.len() - i,
    {
        proof {
            assert(container.zero@.take(i as int + 1).drop_last() =~= container.zero@.take(i as int));
        }
        r.push((container.zero[i].0.clone(), UiPropertyValue::Function));
        i = i + 1;
    }
    proof {
        assert(container.zero@.take(container.zero.len() as int) =~= container.zero@);
    }
    let ghost prefix = r@;
    let mut j: usize = 0;
    while j < container.one.len()
        invariant
            j <= container.one.len(),
            prefix == decode_zero(container.zero@),
            r@ == prefix + decode_one(container.one@.take(j as int)),
        decreases container.one.len() - j,
    {
        proof {
            assert(container.one@.take(j as int + 1).drop_last() =~= container.one@.take(j as int));
        }
        let key = container.one[j].0.clone();
        let value = match &container.one[j].1 {
            DBusUiPropertyOneValue::String(s) => UiPropertyValue::String(s.clone()),
            DBusUiPropertyOneValue::Number(n) => UiPropertyValue::Number(*n),
            DBusUiPropertyOneValue::Bool(b) => UiPropertyValue::Bool(*b),
        };
        r.push((key, value));
        proof {
            assert(r@ =~= prefix + decode_one(container.one@.take(j as int + 1)));
        }
        j = j + 1;
    }
    proof {
        assert(container.one@.take(container.one.len() as int) =~= container.one@);
    }
    r
}

proof fn lemma_lookup_absent<V>(s: Seq<(String, V)>, k: Seq<char>)
    requires
        forall|i: int| 0 <= i < s.len() ==> s[i].0@ != k,
    ensures
        lookup(s, k) is None,
    decreases s.len(),
{
    if s.len() > 0 {
        lemma_lookup_absent(s.drop_last(), k);
    }
}

proof fn lemma_lookup_concat<V>(a: Seq<(String, V)>, b: Seq<(String, V)>, k: Seq<char>)
    ensures
        lookup(a + b, k) == (if lookup(b, k) is Some { lookup(b, k) } else { lookup(a, k) }),
    decreases b.len(),
{
    if b.len() == 0 {
        assert(a + b =~= a);
    } else {
        assert((a + b).drop_last() =~= a + b.drop_last());
        lemma_lookup_concat(a, b.drop_last(), k);
    }
}

proof fn lemma_unique_drop_last<V>(s: Seq<(String, V)>)
    requires
        keys_unique(s),
        s.len() > 0,
    ensures
        keys_unique(s.drop_last()),
        lookup(s.drop_last(), s.last().0@) is None,
{
    let d = s.drop_last();
    assert forall|i: int| 0 <= i < d.len() implies d[i].0@ != s.last().0@ by {
        assert(s[i].0@ != s[s.len() - 1].0@);
    }
    lemma_lookup_absent(d, s.last().0@);
}

/// Under unique keys, the value half holds a key exactly when the key is
/// bound to a non-function value, and then holds that value.
proof fn lemma_lookup_encode_one(s: Seq<(String, UiPropertyValue)>, k: Seq<char>)
    requires
        keys_unique(s),
    ensures
        lookup(encode_one(s), k) == (match lookup(s, k) {
            Some(v) => one_value(v),
            None => None,
        }),
    decreases s.len(),
{
    if s.len() > 0 {
        lemma_unique_drop_last(s);
        lemma_lookup_encode_one(s.drop_last(), k);
        let rest = encode_one(s.drop_last());
        if let Some(v) = one_value(s.last().1) {
            assert(rest.push((s.last().0, v)).drop_last() =~= rest);
        }
    }
}

proof fn lemma_lookup_encode_zero(s: Seq<(String, UiPropertyValue)>, k: Seq<char>)
    requires
        keys_unique(s),
    ensures
        lookup(encode_zero(s), k) == (if lookup(s, k) == Some(UiPropertyValue::Function) {
            Some(DBusUiPropertyZeroValue::Function)
        } else {
            None
        }),
    decreases s.len(),
{
    if s.len() > 0 {
        lemma_unique_drop_last(s);
        lemma_lookup_encode_zero(s.drop_last(), k);
        let rest = encode_zero(s.drop_last());
        assert(rest.push((s.last().0, DBusUiPropertyZeroValue::Function)).drop_last() =~= rest);
    }
}

proof fn lemma_lookup_decode_one(o: Seq<(String, DBusUiPropertyOneValue)>, k: Seq<char>)
    ensures
        lookup(decode_one(o), k) == (match lookup(o, k) {
            Some(v) => Some(value_of_one(v)),
            None => None,
        }),
    decreases o.len(),
{
    if o.len() > 0 {
        lemma_lookup_decode_one(o.drop_last(), k);
        assert(decode_one(o).drop_last() =~= decode_one(o.drop_last()));
    }
}

proof fn lemma_lookup_decode_zero(z: Seq<(String, DBusUiPropertyZeroValue)>, k: Seq<char>)
    ensures
        lookup(decode_zero(z), k) == (if lookup(z, k) is Some {
            Some(UiPropertyValue::Function)
        } else {
            None
        }),
    decreases z.len(),
{
    if z.len() > 0 {
        lemma_lookup_decode_zero(z.drop_last(), k);
        assert(decode_zero(z).drop_last() =~= decode_zero(z.drop_last()));
    }
}

/// A function-valued property never travels as a value: its name is bound
/// to the function marker in the reference-carrying map, and absent from the
/// value-carrying map.
pub proof fn lemma_functions_travel_by_reference(props: Seq<(String, UiPropertyValue)>, k: Seq<char>)
    requires
        keys_unique(props),
        lookup(props, k) == Some(UiPropertyValue::Function),
    ensures
        lookup(encode_zero(props), k) == Some(DBusUiPropertyZeroValue::Function),
        lookup(encode_one(props), k) is None,
{
    lemma_lookup_encode_one(props, k);
    lemma_lookup_encode_zero(props, k);
}

/// Encoding a property mapping and decoding it again gives back every key
/// with its value: non-function values verbatim, and the function markers on
/// exactly the same keys.
pub proof fn lemma_properties_round_trip(props: Seq<(String, UiPropertyValue)>, k: Seq<char>)
    requires
        keys_unique(props),
    ensures
        lookup(decode_container(encode_zero(props), encode_one(props)), k) == lookup(props, k),
{
    lemma_lookup_encode_one(props, k);
    lemma_lookup_encode_zero(props, k);
    lemma_lookup_decode_one(encode_one(props), k);
    lemma_lookup_decode_zero(encode_zero(props), k);
    lemma_lookup_concat(decode_zero(encode_zero(props)), decode_one(encode_one(props)), k);
}

} // verus!
