use vstd::prelude::*;

use crate::protocol::lookup;
use crate::records::DbPreferenceEnumValue;

verus! {

/// A user's value of a preference, as stored. Numbers are carried as the bit
/// patterns of their IEEE-754 doubles.
#[derive(Debug, Clone, PartialEq, Eq)]
pub enum DbPluginPreferenceUserData {
    Number { value: Option<u64> },
    String { value: Option<String> },
    Enum { value: Option<String> },
    Bool { value: Option<bool> },
    ListOfStrings { value: Option<Vec<String>> },
    ListOfNumbers { value: Option<Vec<u64>> },
    ListOfEnums { value: Option<Vec<String>> },
}

/// A user's value of a preference, as the settings see it.
#[derive(Debug, Clone, PartialEq, Eq)]
pub enum PluginPreferenceUserData {
    Number { value: Option<u64> },
    String { value: Option<String> },
    Enum { value: Option<String> },
    Bool { value: Option<bool> },
    ListOfStrings { value: Option<Vec<String>> },
    ListOfNumbers { value: Option<Vec<u64>> },
    ListOfEnums { value: Option<Vec<String>> },
}

pub open spec fn user_data_to_db_spec(v: PluginPreferenceUserData) -> DbPluginPreferenceUserData {
    match v {
        PluginPreferenceUserData::Number { value } => DbPluginPreferenceUserData::Number { value },
        PluginPreferenceUserData::String { value } => DbPluginPreferenceUserData::String { value },
        PluginPreferenceUserData::Enum { value } => DbPluginPreferenceUserData::Enum { value },
        PluginPreferenceUserData::Bool { value } => DbPluginPreferenceUserData::Bool { value },
        PluginPreferenceUserData::ListOfStrings { value } => DbPluginPreferenceUserData::ListOfStrings { value },
        PluginPreferenceUserData::ListOfNumbers { value } => DbPluginPreferenceUserData::ListOfNumbers { value },
        PluginPreferenceUserData::ListOfEnums { value } => DbPluginPreferenceUserData::ListOfEnums { value },
    }
}

pub open spec fn user_data_from_db_spec(v: DbPluginPreferenceUserData) -> PluginPreferenceUserData {
    match v {
        DbPluginPreferenceUserData::Number { value } => PluginPreferenceUserData::Number { value },
        DbPluginPreferenceUserData::String { value } => PluginPreferenceUserData::String { value },
        DbPluginPreferenceUserData::Enum { value } => PluginPreferenceUserData::Enum { value },
        DbPluginPreferenceUserData::Bool { value } => PluginPreferenceUserData::Bool { value },
        DbPluginPreferenceUserData::ListOfStrings { value } => PluginPreferenceUserData::ListOfStrings { value },
        DbPluginPreferenceUserData::ListOfNumbers { value } => PluginPreferenceUserData::ListOfNumbers { value },
        DbPluginPreferenceUserData::ListOfEnums { value } => PluginPreferenceUserData::ListOfEnums { value },
    }
}

/// The stored form of a user's preference value: same kind, same value.
pub fn plugin_preference_user_data_to_db(value: PluginPreferenceUserData) -> (r: DbPluginPreferenceUserData)
    ensures
        r == user_data_to_db_spec(value),
{
    match value {
        PluginPreferenceUserData::Number { value } => DbPluginPreferenceUserData::Number { value },
        PluginPreferenceUserData::String { value } => DbPluginPreferenceUserData::String { value },
        PluginPreferenceUserData::Enum { value } => DbPluginPreferenceUserData::Enum { value },
        PluginPreferenceUserData::Bool { value } => DbPluginPreferenceUserData::Bool { value },
        PluginPreferenceUserData::ListOfStrings { value } => DbPluginPreferenceUserData::ListOfStrings { value },
        PluginPreferenceUserData::ListOfNumbers { value } => DbPluginPreferenceUserData::ListOfNumbers { value },
        PluginPreferenceUserData::ListOfEnums { value } => DbPluginPreferenceUserData::ListOfEnums { value },
    }
}

/// The settings form of a stored preference value: same kind, same value.
pub fn plugin_preference_user_data_from_db(value: DbPluginPreferenceUserData) -> (r: PluginPreferenceUserData)
    ensures
        r == user_data_from_db_spec(value),
{
    match value {
        DbPluginPreferenceUserData::Number { value } => PluginPreferenceUserData::Number { value },
        DbPluginPreferenceUserData::String { value } => PluginPreferenceUserData::String { value },
        DbPluginPreferenceUserData::Enum { value } => PluginPreferenceUserData::Enum { value },
        DbPluginPreferenceUserData::Bool { value } => PluginPreferenceUserData::Bool { value },
        DbPluginPreferenceUserData::ListOfStrings { value } => PluginPreferenceUserData::ListOfStrings { value },
        DbPluginPreferenceUserData::ListOfNumbers { value } => PluginPreferenceUserData::ListOfNumbers { value },
        DbPluginPreferenceUserData::ListOfEnums { value } => PluginPreferenceUserData::ListOfEnums { value },
    }
}

/// Storing a user's value and reading it back gives the same value.
pub proof fn lemma_user_data_round_trip(v: PluginPreferenceUserData)
    ensures
        user_data_from_db_spec(user_data_to_db_spec(v)) == v,
{
}

proof fn lemma_lookup_update<V>(s: Seq<(String, V)>, i: int, p: (String, V), k: Seq<char>)
    requires
        0 <= i < s.len(),
        s[i].0@ == p.0@,
    ensures
        k != p.0@ ==> lookup(s.update(i, p), k) == lookup(s, k),
        k == p.0@ && (forall|j: int| i < j < s.len() ==> s[j].0@ != k) ==> lookup(s.update(i, p), k) == Some(p.1),
    decreases s.len(),
{
    let u = s.update(i, p);
    if i == s.len() - 1 {
        assert(u.drop_last() =~= s.drop_last());
    } else {
        assert(u.drop_last() =~= s.drop_last().update(i, p));
        assert(u.last() == s.last());
        lemma_lookup_update(s.drop_last(), i, p, k);
    }
}

/// Sets the user's value of preference `name`, keeping every other
/// preference as it was. This is the read-modify-write of a preference
/// record: the value of `name` is replaced where one exists, added otherwise.
pub fn set_preference_user_data(
    user_data: &mut Vec<(String, DbPluginPreferenceUserData)>,
    name: String,
    value: DbPluginPreferenceUserData,
)
    ensures
        forall|k: Seq<char>| #[trigger]
            lookup(final(user_data)@, k) == (if k == name@ {
                Some(value)
            } else {
                lookup(old(user_data)@, k)
            }),
{
    let ghost p = (name, value);
    let mut i: usize = user_data.len();
    while i > 0
        invariant
            i <= user_data@.len(),
            user_data@ == old(user_data)@,
            p == (name, value),
            forall|j: int| i <= j < user_data@.len() ==> (#[trigger] user_data@[j]).0@ != name@,
        decreases i,
    {
        if user_data[i - 1].0 == name {
            let ghost before = user_data@;
            user_data[i - 1] = (name, value);
            proof {
                assert(user_data@ =~= before.update(i - 1, p));
                assert forall|k: Seq<char>| #[trigger]
                    lookup(user_data@, k) == (if k == p.0@ {
                        Some(p.1)
                    } else {
                        lookup(before, k)
                    }) by {
                    lemma_lookup_update(before, i - 1, p, k);
                }
            }
            return;
        }
        i = i - 1;
    }
    let ghost before = user_data@;
    user_data.push((name, value));
    proof {
        assert(user_data@.drop_last() =~= before);
        assert forall|k: Seq<char>| #[trigger]
            lookup(user_data@, k) == (if k == p.0@ {
                Some(p.1)
            } else {
                lookup(before, k)
            }) by {}
    }
}

/// One option of an enum preference, as the settings see it.
#[derive(Debug, Clone, PartialEq, Eq)]
pub struct PreferenceEnumValue {
    pub label: String,
    pub value: String,
}

/// A preference that a plugin or an entrypoint declares, as stored.
#[derive(Debug, Clone)]
pub enum DbPluginPreference {
    Number { default: Option<u64>, description: String },
    String { default: Option<String>, description: String },
    Enum { default: Option<String>, description: String, enum_values: Vec<DbPreferenceEnumValue> },
    Bool { default: Option<bool>, description: String },
    ListOfStrings { default: Option<Vec<String>>, description: String },
    ListOfNumbers { default: Option<Vec<u64>>, description: String },
    ListOfEnums { default: Option<Vec<String>>, enum_values: Vec<DbPreferenceEnumValue>, description: String },
}

/// A declared preference, as the settings see it.
#[derive(Debug, Clone, PartialEq, Eq)]
pub enum PluginPreference {
    Number { default: Option<u64>, description: String },
    String { default: Option<String>, description: String },
    Enum { default: Option<String>, description: String, enum_values: Vec<PreferenceEnumValue> },
    Bool { default: Option<bool>, description: String },
    ListOfStrings { default: Option<Vec<String>>, description: String },
    ListOfNumbers { default: Option<Vec<u64>>, description: String },
    ListOfEnums { default: Option<Vec<String>>, enum_values: Vec<PreferenceEnumValue>, description: String },
}

/// The options carry over one for one, in order.
pub open spec fn same_enum_values(db: Seq<DbPreferenceEnumValue>, values: Seq<PreferenceEnumValue>) -> bool {
    db.len() == values.len() && forall|i: int|
        0 <= i < db.len() ==> (#[trigger] values[i]).label == db[i].label && values[i].value == db[i].value
}

/// `p` is the settings form of `db`: same kind, default, description and
/// options.
pub open spec fn preference_from_db_spec(db: DbPluginPreference, p: PluginPreference) -> bool {
    match (db, p) {
        (
            DbPluginPreference::Number { default: d1, description: s1 },
            PluginPreference::Number { default: d2, description: s2 },
        ) => d1 == d2 && s1 == s2,
        (
            DbPluginPreference::String { default: d1, description: s1 },
            PluginPreference::String { default: d2, description: s2 },
        ) => d1 == d2 && s1 == s2,
        (
            DbPluginPreference::Enum { default: d1, description: s1, enum_values: e1 },
            PluginPreference::Enum { default: d2, description: s2, enum_values: e2 },
        ) => d1 == d2 && s1 == s2 && same_enum_values(e1@, e2@),
        (
            DbPluginPreference::Bool { default: d1, description: s1 },
            PluginPreference::Bool { default: d2, description: s2 },
        ) => d1 == d2 && s1 == s2,
        (
            DbPluginPreference::ListOfStrings { default: d1, description: s1 },
            PluginPreference::ListOfStrings { default: d2, description: s2 },
        ) => d1 == d2 && s1 == s2,
        (
            DbPluginPreference::ListOfNumbers { default: d1, description: s1 },
            PluginPreference::ListOfNumbers { default: d2, description: s2 },
        ) => d1 == d2 && s1 == s2,
        (
            DbPluginPreference::ListOfEnums { default: d1, enum_values: e1, description: s1 },
            PluginPreference::ListOfEnums { default: d2, enum_values: e2, description: s2 },
        ) => d1 == d2 && s1 == s2 && same_enum_values(e1@, e2@),
        _ => false,
    }
}

fn enum_values_from_db(values: Vec<DbPreferenceEnumValue>) -> (r: Vec<PreferenceEnumValue>)
    ensures
        same_enum_values(values@, r@),
{
    let mut r: Vec<PreferenceEnumValue> = Vec::new();
    let mut i: usize = 0;
    while i < values.len()
        invariant
            i <= values@.len(),
            r@.len() == i,
            forall|j: int|
                0 <= j < i ==> (#[trigger] r@[j]).label == values@[j].label && r@[j].value == values@[j].value,
        decreases values.len() - i,
    {
        r.push(PreferenceEnumValue { label: values[i].label.clone(), value: values[i].value.clone() });
        i = i + 1;
    }
    r
}

/// The settings form of a declared preference.
pub fn plugin_preference_from_db(value: DbPluginPreference) -> (r: PluginPreference)
    ensures
        preference_from_db_spec(value, r),
{
    match value {
        DbPluginPreference::Number { default, description } => PluginPreference::Number { default, description },
        DbPluginPreference::String { default, description } => PluginPreference::String { default, description },
        DbPluginPreference::Enum { default, description, enum_values } => PluginPreference::Enum {
            default,
            description,
            enum_values: enum_values_from_db(enum_values),
        },
        DbPluginPreference::Bool { default, description } => PluginPreference::Bool { default, description },
        DbPluginPreference::ListOfStrings { default, description } => PluginPreference::ListOfStrings {
            default,
            description,
        },
        DbPluginPreference::ListOfNumbers { default, description } => PluginPreference::ListOfNumbers {
            default,
            description,
        },
        DbPluginPreference::ListOfEnums { default, enum_values, description } => PluginPreference::ListOfEnums {
            default,
            enum_values: enum_values_from_db(enum_values),
            description,
        },
    }
}

} // verus!
