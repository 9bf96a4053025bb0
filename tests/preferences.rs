use gauntlet_core::preferences::{
    plugin_preference_from_db, DbPluginPreference, PluginPreference, PreferenceEnumValue,
    plugin_preference_user_data_from_db, plugin_preference_user_data_to_db, set_preference_user_data,
    DbPluginPreferenceUserData, PluginPreferenceUserData,
};

use gauntlet_core::records::DbPreferenceEnumValue;

fn s(x: &str) -> String {
    x.to_owned()
}

#[test]
fn user_data_converts_both_ways() {
    let values = vec![
        PluginPreferenceUserData::Number { value: Some(1.5f64.to_bits()) },
        PluginPreferenceUserData::String { value: Some(s("x")) },
        PluginPreferenceUserData::Enum { value: None },
        PluginPreferenceUserData::Bool { value: Some(true) },
        PluginPreferenceUserData::ListOfStrings { value: Some(vec![s("a"), s("b")]) },
        PluginPreferenceUserData::ListOfNumbers { value: Some(vec![2.0f64.to_bits()]) },
        PluginPreferenceUserData::ListOfEnums { value: Some(vec![]) },
    ];
    for v in values {
        let back = plugin_preference_user_data_from_db(plugin_preference_user_data_to_db(v.clone()));
        assert_eq!(back, v);
    }
    assert_eq!(
        plugin_preference_user_data_to_db(PluginPreferenceUserData::Bool { value: Some(false) }),
        DbPluginPreferenceUserData::Bool { value: Some(false) }
    );
}

#[test]
fn setting_a_preference_replaces_or_adds() {
    let mut data = vec![
        (s("theme"), DbPluginPreferenceUserData::String { value: Some(s("dark")) }),
        (s("size"), DbPluginPreferenceUserData::Number { value: Some(3.0f64.to_bits()) }),
    ];
    set_preference_user_data(&mut data, s("theme"), DbPluginPreferenceUserData::String { value: Some(s("light")) });
    assert_eq!(data.len(), 2);
    assert_eq!(data[0], (s("theme"), DbPluginPreferenceUserData::String { value: Some(s("light")) }));
    assert_eq!(data[1], (s("size"), DbPluginPreferenceUserData::Number { value: Some(3.0f64.to_bits()) }));
    set_preference_user_data(&mut data, s("flag"), DbPluginPreferenceUserData::Bool { value: Some(true) });
    assert_eq!(data.len(), 3);
    assert_eq!(data[2], (s("flag"), DbPluginPreferenceUserData::Bool { value: Some(true) }));
}

#[test]
fn setting_a_preference_on_empty_record() {
    let mut data = vec![];
    set_preference_user_data(&mut data, s("a"), DbPluginPreferenceUserData::Enum { value: Some(s("v")) });
    assert_eq!(data, vec![(s("a"), DbPluginPreferenceUserData::Enum { value: Some(s("v")) })]);
}

#[test]
fn declared_preferences_carry_over() {
    let p = plugin_preference_from_db(DbPluginPreference::Enum {
        default: Some(s("b")),
        description: s("pick one"),
        enum_values: vec![
            DbPreferenceEnumValue { label: s("A"), value: s("a") },
            DbPreferenceEnumValue { label: s("B"), value: s("b") },
        ],
    });
    assert_eq!(
        p,
        PluginPreference::Enum {
            default: Some(s("b")),
            description: s("pick one"),
            enum_values: vec![
                PreferenceEnumValue { label: s("A"), value: s("a") },
                PreferenceEnumValue { label: s("B"), value: s("b") },
            ],
        }
    );
    let n = plugin_preference_from_db(DbPluginPreference::Number { default: Some(4.0f64.to_bits()), description: s("n") });
    assert_eq!(n, PluginPreference::Number { default: Some(4.0f64.to_bits()), description: s("n") });
    let l = plugin_preference_from_db(DbPluginPreference::ListOfEnums { default: None, enum_values: vec![], description: s("l") });
    assert_eq!(l, PluginPreference::ListOfEnums { default: None, enum_values: vec![], description: s("l") });
}
