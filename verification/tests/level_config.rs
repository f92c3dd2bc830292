//! Hierarchical level-override resolution.

use fern::log_impl::LevelConfiguration;
use fern::LevelFilter;

#[test]
fn dispatch_test_level_config_find_exact_minimal() {
    let config = LevelConfiguration::Minimal(
        vec![("mod1", LevelFilter::Info), ("mod2", LevelFilter::Debug), ("mod3", LevelFilter::Off)]
            .into_iter()
            .map(|(k, v)| (k.into(), v))
            .collect(),
    );

    assert_eq!(config.find_exact("mod1"), Some(LevelFilter::Info));
    assert_eq!(config.find_exact("mod2"), Some(LevelFilter::Debug));
    assert_eq!(config.find_exact("mod3"), Some(LevelFilter::Off));
}

#[test]
fn dispatch_test_level_config_find_exact_many() {
    let config = LevelConfiguration::Many(
        vec![("mod1", LevelFilter::Info), ("mod2", LevelFilter::Debug), ("mod3", LevelFilter::Off)]
            .into_iter()
            .map(|(k, v)| (k.into(), v))
            .collect(),
    );

    assert_eq!(config.find_exact("mod1"), Some(LevelFilter::Info));
    assert_eq!(config.find_exact("mod2"), Some(LevelFilter::Debug));
    assert_eq!(config.find_exact("mod3"), Some(LevelFilter::Off));
}

#[test]
fn dispatch_test_level_config_simple_hierarchy() {
    let config = LevelConfiguration::Minimal(
        vec![("mod1", LevelFilter::Info), ("mod2::sub_mod", LevelFilter::Debug), ("mod3", LevelFilter::Off)]
            .into_iter()
            .map(|(k, v)| (k.into(), v))
            .collect(),
    );

    assert_eq!(config.find_module("mod1::sub_mod"), Some(LevelFilter::Info));
    assert_eq!(config.find_module("mod2::sub_mod::sub_mod_2"), Some(LevelFilter::Debug));
    assert_eq!(config.find_module("mod3::sub_mod::sub_mod_2"), Some(LevelFilter::Off));
}

#[test]
fn dispatch_test_level_config_hierarchy_correct() {
    let config = LevelConfiguration::Minimal(
        vec![
            ("root", LevelFilter::Trace),
            ("root::sub1", LevelFilter::Debug),
            ("root::sub2", LevelFilter::Info),
            // should work with all insertion orders
            ("root::sub2::sub2.3::sub2.4", LevelFilter::Error),
            ("root::sub2::sub2.3", LevelFilter::Warn),
            ("root::sub3", LevelFilter::Off),
        ]
        .into_iter()
        .map(|(k, v)| (k.into(), v))
        .collect(),
    );

    assert_eq!(config.find_module("root"), Some(LevelFilter::Trace));
    assert_eq!(config.find_module("root::other_module"), Some(LevelFilter::Trace));

    // We want to ensure that it does pick up most specific level before trying
    // anything more general.
    assert_eq!(config.find_module("root::sub1"), Some(LevelFilter::Debug));
    assert_eq!(config.find_module("root::sub1::other_module"), Some(LevelFilter::Debug));

    assert_eq!(config.find_module("root::sub2"), Some(LevelFilter::Info));
    assert_eq!(config.find_module("root::sub2::other"), Some(LevelFilter::Info));

    assert_eq!(config.find_module("root::sub2::sub2.3"), Some(LevelFilter::Warn));
    assert_eq!(config.find_module("root::sub2::sub2.3::sub2.4"), Some(LevelFilter::Error));

    assert_eq!(config.find_module("root::sub3"), Some(LevelFilter::Off));
    assert_eq!(
        config.find_module("root::sub3::any::children::of::sub3"),
        Some(LevelFilter::Off)
    );
}

#[test]
fn dispatch_test_level_config_similar_names_are_not_same() {
    let config = LevelConfiguration::Minimal(
        vec![("root", LevelFilter::Trace), ("rootay", LevelFilter::Info)]
            .into_iter()
            .map(|(k, v)| (k.into(), v))
            .collect(),
    );

    assert_eq!(config.find_module("root"), Some(LevelFilter::Trace));
    assert_eq!(config.find_module("root::sub"), Some(LevelFilter::Trace));
    assert_eq!(config.find_module("rooty"), None);
    assert_eq!(config.find_module("rooty::sub"), None);
    assert_eq!(config.find_module("rootay"), Some(LevelFilter::Info));
    assert_eq!(config.find_module("rootay::sub"), Some(LevelFilter::Info));
}

#[test]
fn dispatch_test_level_config_single_colon_is_not_double_colon() {
    let config = LevelConfiguration::Minimal(
        vec![
            ("root", LevelFilter::Trace),
            ("root::su", LevelFilter::Debug),
            ("root::su:b2", LevelFilter::Info),
            ("root::sub2", LevelFilter::Warn),
        ]
        .into_iter()
        .map(|(k, v)| (k.into(), v))
        .collect(),
    );

    assert_eq!(config.find_module("root"), Some(LevelFilter::Trace));

    assert_eq!(config.find_module("root::su"), Some(LevelFilter::Debug));
    assert_eq!(config.find_module("root::su::b2"), Some(LevelFilter::Debug));

    assert_eq!(config.find_module("root::su:b2"), Some(LevelFilter::Info));
    assert_eq!(config.find_module("root::su:b2::b3"), Some(LevelFilter::Info));

    assert_eq!(config.find_module("root::sub2"), Some(LevelFilter::Warn));
    assert_eq!(config.find_module("root::sub2::b3"), Some(LevelFilter::Warn));
}

#[test]
fn dispatch_test_level_config_all_chars() {
    let config = LevelConfiguration::Minimal(
        vec![
            ("\u{2672}", LevelFilter::Trace),
            ("\u{2638}", LevelFilter::Debug),
            ("\u{2672}::\u{2638}", LevelFilter::Info),
            ("\u{2672}::\t", LevelFilter::Debug),
        ]
        .into_iter()
        .map(|(k, v)| (k.into(), v))
        .collect(),
    );

    assert_eq!(config.find_module("\u{2672}"), Some(LevelFilter::Trace));
    assert_eq!(config.find_module("\u{2672}::other"), Some(LevelFilter::Trace));

    assert_eq!(config.find_module("\u{2638}"), Some(LevelFilter::Debug));
    assert_eq!(config.find_module("\u{2638}::any"), Some(LevelFilter::Debug));

    assert_eq!(config.find_module("\u{2672}::\u{2638}"), Some(LevelFilter::Info));
    assert_eq!(config.find_module("\u{2672}\u{2638}"), None);

    assert_eq!(config.find_module("\u{2672}::\t"), Some(LevelFilter::Debug));
    assert_eq!(config.find_module("\u{2672}::\t::\n\n::\t"), Some(LevelFilter::Debug));
    assert_eq!(config.find_module("\u{2672}::\t\t"), Some(LevelFilter::Trace));
}

#[test]
fn log_impl_test_level_config_find_exact_minimal() {
    let config = LevelConfiguration::Minimal(
        vec![("mod1", LevelFilter::Info), ("mod2", LevelFilter::Debug), ("mod3", LevelFilter::Off)]
            .into_iter()
            .map(|(k, v)| (k.into(), v))
            .collect(),
    );

    assert_eq!(config.find_exact("mod1"), Some(LevelFilter::Info));
    assert_eq!(config.find_exact("mod2"), Some(LevelFilter::Debug));
    assert_eq!(config.find_exact("mod3"), Some(LevelFilter::Off));
}

#[test]
fn log_impl_test_level_config_find_exact_many() {
    let config = LevelConfiguration::Many(
        vec![("mod1", LevelFilter::Info), ("mod2", LevelFilter::Debug), ("mod3", LevelFilter::Off)]
            .into_iter()
            .map(|(k, v)| (k.into(), v))
            .collect(),
    );

    assert_eq!(config.find_exact("mod1"), Some(LevelFilter::Info));
    assert_eq!(config.find_exact("mod2"), Some(LevelFilter::Debug));
    assert_eq!(config.find_exact("mod3"), Some(LevelFilter::Off));
}

#[test]
fn log_impl_test_level_config_simple_hierarchy() {
    let config = LevelConfiguration::Minimal(
        vec![("mod1", LevelFilter::Info), ("mod2::sub_mod", LevelFilter::Debug), ("mod3", LevelFilter::Off)]
            .into_iter()
            .map(|(k, v)| (k.into(), v))
            .collect(),
    );

    assert_eq!(config.find_module("mod1::sub_mod"), Some(LevelFilter::Info));
    assert_eq!(config.find_module("mod2::sub_mod::sub_mod_2"), Some(LevelFilter::Debug));
    assert_eq!(config.find_module("mod3::sub_mod::sub_mod_2"), Some(LevelFilter::Off));
}

#[test]
fn log_impl_test_level_config_hierarchy_correct() {
    let config = LevelConfiguration::Minimal(
        vec![
            ("root", LevelFilter::Trace),
            ("root::sub1", LevelFilter::Debug),
            ("root::sub2", LevelFilter::Info),
            // should work with all insertion orders
            ("root::sub2::sub2.3::sub2.4", LevelFilter::Error),
            ("root::sub2::sub2.3", LevelFilter::Warn),
            ("root::sub3", LevelFilter::Off),
        ]
        .into_iter()
        .map(|(k, v)| (k.into(), v))
        .collect(),
    );

    assert_eq!(config.find_module("root"), Some(LevelFilter::Trace));
    assert_eq!(config.find_module("root::other_module"), Some(LevelFilter::Trace));

    assert_eq!(config.find_module("root::sub1"), Some(LevelFilter::Debug));
    assert_eq!(config.find_module("root::sub1::other_module"), Some(LevelFilter::Debug));

    assert_eq!(config.find_module("root::sub2"), Some(LevelFilter::Info));
    assert_eq!(config.find_module("root::sub2::other"), Some(LevelFilter::Info));

    assert_eq!(config.find_module("root::sub2::sub2.3"), Some(LevelFilter::Warn));
    assert_eq!(config.find_module("root::sub2::sub2.3::sub2.4"), Some(LevelFilter::Error));

    assert_eq!(config.find_module("root::sub3"), Some(LevelFilter::Off));
    assert_eq!(
        config.find_module("root::sub3::any::children::of::sub3"),
        Some(LevelFilter::Off)
    );
}

#[test]
fn log_impl_test_level_config_similar_names_are_not_same() {
    let config = LevelConfiguration::Minimal(
        vec![("root", LevelFilter::Trace), ("rootay", LevelFilter::Info)]
            .into_iter()
            .map(|(k, v)| (k.into(), v))
            .collect(),
    );

    assert_eq!(config.find_module("root"), Some(LevelFilter::Trace));
    assert_eq!(config.find_module("root::sub"), Some(LevelFilter::Trace));
    assert_eq!(config.find_module("rooty"), None);
    assert_eq!(config.find_module("rooty::sub"), None);
    assert_eq!(config.find_module("rootay"), Some(LevelFilter::Info));
    assert_eq!(config.find_module("rootay::sub"), Some(LevelFilter::Info));
}

#[test]
fn log_impl_test_level_config_single_colon_is_not_double_colon() {
    let config = LevelConfiguration::Minimal(
        vec![
            ("root", LevelFilter::Trace),
            ("root::su", LevelFilter::Debug),
            ("root::su:b2", LevelFilter::Info),
            ("root::sub2", LevelFilter::Warn),
        ]
        .into_iter()
        .map(|(k, v)| (k.into(), v))
        .collect(),
    );

    assert_eq!(config.find_module("root"), Some(LevelFilter::Trace));

    assert_eq!(config.find_module("root::su"), Some(LevelFilter::Debug));
    assert_eq!(config.find_module("root::su::b2"), Some(LevelFilter::Debug));

    assert_eq!(config.find_module("root::su:b2"), Some(LevelFilter::Info));
    assert_eq!(config.find_module("root::su:b2::b3"), Some(LevelFilter::Info));

    assert_eq!(config.find_module("root::sub2"), Some(LevelFilter::Warn));
    assert_eq!(config.find_module("root::sub2::b3"), Some(LevelFilter::Warn));
}

#[test]
fn log_impl_test_level_config_all_chars() {
    let config = LevelConfiguration::Minimal(
        vec![
            ("\u{2672}", LevelFilter::Trace),
            ("\u{2638}", LevelFilter::Debug),
            ("\u{2672}::\u{2638}", LevelFilter::Info),
            ("\u{2672}::\t", LevelFilter::Debug),
        ]
        .into_iter()
        .map(|(k, v)| (k.into(), v))
        .collect(),
    );

    assert_eq!(config.find_module("\u{2672}"), Some(LevelFilter::Trace));
    assert_eq!(config.find_module("\u{2672}::other"), Some(LevelFilter::Trace));

    assert_eq!(config.find_module("\u{2638}"), Some(LevelFilter::Debug));
    assert_eq!(config.find_module("\u{2638}::any"), Some(LevelFilter::Debug));

    assert_eq!(config.find_module("\u{2672}::\u{2638}"), Some(LevelFilter::Info));
    assert_eq!(config.find_module("\u{2672}\u{2638}"), None);

    assert_eq!(config.find_module("\u{2672}::\t"), Some(LevelFilter::Debug));
    assert_eq!(config.find_module("\u{2672}::\t::\n\n::\t"), Some(LevelFilter::Debug));
    assert_eq!(config.find_module("\u{2672}::\t\t"), Some(LevelFilter::Trace));
}

#[test]
fn find_module_with_no_entries_returns_none() {
    let config = LevelConfiguration::JustDefault;
    assert_eq!(config.find_exact("anything"), None);
    assert_eq!(config.find_module("any::thing::at::all"), None);
}
