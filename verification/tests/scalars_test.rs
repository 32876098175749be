use query_core::error::BAD_ARGUMENTS;
use query_core::grouping::compute_grouping;
use query_core::role_cache::{find_all_related_roles, RoleCacheManager, RoleInfo};
use query_core::scalars::{
    and_domain, and_nullable, and_nullable_domain, assume_not_null, eval_boolean_to_string,
    eval_string_to_boolean, ignore, inet_aton, inet_ntoa, not_domain, or_domain, or_nullable,
    or_nullable_domain, register, running_difference, uuid_offsets, BooleanDomain, LogicFunction,
    LogicOperator, NullableBooleanDomain,
};

#[test]
fn grouping_packs_the_bits_of_the_columns() {
    // grouping id 0b101: columns 0 and 2 are aggregated away.
    assert_eq!(compute_grouping(&[0], 0b101), 1);
    assert_eq!(compute_grouping(&[1], 0b101), 0);
    assert_eq!(compute_grouping(&[2], 0b101), 1);
    // The last column gives the lowest bit.
    assert_eq!(compute_grouping(&[2, 1], 0b101), 0b10);
    assert_eq!(compute_grouping(&[1, 2], 0b101), 0b01);
    assert_eq!(compute_grouping(&[0, 1, 2], 0b101), 0b101);
    assert_eq!(compute_grouping(&[2, 1, 0], 0b110), 0b110);
    assert_eq!(compute_grouping(&[0, 1, 2], 0b110), 0b011);
    assert_eq!(compute_grouping(&[], 0b111), 0);
    assert_eq!(compute_grouping(&[31], 1 << 31), 1);
    assert_eq!(compute_grouping(&[3, 3], 0), 0);
}

#[test]
fn logic_functions_work_row_by_row() {
    let and = LogicFunction::try_create_func(LogicOperator::And);
    let columns = vec![vec![true, true, false], vec![true, false, false]];
    assert_eq!(and.eval(&columns, 3).unwrap(), vec![true, false, false]);
    let or = LogicFunction::try_create_func(LogicOperator::Or);
    assert_eq!(or.eval(&columns, 3).unwrap(), vec![true, true, false]);
    let not = LogicFunction::try_create_func(LogicOperator::Not);
    assert_eq!(not.eval(&vec![vec![true, false]], 2).unwrap(), vec![false, true]);
    assert_eq!(not.eval(&columns, 3).unwrap_err().code(), BAD_ARGUMENTS);
    assert_eq!(and.eval(&columns, 2).unwrap_err().code(), BAD_ARGUMENTS);
    assert_eq!(and.name(), "LogicFunction");
    assert_eq!(and.to_string(), "and");
    assert!(!and.nullable());
    let names = LogicFunction::register();
    assert_eq!(
        names,
        vec![("and", LogicOperator::And), ("or", LogicOperator::Or), ("not", LogicOperator::Not)]
    );
}

#[test]
fn boolean_domains() {
    let only_true = BooleanDomain { has_false: false, has_true: true };
    let only_false = BooleanDomain { has_false: true, has_true: false };
    let both = BooleanDomain { has_false: true, has_true: true };
    assert_eq!(not_domain(only_true), only_false);
    assert_eq!(and_domain(only_true, both), both);
    assert_eq!(and_domain(only_true, only_true), only_true);
    assert_eq!(and_domain(only_false, both), only_false);
    assert_eq!(or_domain(only_false, both), both);
    assert_eq!(or_domain(only_true, both), only_true);
}

#[test]
fn three_valued_logic() {
    assert_eq!(and_nullable(Some(true), None), None);
    assert_eq!(and_nullable(Some(false), None), Some(false));
    assert_eq!(and_nullable(None, Some(false)), Some(false));
    assert_eq!(and_nullable(Some(true), Some(true)), Some(true));
    assert_eq!(and_nullable(None, None), None);
    assert_eq!(or_nullable(Some(true), None), Some(true));
    assert_eq!(or_nullable(None, Some(true)), Some(true));
    assert_eq!(or_nullable(Some(false), None), None);
    assert_eq!(or_nullable(Some(false), Some(false)), Some(false));

    let only_true = NullableBooleanDomain {
        has_null: false,
        value: Some(BooleanDomain { has_false: false, has_true: true }),
    };
    let only_false = NullableBooleanDomain {
        has_null: false,
        value: Some(BooleanDomain { has_false: true, has_true: false }),
    };
    let only_null = NullableBooleanDomain { has_null: true, value: None };
    // A side that is always false makes the conjunction always false.
    assert_eq!(and_nullable_domain(only_false, only_null), only_false);
    assert_eq!(and_nullable_domain(only_true, only_null), only_null);
    // A side that is always true makes the disjunction always true.
    assert_eq!(or_nullable_domain(only_null, only_true), only_true);
    assert_eq!(or_nullable_domain(only_false, only_null), only_null);
}

#[test]
fn booleans_and_their_texts() {
    assert_eq!(eval_boolean_to_string(true), "true");
    assert_eq!(eval_boolean_to_string(false), "false");
    assert_eq!(eval_string_to_boolean("TRUE").unwrap(), true);
    assert_eq!(eval_string_to_boolean("False").unwrap(), false);
    let err = eval_string_to_boolean("yes").unwrap_err();
    assert_eq!(err.code(), BAD_ARGUMENTS);
    assert_eq!(err.message(), "cannot parse to type `BOOLEAN`");
    assert!(eval_string_to_boolean("tru").is_err());
    assert!(eval_string_to_boolean("").is_err());
}

#[test]
fn addresses_and_their_texts() {
    assert_eq!(inet_ntoa(0).unwrap(), "0.0.0.0");
    assert_eq!(inet_ntoa(3232235777).unwrap(), "192.168.1.1");
    assert_eq!(inet_ntoa(4294967295).unwrap(), "255.255.255.255");
    let err = inet_ntoa(4294967296).unwrap_err();
    assert_eq!(err.code(), BAD_ARGUMENTS);
    assert_eq!(err.message(), "Failed to parse '4294967296' into a IPV4 address");
    assert_eq!(
        inet_ntoa(-1).unwrap_err().message(),
        "Failed to parse '-1' into a IPV4 address"
    );

    assert_eq!(inet_aton("192.168.1.1").unwrap(), 3232235777);
    assert_eq!(inet_aton("0.0.0.0").unwrap(), 0);
    assert_eq!(inet_aton("255.255.255.255").unwrap(), 4294967295);
    assert_eq!(inet_aton("1.2.3.4").unwrap(), 0x01020304);
    for bad in ["", "1.2.3", "1.2.3.4.5", "256.1.1.1", "1.2.3.x", "01.2.3.4", "1..3.4", "1.2.3.", " 1.2.3.4", "1.2.3.1000"] {
        assert_eq!(inet_aton(bad).unwrap_err().code(), BAD_ARGUMENTS, "{:?}", bad);
    }
}

#[test]
fn other_scalar_functions() {
    assert_eq!(running_difference(&vec![]), Vec::<i64>::new());
    assert_eq!(running_difference(&vec![5]), vec![0]);
    assert_eq!(running_difference(&vec![1, 4, 2, 2]), vec![0, 3, -2, 0]);
    assert_eq!(running_difference(&vec![i64::MIN, i64::MAX]), vec![0, -1]);
    assert!(!ignore());
    assert_eq!(assume_not_null(Some(3), 0), 3);
    assert_eq!(assume_not_null(None, 9), 9);
    assert_eq!(uuid_offsets(3), Some(vec![0, 36, 72, 108]));
    assert_eq!(uuid_offsets(0), Some(vec![0]));
    let aliases = register();
    assert_eq!(aliases[0], ("inet_aton", "ipv4_string_to_num"));
    assert_eq!(aliases[5], ("gen_random_uuid", "uuid"));
}

fn role(name: &str, grants: Vec<&str>) -> RoleInfo {
    RoleInfo { name: name.to_string(), grants: grants.into_iter().map(|g| g.to_string()).collect() }
}

#[test]
fn role_cache_reloads_missing_empty_and_stale_entries() {
    let mut cache = RoleCacheManager::try_create();
    assert_eq!(cache.polling_interval, 15000);
    // Nothing cached: reload.
    assert!(cache.maybe_reload("t1", 0));
    cache.force_reload("t1", vec![role("admin", vec![])], 1000);
    assert!(!cache.maybe_reload("t1", 1000));
    assert!(!cache.maybe_reload("t1", 30999));
    // Two intervals old: reload.
    assert!(cache.maybe_reload("t1", 31000));
    assert!(cache.maybe_reload("t2", 1000));
    // Empty: reload.
    cache.force_reload("t2", vec![], 1000);
    assert!(cache.maybe_reload("t2", 1000));
    assert_eq!(cache.background_polling(), vec!["t1".to_string(), "t2".to_string()]);

    assert_eq!(cache.find_role("t1", "admin"), Some(&role("admin", vec![])));
    assert_eq!(cache.find_role("t1", "nobody"), None);
    assert_eq!(cache.find_role("t3", "admin"), None);

    // A reload replaces the roles of the tenant and of no other.
    cache.force_reload("t1", vec![role("dev", vec![])], 2000);
    assert_eq!(cache.find_role("t1", "admin"), None);
    assert_eq!(cache.find_role("t1", "dev"), Some(&role("dev", vec![])));
    assert_eq!(cache.background_polling().len(), 2);

    cache.invalidate_cache("t1");
    assert_eq!(cache.find_role("t1", "dev"), None);
    assert!(cache.maybe_reload("t1", 2000));
    assert_eq!(cache.background_polling(), vec!["t2".to_string()]);
    cache.invalidate_cache("t9");
    assert_eq!(cache.background_polling(), vec!["t2".to_string()]);
}

#[test]
fn related_roles_follow_grants() {
    let roles = vec![
        role("a", vec!["b", "c"]),
        role("b", vec!["d", "a"]),
        role("c", vec![]),
        role("d", vec!["missing"]),
        role("e", vec![]),
    ];
    let ask = |names: Vec<&str>| {
        let names: Vec<String> = names.into_iter().map(|n| n.to_string()).collect();
        find_all_related_roles(&roles, &names)
    };
    assert_eq!(ask(vec!["a"]), vec![0, 1, 2, 3]);
    assert_eq!(ask(vec!["b"]), vec![1, 3, 0, 2]);
    assert_eq!(ask(vec!["e", "c", "e"]), vec![4, 2]);
    assert_eq!(ask(vec!["nobody"]), Vec::<usize>::new());
    assert_eq!(ask(vec![]), Vec::<usize>::new());

    let mut cache = RoleCacheManager::try_create();
    cache.force_reload("t", roles, 0);
    let found = cache.find_related_roles("t", &vec!["d".to_string()]);
    assert_eq!(found, vec![&role("d", vec!["missing"])]);
    assert!(cache.find_related_roles("other", &vec!["d".to_string()]).is_empty());
}

#[test]
fn exclusive_disjunction_and_its_domain() {
    assert!(query_core::scalars::xor(true, false));
    assert!(query_core::scalars::xor(false, true));
    assert!(!query_core::scalars::xor(true, true));
    assert!(!query_core::scalars::xor(false, false));
    let only_true = BooleanDomain { has_false: false, has_true: true };
    let both = BooleanDomain { has_false: true, has_true: true };
    assert_eq!(
        query_core::scalars::xor_domain(only_true, only_true),
        BooleanDomain { has_false: true, has_true: false }
    );
    assert_eq!(query_core::scalars::xor_domain(only_true, both), both);
}

#[test]
fn is_true_reads_unknown_as_false() {
    assert!(query_core::scalars::is_true(Some(true)));
    assert!(!query_core::scalars::is_true(Some(false)));
    assert!(!query_core::scalars::is_true(None));
    let unknown_or_true = NullableBooleanDomain {
        has_null: true,
        value: Some(BooleanDomain { has_false: false, has_true: true }),
    };
    assert_eq!(
        query_core::scalars::is_true_domain(unknown_or_true),
        BooleanDomain { has_false: true, has_true: true }
    );
    let only_unknown = NullableBooleanDomain { has_null: true, value: None };
    assert_eq!(
        query_core::scalars::is_true_domain(only_unknown),
        BooleanDomain { has_false: true, has_true: false }
    );
}

#[test]
fn integers_and_truth_values() {
    assert!(query_core::scalars::number_to_boolean(-3));
    assert!(!query_core::scalars::number_to_boolean(0));
    assert_eq!(query_core::scalars::boolean_to_number(true), 1);
    assert_eq!(query_core::scalars::boolean_to_number(false), 0);
    assert_eq!(
        query_core::scalars::number_to_boolean_domain(0, 0),
        BooleanDomain { has_false: true, has_true: false }
    );
    assert_eq!(
        query_core::scalars::number_to_boolean_domain(1, 9),
        BooleanDomain { has_false: false, has_true: true }
    );
    assert_eq!(
        query_core::scalars::number_to_boolean_domain(-1, 9),
        BooleanDomain { has_false: true, has_true: true }
    );
    assert_eq!(
        query_core::scalars::boolean_to_number_domain(BooleanDomain { has_false: false, has_true: true }),
        (1, 1)
    );
    assert_eq!(
        query_core::scalars::boolean_to_number_domain(BooleanDomain { has_false: true, has_true: true }),
        (0, 1)
    );
}

#[test]
fn nullable_domains_are_exact() {
    let only_false = NullableBooleanDomain {
        has_null: false,
        value: Some(BooleanDomain { has_false: true, has_true: false }),
    };
    let anything = NullableBooleanDomain {
        has_null: true,
        value: Some(BooleanDomain { has_false: true, has_true: true }),
    };
    assert_eq!(query_core::scalars::and_nullable_domain(only_false, anything), only_false);
    assert_eq!(query_core::scalars::or_nullable_domain(only_false, anything), anything);
    let only_unknown = NullableBooleanDomain { has_null: true, value: None };
    assert_eq!(query_core::scalars::and_nullable_domain(only_unknown, only_unknown), only_unknown);
}

#[test]
fn sleep_is_limited_to_three_hundred_seconds() {
    assert!(query_core::scalars::check_sleep_duration(0, 0).is_ok());
    assert!(query_core::scalars::check_sleep_duration(299_999, 999_999).is_ok());
    assert!(query_core::scalars::check_sleep_duration(300_000, 0).is_ok());
    let err = query_core::scalars::check_sleep_duration(300_000, 1).unwrap_err();
    assert_eq!(err.code(), BAD_ARGUMENTS);
    assert_eq!(err.message(), "The maximum sleep time is 300 seconds");
    assert!(query_core::scalars::check_sleep_duration(300_001, 0).is_err());
}
