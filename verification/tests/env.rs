use pallet_contracts::env::{AllowDeprecatedInterface, AllowUnstableInterface, Env};

fn names(allow_unstable: AllowUnstableInterface, allow_deprecated: AllowDeprecatedInterface) -> Vec<(String, String)> {
    Env::linked_imports(allow_unstable, allow_deprecated)
        .iter()
        .map(|i| (i.module.to_string(), i.name.to_string()))
        .collect()
}

fn has(list: &[(String, String)], module: &str, name: &str) -> bool {
    list.iter().any(|(m, n)| m == module && n == name)
}

#[test]
fn every_host_function_is_defined_once() {
    let all = Env::host_fn_imports();
    assert_eq!(all.len(), 112);
    for (i, a) in all.iter().enumerate() {
        for b in &all[i + 1..] {
            assert!(!(a.module == b.module && a.name == b.name));
        }
    }
    assert_eq!((all[0].module, all[0].name), ("seal0", "gas"));
}

#[test]
fn linked_counts_under_each_switch() {
    assert_eq!(names(AllowUnstableInterface::No, AllowDeprecatedInterface::No).len(), 87);
    assert_eq!(names(AllowUnstableInterface::No, AllowDeprecatedInterface::Yes).len(), 103);
    assert_eq!(names(AllowUnstableInterface::Yes, AllowDeprecatedInterface::No).len(), 96);
    assert_eq!(names(AllowUnstableInterface::Yes, AllowDeprecatedInterface::Yes).len(), 112);
}

#[test]
fn unstable_functions_need_the_switch() {
    let stable_only = names(AllowUnstableInterface::No, AllowDeprecatedInterface::No);
    assert!(!has(&stable_only, "seal2", "call"));
    assert!(!has(&stable_only, "seal0", "sr25519_verify"));
    assert!(has(&stable_only, "seal1", "call"));
    let unstable = names(AllowUnstableInterface::Yes, AllowDeprecatedInterface::No);
    assert!(has(&unstable, "seal2", "call"));
    assert!(has(&unstable, "seal0", "instantiation_nonce"));
}

#[test]
fn deprecated_functions_need_the_switch() {
    let current = names(AllowUnstableInterface::Yes, AllowDeprecatedInterface::No);
    assert!(!has(&current, "seal0", "random"));
    assert!(!has(&current, "seal1", "seal_restore_to"));
    let all = names(AllowUnstableInterface::No, AllowDeprecatedInterface::Yes);
    assert!(has(&all, "seal0", "random"));
    assert!(has(&all, "seal0", "seal_rent_allowance"));
}

#[test]
fn linked_functions_keep_their_order() {
    let all: Vec<(String, String)> = Env::host_fn_imports()
        .iter()
        .map(|i| (i.module.to_string(), i.name.to_string()))
        .collect();
    let linked = names(AllowUnstableInterface::No, AllowDeprecatedInterface::No);
    let positions: Vec<usize> = linked.iter().map(|l| all.iter().position(|a| a == l).unwrap()).collect();
    assert!(positions.windows(2).all(|w| w[0] < w[1]));
    assert_eq!(names(AllowUnstableInterface::Yes, AllowDeprecatedInterface::Yes), all);
}

#[test]
fn is_linked_follows_the_switches() {
    let all = Env::host_fn_imports();
    let unstable = all.iter().find(|i| i.module == "seal2" && i.name == "call").unwrap();
    assert!(!Env::is_linked(unstable, AllowUnstableInterface::No, AllowDeprecatedInterface::Yes));
    assert!(Env::is_linked(unstable, AllowUnstableInterface::Yes, AllowDeprecatedInterface::No));
    let deprecated = all.iter().find(|i| i.module == "seal0" && i.name == "random").unwrap();
    assert!(deprecated.deprecated && deprecated.stable);
    assert!(!Env::is_linked(deprecated, AllowUnstableInterface::Yes, AllowDeprecatedInterface::No));
}
