use std::time::Duration;

use install_grid::host::{
    collect_popular, settle_plugin_call, HostError, HostResponse, PluginHostBuilder, PluginResult,
};
use install_grid::plugins::{
    AppSummary, PluginDescriptor, PluginExecutionError, PluginFailure, PluginFailureKind,
    PluginKind,
};
use install_grid::store::CachedState;

fn app(id: &str, source: &str) -> AppSummary {
    AppSummary {
        app_id: id.to_string(),
        name: format!("{id} name"),
        summary: format!("{id} summary"),
        source: source.to_string(),
    }
}

fn native(id: &str) -> PluginDescriptor {
    PluginDescriptor { id: id.to_string(), kind: PluginKind::Native }
}

fn failure(plugin: &str, kind: PluginFailureKind) -> PluginFailure {
    PluginFailure { plugin: plugin.to_string(), kind, plugin_kind: PluginKind::Native }
}

fn ids(apps: &[AppSummary]) -> Vec<String> {
    apps.iter().map(|a| a.app_id.clone()).collect()
}

#[test]
fn all_backends_succeed_concatenates_in_dispatch_order() {
    let results: Vec<PluginResult> = vec![
        Ok(vec![app("a1", "A"), app("a2", "A")]),
        Ok(vec![]),
        Ok(vec![app("c1", "C")]),
    ];
    let response = collect_popular(results).ok().expect("round succeeds");
    assert_eq!(ids(&response.data), vec!["a1", "a2", "c1"]);
    assert!(response.warnings.is_empty());
}

#[test]
fn partial_failure_keeps_successes_and_counts_failures() {
    let results: Vec<PluginResult> = vec![
        Err(failure("x", PluginFailureKind::Panic)),
        Ok(vec![app("b1", "B"), app("b2", "B")]),
        Err(failure("y", PluginFailureKind::Execution(PluginExecutionError::LegacyUnavailable))),
        Ok(vec![app("d1", "D")]),
    ];
    let response = collect_popular(results).ok().expect("partial round succeeds");
    assert_eq!(ids(&response.data), vec!["b1", "b2", "d1"]);
    assert_eq!(response.warnings.len(), 2);
    assert_eq!(response.warnings[0].plugin, "x");
    assert_eq!(response.warnings[1].plugin, "y");
}

#[test]
fn backend_with_empty_list_is_not_a_failure() {
    let results: Vec<PluginResult> = vec![
        Err(failure("x", PluginFailureKind::Panic)),
        Ok(vec![]),
    ];
    let response = collect_popular(results).ok().expect("an empty success is still a success");
    assert!(response.data.is_empty());
    assert_eq!(response.warnings.len(), 1);
}

#[test]
fn all_backends_fail_gives_every_failure_and_keeps_cache() {
    let mut cache = CachedState::new();
    let first: Vec<PluginResult> = vec![Ok(vec![app("old", "O")])];
    cache.commit(collect_popular(first)).ok().expect("first round succeeds");

    let results: Vec<PluginResult> = vec![
        Err(failure("a", PluginFailureKind::Panic)),
        Err(failure("b", PluginFailureKind::Execution(PluginExecutionError::Operation("down".to_string())))),
        Err(failure("c", PluginFailureKind::Execution(PluginExecutionError::LegacyUnavailable))),
    ];
    let outcome = cache.commit(collect_popular(results));
    match outcome {
        Err(HostError::AllFailed(failures)) => {
            let names: Vec<&str> = failures.iter().map(|f| f.plugin.as_str()).collect();
            assert_eq!(names, vec!["a", "b", "c"]);
        }
        _ => panic!("expected AllFailed"),
    }
    let snapshot = cache.snapshot();
    assert_eq!(ids(&snapshot.apps), vec!["old"]);
    assert!(snapshot.warnings.is_empty());
}

#[test]
fn zero_backends_succeed_with_empty_outcome() {
    let response = collect_popular(Vec::new()).ok().expect("no backends is a success");
    assert!(response.data.is_empty());
    assert!(response.warnings.is_empty());
}

#[test]
fn zero_backends_twice_never_all_failed() {
    let builder: PluginHostBuilder<PluginDescriptor> = PluginHostBuilder::new();
    assert_eq!(builder.plugin_count(), 0);
    let mut cache = CachedState::new();
    for _ in 0..2 {
        let outcome = cache.commit(collect_popular(Vec::new())).ok().expect("never AllFailed");
        assert!(outcome.apps.is_empty());
        assert!(outcome.warnings.is_empty());
        assert_eq!(builder.plugin_count(), 0);
    }
}

#[test]
fn abnormal_termination_becomes_panic_failure() {
    let d = PluginDescriptor { id: "legacy::flatpak".to_string(), kind: PluginKind::Legacy };
    let settled = settle_plugin_call(&d, None);
    assert_eq!(
        settled,
        Err(PluginFailure {
            plugin: "legacy::flatpak".to_string(),
            kind: PluginFailureKind::Panic,
            plugin_kind: PluginKind::Legacy,
        })
    );
}

#[test]
fn returned_error_becomes_execution_failure() {
    let d = native("n");
    let e = PluginExecutionError::Timeout(Duration::from_secs(2));
    let settled = settle_plugin_call(&d, Some(Err(e.clone())));
    assert_eq!(settled, Err(failure("n", PluginFailureKind::Execution(e))));
}

#[test]
fn successful_call_passes_apps_through() {
    let d = native("n");
    let apps = vec![app("z", "Z"), app("y", "Y")];
    let settled = settle_plugin_call(&d, Some(Ok(apps.clone())));
    assert_eq!(settled, Ok(apps));
}

#[test]
fn panicking_sibling_does_not_stop_others() {
    let a = native("A");
    let b = native("B");
    let c = native("C");
    let results = vec![
        settle_plugin_call(&a, Some(Ok(vec![app("a1", "A")]))),
        settle_plugin_call(&b, None),
        settle_plugin_call(&c, Some(Ok(vec![app("c1", "C")]))),
    ];
    let response = collect_popular(results).ok().expect("siblings still count");
    assert_eq!(ids(&response.data), vec!["a1", "c1"]);
    assert_eq!(response.warnings, vec![failure("B", PluginFailureKind::Panic)]);
}

#[test]
fn mixed_round_scenario_updates_cache() {
    let a = native("A");
    let b = native("B");
    let c = native("C");
    let results = vec![
        settle_plugin_call(&a, Some(Ok(vec![app("a1", "A"), app("a2", "A")]))),
        settle_plugin_call(&b, Some(Err(PluginExecutionError::Operation("network down".to_string())))),
        settle_plugin_call(&c, None),
    ];
    let mut cache = CachedState::new();
    let outcome = cache.commit(collect_popular(results)).ok().expect("partial success");
    assert_eq!(outcome.apps.len(), 2);
    assert_eq!(
        outcome.warnings,
        vec![
            failure(
                "B",
                PluginFailureKind::Execution(PluginExecutionError::Operation("network down".to_string()))
            ),
            failure("C", PluginFailureKind::Panic),
        ]
    );
    let snapshot = cache.snapshot();
    assert_eq!(snapshot.apps, outcome.apps);
    assert_eq!(snapshot.warnings, outcome.warnings);
}

#[test]
fn runtime_unavailable_leaves_cache_untouched() {
    let mut cache = CachedState::new();
    cache
        .commit(Ok(HostResponse {
            data: vec![app("k", "K")],
            warnings: vec![failure("w", PluginFailureKind::Panic)],
        }))
        .ok()
        .expect("commit succeeds");
    let outcome = cache.commit(Err(HostError::RuntimeUnavailable));
    assert!(matches!(outcome, Err(HostError::RuntimeUnavailable)));
    let snapshot = cache.snapshot();
    assert_eq!(ids(&snapshot.apps), vec!["k"]);
    assert_eq!(snapshot.warnings, vec![failure("w", PluginFailureKind::Panic)]);
}

#[test]
fn snapshot_pairs_apps_with_their_warnings() {
    let mut cache = CachedState::default();
    let empty = cache.snapshot();
    assert!(empty.apps.is_empty() && empty.warnings.is_empty());
    let round1: Vec<PluginResult> = vec![Ok(vec![app("r1", "R")]), Err(failure("f1", PluginFailureKind::Panic))];
    let round2: Vec<PluginResult> = vec![Ok(vec![app("r2", "R")])];
    cache.commit(collect_popular(round1)).ok().expect("round one");
    let s1 = cache.snapshot();
    assert_eq!(ids(&s1.apps), vec!["r1"]);
    assert_eq!(s1.warnings.len(), 1);
    cache.commit(collect_popular(round2)).ok().expect("round two");
    let s2 = cache.snapshot();
    assert_eq!(ids(&s2.apps), vec!["r2"]);
    assert!(s2.warnings.is_empty());
}

#[test]
fn builder_keeps_registration_order() {
    let builder = PluginHostBuilder::default()
        .with_backend(native("first"))
        .with_backend(native("second"))
        .with_backend(native("third"));
    assert_eq!(builder.plugin_count(), 3);
    let names: Vec<String> = builder.into_backends().into_iter().map(|d| d.id).collect();
    assert_eq!(names, vec!["first", "second", "third"]);
}
