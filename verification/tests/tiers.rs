use opm::process::dump::{
    clear_memory, commit_memory, commit_temp, empty_runner, from, init_on_startup, raw, read,
    read_memory, read_merged, read_temp, write_memory, write_temp, Effect, Found,
    MemoryCache, Outcome, Raw, Reaction, Request,
};
use opm::process::id::Id;
use opm::process::{Crash, Process, Runner};
use std::collections::BTreeMap;

fn entry(id: usize, name: &str, running: bool, crashed: bool) -> Process {
    Process {
        id,
        name: name.to_string(),
        running,
        crash: Crash { crashed, reason: String::new(), at: 0 },
    }
}

fn snapshot(counter: usize, records: Vec<Process>) -> Runner {
    let mut list = BTreeMap::new();
    for process in records {
        list.insert(process.id, process);
    }
    Runner { id: Id::new(counter), list, remote: None }
}

fn cache_with(runner: &Runner) -> MemoryCache {
    let mut cache = MemoryCache::new();
    write_memory(&mut cache, runner);
    cache
}

#[test]
fn durable_read_returns_the_registry_in_the_file() {
    let stored = snapshot(3, vec![entry(1, "web", true, false), entry(2, "db", false, false)]);
    let out = read(Found::Registry(stored.clone()));
    assert_eq!(out, Outcome { registry: stored, effects: vec![] });
}

#[test]
fn durable_read_bootstraps_a_missing_file() {
    let out = read(Found::Missing);
    assert_eq!(out.registry, empty_runner());
    assert_eq!(out.effects, vec![Effect::WriteDurable(empty_runner())]);
}

#[test]
fn durable_read_quarantines_an_unreadable_file() {
    let out = read(Found::Unreadable);
    assert_eq!(out.registry, empty_runner());
    assert_eq!(out.effects, vec![Effect::Quarantine, Effect::WriteDurable(empty_runner())]);
    let backups = out.effects.iter().filter(|effect| **effect == Effect::Quarantine).count();
    assert_eq!(backups, 1);
}

#[test]
fn transient_read_of_a_missing_file_touches_nothing() {
    let out = read_temp(Found::Missing);
    assert_eq!(out, Outcome { registry: empty_runner(), effects: vec![] });
}

#[test]
fn transient_read_of_an_unreadable_file_yields_the_empty_registry() {
    let out = read_temp(Found::Unreadable);
    assert_eq!(out, Outcome { registry: empty_runner(), effects: vec![] });
}

#[test]
fn transient_read_returns_the_registry_in_the_file() {
    let stored = snapshot(2, vec![entry(1, "web", true, false)]);
    let out = read_temp(Found::Registry(stored.clone()));
    assert_eq!(out, Outcome { registry: stored, effects: vec![] });
}

#[test]
fn durable_write_replaces_the_durable_file() {
    let runner = snapshot(2, vec![entry(1, "web", true, false)]);
    assert_eq!(opm::process::dump::write(&runner), vec![Effect::WriteDurable(runner)]);
}

#[test]
fn transient_write_replaces_the_transient_file() {
    let runner = snapshot(2, vec![entry(1, "web", true, false)]);
    assert_eq!(write_temp(&runner), vec![Effect::WriteTransient(runner)]);
}

#[test]
fn only_a_failed_durable_write_is_fatal() {
    assert_eq!(Effect::WriteDurable(empty_runner()).on_failure(), Reaction::Abort);
    assert_eq!(Effect::WriteTransient(empty_runner()).on_failure(), Reaction::Report);
    assert_eq!(Effect::Quarantine.on_failure(), Reaction::Report);
    assert_eq!(Effect::RemoveTransient.on_failure(), Reaction::Ignore);
}

#[test]
fn memory_cache_starts_empty() {
    let cache = MemoryCache::new();
    assert_eq!(cache.runner, None);
    assert_eq!(read_memory(&cache), empty_runner());
}

#[test]
fn memory_write_replaces_wholesale() {
    let mut cache = MemoryCache::new();
    write_memory(&mut cache, &snapshot(4, vec![entry(1, "a", true, false), entry(2, "b", true, false)]));
    let second = snapshot(1, vec![entry(9, "z", false, false)]);
    write_memory(&mut cache, &second);
    assert_eq!(read_memory(&cache), second);
    assert_eq!(cache.runner, Some(second));
}

#[test]
fn memory_read_hands_out_a_copy() {
    let stored = snapshot(2, vec![entry(1, "a", true, false)]);
    let cache = cache_with(&stored);
    let mut copy = read_memory(&cache);
    copy.list.insert(5, entry(5, "e", true, false));
    copy.id.counter = 50;
    assert_eq!(read_memory(&cache), stored);
}

#[test]
fn memory_clear_empties_the_cache() {
    let mut cache = cache_with(&snapshot(2, vec![entry(1, "a", true, false)]));
    clear_memory(&mut cache);
    assert_eq!(cache.runner, None);
    assert_eq!(read_memory(&cache), empty_runner());
    clear_memory(&mut cache);
    assert_eq!(cache.runner, None);
}

#[test]
fn commit_memory_merges_into_durable_and_clears_the_cache() {
    let mut cache = cache_with(&snapshot(6, vec![entry(5, "api", true, false)]));
    let durable = snapshot(3, vec![entry(5, "api-old", true, false)]);
    let out = commit_memory(&mut cache, Found::Registry(durable));

    let merged = snapshot(6, vec![entry(5, "api", true, false)]);
    assert_eq!(out.registry, merged);
    assert_eq!(out.effects, vec![Effect::WriteDurable(merged)]);
    assert_eq!(cache.runner, None);
    assert_eq!(read_memory(&cache), empty_runner());
}

#[test]
fn commit_memory_keeps_what_only_durable_holds() {
    let mut cache = cache_with(&snapshot(2, vec![entry(1, "fresh", true, false)]));
    let durable = snapshot(9, vec![entry(1, "stale", false, false), entry(8, "only-durable", true, false)]);
    let out = commit_memory(&mut cache, Found::Registry(durable));
    assert_eq!(
        out.registry,
        snapshot(9, vec![entry(1, "fresh", true, false), entry(8, "only-durable", true, false)])
    );
}

#[test]
fn commit_memory_onto_a_missing_file_bootstraps_first() {
    let cached = snapshot(2, vec![entry(1, "web", true, false)]);
    let mut cache = cache_with(&cached);
    let out = commit_memory(&mut cache, Found::Missing);
    assert_eq!(out.registry, cached);
    assert_eq!(
        out.effects,
        vec![Effect::WriteDurable(empty_runner()), Effect::WriteDurable(cached)]
    );
    assert_eq!(cache.runner, None);
}

#[test]
fn commit_memory_onto_an_unreadable_file_quarantines_first() {
    let cached = snapshot(2, vec![entry(1, "web", true, false)]);
    let mut cache = cache_with(&cached);
    let out = commit_memory(&mut cache, Found::Unreadable);
    assert_eq!(out.registry, cached);
    assert_eq!(
        out.effects,
        vec![
            Effect::Quarantine,
            Effect::WriteDurable(empty_runner()),
            Effect::WriteDurable(cached),
        ]
    );
}

#[test]
fn commit_memory_with_an_empty_cache_rewrites_durable() {
    let mut cache = MemoryCache::new();
    let durable = snapshot(3, vec![entry(1, "web", true, false)]);
    let out = commit_memory(&mut cache, Found::Registry(durable.clone()));
    assert_eq!(out.registry, durable);
    assert_eq!(out.effects, vec![Effect::WriteDurable(durable)]);
}

#[test]
fn commit_temp_merges_into_durable_and_removes_the_transient_file() {
    let durable = snapshot(3, vec![entry(1, "old", false, false), entry(2, "kept", true, false)]);
    let transient = snapshot(5, vec![entry(1, "new", true, false), entry(4, "added", true, false)]);
    let out = commit_temp(Found::Registry(durable), Found::Registry(transient));

    let merged = snapshot(
        5,
        vec![entry(1, "new", true, false), entry(2, "kept", true, false), entry(4, "added", true, false)],
    );
    assert_eq!(out.registry, merged);
    assert_eq!(out.effects, vec![Effect::WriteDurable(merged), Effect::RemoveTransient]);
}

#[test]
fn commit_temp_without_a_transient_file_removes_nothing() {
    let durable = snapshot(3, vec![entry(1, "web", true, false)]);
    let out = commit_temp(Found::Registry(durable.clone()), Found::Missing);
    assert_eq!(out.registry, durable);
    assert_eq!(out.effects, vec![Effect::WriteDurable(durable)]);
}

#[test]
fn commit_temp_removes_an_unreadable_transient_file() {
    let durable = snapshot(3, vec![entry(1, "web", true, false)]);
    let out = commit_temp(Found::Registry(durable.clone()), Found::Unreadable);
    assert_eq!(out.registry, durable);
    assert_eq!(out.effects, vec![Effect::WriteDurable(durable), Effect::RemoveTransient]);
}

#[test]
fn commit_temp_keeps_the_higher_durable_counter() {
    let durable = snapshot(12, vec![]);
    let transient = snapshot(2, vec![entry(1, "web", true, false)]);
    let out = commit_temp(Found::Registry(durable), Found::Registry(transient));
    assert_eq!(out.registry.id.counter, 12);
    assert_eq!(out.registry.list.len(), 1);
}

#[test]
fn read_merged_stacks_durable_transient_memory() {
    let durable = snapshot(
        2,
        vec![entry(1, "d1", false, false), entry(2, "d2", false, false), entry(3, "d3", false, false)],
    );
    let transient = snapshot(9, vec![entry(2, "t2", true, false), entry(3, "t3", true, false)]);
    let cache = cache_with(&snapshot(4, vec![entry(3, "m3", true, true), entry(7, "m7", true, false)]));

    let out = read_merged(&cache, Found::Registry(durable), Found::Registry(transient));
    assert_eq!(
        out.registry,
        snapshot(
            9,
            vec![
                entry(1, "d1", false, false),
                entry(2, "t2", true, false),
                entry(3, "m3", true, true),
                entry(7, "m7", true, false),
            ],
        )
    );
    assert_eq!(out.effects, vec![]);
}

#[test]
fn read_merged_commits_nothing() {
    let stored = snapshot(4, vec![entry(3, "m3", true, false)]);
    let cache = cache_with(&stored);
    let out = read_merged(
        &cache,
        Found::Registry(snapshot(1, vec![])),
        Found::Registry(snapshot(2, vec![entry(1, "t", true, false)])),
    );
    assert!(out.effects.is_empty());
    assert_eq!(cache.runner, Some(stored));
}

#[test]
fn read_merged_of_nothing_is_the_empty_registry() {
    let out = read_merged(&MemoryCache::new(), Found::Missing, Found::Missing);
    assert_eq!(out.registry, empty_runner());
    assert_eq!(out.effects, vec![Effect::WriteDurable(empty_runner())]);
}

#[test]
fn read_merged_does_not_reconcile_crashes() {
    let durable = snapshot(2, vec![entry(1, "web", true, true)]);
    let out = read_merged(&MemoryCache::new(), Found::Registry(durable.clone()), Found::Missing);
    assert_eq!(out.registry, durable);
}

#[test]
fn startup_loads_transient_and_leaves_the_file() {
    let mut cache = MemoryCache::new();
    let transient = snapshot(2, vec![entry(1, "web", true, false)]);
    let out = init_on_startup(&mut cache, Found::Registry(empty_runner()), Found::Registry(transient));

    assert_eq!(out.registry.list[&1], entry(1, "web", true, false));
    assert!(out.registry.list[&1].running);
    assert!(out.registry.id.counter >= 2);
    assert_eq!(out.registry.id.counter, 2);
    assert!(!out.effects.contains(&Effect::RemoveTransient));
    assert_eq!(out.effects, vec![]);
}

#[test]
fn startup_reconciles_crashed_records() {
    let mut cache = MemoryCache::new();
    let durable = snapshot(2, vec![entry(1, "web", false, true)]);
    let out = init_on_startup(&mut cache, Found::Registry(durable), Found::Missing);
    assert_eq!(out.registry.list[&1], entry(1, "web", false, true));
    assert!(!out.registry.list[&1].running);
    assert!(out.registry.list[&1].crash.crashed);
}

#[test]
fn startup_stops_records_that_crashed_while_running() {
    let mut cache = MemoryCache::new();
    let durable = snapshot(3, vec![entry(1, "web", true, true), entry(2, "db", true, false)]);
    let transient = snapshot(4, vec![entry(3, "job", true, true)]);
    let out = init_on_startup(&mut cache, Found::Registry(durable), Found::Registry(transient));
    assert_eq!(
        out.registry,
        snapshot(
            4,
            vec![entry(1, "web", false, true), entry(2, "db", true, false), entry(3, "job", false, true)],
        )
    );
}

#[test]
fn startup_writes_nothing_back_and_clears_the_cache() {
    let mut cache = cache_with(&snapshot(8, vec![entry(7, "stale", true, false)]));
    let durable = snapshot(3, vec![entry(1, "web", true, false)]);
    let transient = snapshot(5, vec![entry(2, "cli", true, false)]);
    let out = init_on_startup(&mut cache, Found::Registry(durable), Found::Registry(transient));
    assert_eq!(out.effects, vec![]);
    assert_eq!(cache.runner, None);
    assert!(!out.registry.list.contains_key(&7));
    assert_eq!(out.registry.id.counter, 5);
}

#[test]
fn startup_survives_an_unreadable_transient_file() {
    let mut cache = MemoryCache::new();
    let durable = snapshot(3, vec![entry(1, "web", true, false)]);
    let out = init_on_startup(&mut cache, Found::Registry(durable.clone()), Found::Unreadable);
    assert_eq!(out.registry, durable);
    assert_eq!(out.effects, vec![]);
}

#[test]
fn startup_heals_an_unreadable_durable_file() {
    let mut cache = MemoryCache::new();
    let transient = snapshot(2, vec![entry(1, "web", true, false)]);
    let out = init_on_startup(&mut cache, Found::Unreadable, Found::Registry(transient.clone()));
    assert_eq!(out.registry, transient);
    assert_eq!(out.effects, vec![Effect::Quarantine, Effect::WriteDurable(empty_runner())]);
}

#[test]
fn raw_hands_over_the_bytes_on_disk() {
    assert_eq!(raw(Some(vec![40, 105, 100, 58, 41])), Raw::Ready(vec![40, 105, 100, 58, 41]));
    assert_eq!(raw(Some(vec![])), Raw::Ready(vec![]));
}

#[test]
fn raw_bootstraps_a_missing_file() {
    assert_eq!(raw(None), Raw::Bootstrap(vec![Effect::WriteDurable(empty_runner())]));
}

#[test]
fn remote_request_without_token() {
    assert_eq!(
        from("http://10.0.0.2:9876", None),
        Request { url: "http://10.0.0.2:9876/daemon/dump".to_string(), headers: vec![] }
    );
}

#[test]
fn remote_request_with_token() {
    assert_eq!(
        from("https://pm.example", Some("s3cr3t")),
        Request {
            url: "https://pm.example/daemon/dump".to_string(),
            headers: vec![("token".to_string(), "s3cr3t".to_string())],
        }
    );
}

#[test]
fn clearing_the_transient_tier_removes_the_file() {
    let held = Found::Registry(snapshot(1, vec![]));
    assert_eq!(opm::process::dump::clear_temp(&held), vec![Effect::RemoveTransient]);
    assert_eq!(opm::process::dump::clear_temp(&Found::Unreadable), vec![Effect::RemoveTransient]);
}

#[test]
fn clearing_a_missing_transient_file_is_a_no_op() {
    assert_eq!(opm::process::dump::clear_temp(&Found::Missing), vec![]);
}
