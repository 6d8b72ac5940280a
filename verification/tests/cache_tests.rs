use playpen::Cache;
use playpen::CacheKey;
use playpen::ExitStatus;
use playpen::ReleaseChannel;

fn key(channel: ReleaseChannel, cmd: &str, args: &[&str], env: &[(&str, &str)], input: &str) -> CacheKey {
    CacheKey::new(
        channel,
        cmd,
        args.iter().map(|a| a.to_string()).collect(),
        env.iter()
            .map(|(k, v)| (k.to_string(), v.to_string()))
            .collect(),
        input.to_string(),
    )
}

/// A caller as the front ends have it: on a miss, "run the sandbox"
/// (here a stub that counts invocations) and store what it produced.
fn exec_with_stub(cache: &mut Cache, k: CacheKey, runs: &mut usize) -> (ExitStatus, Vec<u8>) {
    if let Some(hit) = cache.lookup(&k) {
        return hit;
    }
    *runs += 1;
    let produced = (ExitStatus::Exited(0), k.input.clone().into_bytes());
    cache.store(k, produced.0, produced.1.clone());
    produced
}

#[test]
fn repeated_request_is_served_from_cache() {
    let mut cache = Cache::new();
    let mut runs = 0usize;
    let first = exec_with_stub(
        &mut cache,
        key(ReleaseChannel::Stable, "rustc", &["-V"], &[], "abc"),
        &mut runs,
    );
    assert_eq!(runs, 1);
    let second = exec_with_stub(
        &mut cache,
        key(ReleaseChannel::Stable, "rustc", &["-V"], &[], "abc"),
        &mut runs,
    );
    assert_eq!(runs, 1, "the second identical request must not run the sandbox");
    assert_eq!(first, second, "a hit returns a byte-identical copy");
}

#[test]
fn any_field_difference_is_a_distinct_fingerprint() {
    let base = || key(ReleaseChannel::Stable, "cmd", &["a", "b"], &[("K", "V")], "in");
    assert_eq!(base(), base());

    let mut cache = Cache::new();
    let mut runs = 0usize;
    exec_with_stub(&mut cache, base(), &mut runs);
    // Each variation misses: its slot is independent of the base one.
    exec_with_stub(
        &mut cache,
        key(ReleaseChannel::Beta, "cmd", &["a", "b"], &[("K", "V")], "in"),
        &mut runs,
    );
    exec_with_stub(
        &mut cache,
        key(ReleaseChannel::Stable, "cmd2", &["a", "b"], &[("K", "V")], "in"),
        &mut runs,
    );
    exec_with_stub(
        &mut cache,
        key(ReleaseChannel::Stable, "cmd", &["b", "a"], &[("K", "V")], "in"),
        &mut runs,
    );
    exec_with_stub(
        &mut cache,
        key(ReleaseChannel::Stable, "cmd", &["a", "b"], &[("K", "W")], "in"),
        &mut runs,
    );
    exec_with_stub(
        &mut cache,
        key(ReleaseChannel::Stable, "cmd", &["a", "b"], &[("K", "V")], "in2"),
        &mut runs,
    );
    assert_eq!(runs, 6);
    // And the base entry is still there, untouched.
    exec_with_stub(&mut cache, base(), &mut runs);
    assert_eq!(runs, 6);
}

#[test]
fn argument_and_env_order_are_part_of_identity() {
    assert_ne!(
        key(ReleaseChannel::Stable, "cmd", &["a", "b"], &[], ""),
        key(ReleaseChannel::Stable, "cmd", &["b", "a"], &[], "")
    );
    assert_ne!(
        key(ReleaseChannel::Stable, "cmd", &[], &[("A", "1"), ("B", "2")], ""),
        key(ReleaseChannel::Stable, "cmd", &[], &[("B", "2"), ("A", "1")], "")
    );
}

#[test]
fn lru_bound_evicts_exactly_the_oldest() {
    let nth = |i: usize| {
        key(
            ReleaseChannel::Stable,
            "cmd",
            &[],
            &[],
            &format!("input-{}", i),
        )
    };
    let mut cache = Cache::new();
    let mut runs = 0usize;
    for i in 0..300 {
        exec_with_stub(&mut cache, nth(i), &mut runs);
    }
    assert_eq!(runs, 300);
    // The 256 most recently used fingerprints are still retrievable
    // without a fresh run; the other 44 need re-execution.
    for i in 44..300 {
        assert!(
            cache.lookup(&nth(i)).is_some(),
            "fingerprint {} should still be cached",
            i
        );
    }
    for i in 0..44 {
        assert!(
            cache.lookup(&nth(i)).is_none(),
            "fingerprint {} should have been evicted",
            i
        );
    }
}

#[test]
fn lookup_does_not_evict_but_store_does() {
    let nth = |i: usize| key(ReleaseChannel::Stable, "cmd", &[], &[], &format!("k{}", i));
    let mut cache = Cache::new();
    for i in 0..256 {
        cache.store(nth(i), ExitStatus::Exited(0), vec![]);
    }
    // Touch the oldest entry: it becomes most recently used.
    assert!(cache.lookup(&nth(0)).is_some());
    // One more store evicts the now-least-recently-used entry, which
    // is no longer entry 0 but entry 1.
    cache.store(nth(256), ExitStatus::Exited(0), vec![]);
    assert!(cache.lookup(&nth(0)).is_some());
    assert!(cache.lookup(&nth(1)).is_none());
}

#[test]
fn stored_status_and_output_come_back_unchanged() {
    let mut cache = Cache::new();
    let k = key(ReleaseChannel::Nightly, "evaluate.sh", &[], &[], "fn main() {}");
    cache.store(
        k,
        ExitStatus::Signaled(9),
        vec![0xff, b'H', b'i'],
    );
    let k2 = key(ReleaseChannel::Nightly, "evaluate.sh", &[], &[], "fn main() {}");
    let (status, out) = cache.lookup(&k2).unwrap();
    assert_eq!(status, ExitStatus::Signaled(9));
    assert!(!status.success());
    assert_eq!(out, vec![0xff, b'H', b'i']);
    assert!(ExitStatus::Exited(0).success());
    assert!(!ExitStatus::Exited(1).success());
}
