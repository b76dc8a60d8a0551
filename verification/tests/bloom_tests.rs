use community::bloom::Bloom;

#[test]
fn insert_then_contains_always_true() {
    let mut filter = Bloom::new_for_fp_rate_with_seed(1000, 10_000, "public");
    filter.insert("alice.near");
    assert!(filter.contains("alice.near"));
    for i in 0..200 {
        let name = format!("user{}.near", i);
        filter.insert(&name);
        assert!(filter.contains(&name));
        assert!(filter.contains("alice.near"));
    }
    for i in 0..200 {
        let name = format!("user{}.near", i);
        assert!(filter.contains(&name));
    }
}

#[test]
fn false_positive_rate_within_target() {
    let mut filter = Bloom::new_for_fp_rate_with_seed(1_000_000, 100_000, "public");
    for i in 0..1000 {
        filter.insert(&format!("member{}.near", i));
    }
    let mut false_positives = 0u32;
    let probes = 10_000u32;
    for i in 0..probes {
        if filter.contains(&format!("stranger{}.near", i)) {
            false_positives += 1;
        }
    }
    // Target rate 0.1 over 10,000 probes allows 1,000 positives; add a
    // tolerance of 2 percentage points.
    assert!(false_positives <= 1_200, "false positives: {}", false_positives);
}

#[test]
fn seeds_give_independent_patterns() {
    let mut public = Bloom::new_for_fp_rate_with_seed(1000, 10_000, "public");
    let mut encrypt = Bloom::new_for_fp_rate_with_seed(1000, 10_000, "encrypt");
    public.insert("alice.near");
    encrypt.insert("alice.near");
    assert!(public.contains("alice.near"));
    assert!(encrypt.contains("alice.near"));
    // Items inserted into neither filter stay absent from both.
    assert!(!public.contains("zelda.near"));
    assert!(!encrypt.contains("zelda.near"));
}
