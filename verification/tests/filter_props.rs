use bloombuild::filter::{build, Filter, FilterParameters};

fn fixed_seeds() -> ((u64, u64), (u64, u64)) {
    ((0x0123456789abcdef, 0xfedcba9876543210), (0x0f1e2d3c4b5a6978, 0x1122334455667788))
}

fn scenario_params() -> FilterParameters {
    FilterParameters { bitmap_bits: 29, hash_function_count: 7 }
}

#[test]
fn no_false_negatives_fixed_seeds() {
    let params = scenario_params();
    let mut f = Filter::new_with_seeds(&params, fixed_seeds());
    f.insert("apple");
    f.insert("banana");
    f.insert("apple");
    assert!(f.contains("apple"));
    assert!(f.contains("banana"));
}

#[test]
fn no_false_negatives_random_seeds() {
    let params = scenario_params();
    let corpus: Vec<String> = vec![
        String::from("apple"),
        String::from("banana"),
        String::from("apple"),
    ];
    let f = build(&params, &corpus).expect("system entropy source failed");
    assert!(f.contains("apple"));
    assert!(f.contains("banana"));
}

#[test]
fn empty_string_is_a_valid_item() {
    let params = scenario_params();
    let mut f = Filter::new_with_seeds(&params, fixed_seeds());
    f.insert("");
    assert!(f.contains(""));
}

#[test]
fn fresh_filter_reports_nothing_present() {
    let params = scenario_params();
    let f = Filter::new_with_seeds(&params, fixed_seeds());
    assert!(!f.contains("apple"));
    assert!(!f.contains(""));
}

#[test]
fn whitespace_normalization_sets_identical_bits() {
    let params = scenario_params();
    let mut plain = Filter::new_with_seeds(&params, fixed_seeds());
    let mut noisy = Filter::new_with_seeds(&params, fixed_seeds());
    plain.insert("apple");
    noisy.insert("apple\n");
    let (plain_bytes, _) = plain.freeze_and_serialize();
    let (noisy_bytes, _) = noisy.freeze_and_serialize();
    assert_eq!(plain_bytes, noisy_bytes);

    let mut padded = Filter::new_with_seeds(&params, fixed_seeds());
    padded.insert("  apple\t \r\n");
    let (padded_bytes, _) = padded.freeze_and_serialize();
    assert_eq!(plain_bytes, padded_bytes);

    // Trimming follows Unicode whitespace, not just ASCII.
    let mut unicode_padded = Filter::new_with_seeds(&params, fixed_seeds());
    unicode_padded.insert("\u{00a0}apple\u{2028}");
    let (unicode_bytes, _) = unicode_padded.freeze_and_serialize();
    assert_eq!(plain_bytes, unicode_bytes);
    assert!(noisy.contains("apple"));
    assert!(plain.contains(" apple \n"));
}

#[test]
fn round_trip_reconstruction_preserves_membership() {
    let params = scenario_params();
    let mut f = Filter::new_with_seeds(&params, fixed_seeds());
    f.insert("apple");
    f.insert("banana");
    let (bytes, md) = f.freeze_and_serialize();
    assert_eq!(bytes.len(), 4);
    assert_eq!(md.bitmap_bits, 29);
    assert_eq!(md.hash_function_count, 7);
    assert_eq!(md.seeds, fixed_seeds());

    let g = Filter::from_parts(&bytes, md.bitmap_bits, md.hash_function_count, md.seeds);
    assert!(g.contains("apple"));
    assert!(g.contains("banana"));

    let (bytes_again, md_again) = g.freeze_and_serialize();
    assert_eq!(bytes_again, bytes);
    assert_eq!(md_again.content_digest, md.content_digest);
}

#[test]
fn scenario_corpus_sizing_and_membership() {
    // Sizing per the optimal-filter formula over the scenario corpus:
    // three lines with one duplicate, a one-percent false-positive target.
    let expected_items: usize = 3;
    let target_fp_rate: f64 = 0.01;
    let ln2 = std::f64::consts::LN_2;
    let bitmap_bits = (-(expected_items as f64) * target_fp_rate.ln() / (ln2 * ln2)).ceil();
    let bitmap_bits = bitmap_bits as u64;
    let k = ((bitmap_bits as f64) / (expected_items as f64) * ln2).round().max(1.0) as u32;
    assert_eq!(bitmap_bits, 29);
    assert_eq!(k, 7);

    let params = FilterParameters { bitmap_bits, hash_function_count: k };
    let corpus: Vec<String> = vec![
        String::from("apple"),
        String::from("banana"),
        String::from("apple"),
    ];
    let mut f = Filter::new_with_seeds(&params, fixed_seeds());
    for item in &corpus {
        f.insert(item);
    }
    assert!(f.contains("apple"));
    assert!(f.contains("banana"));

    // False positives are possible but rare: over many distinct non-member
    // strings, far fewer than one in ten may report present.
    let mut false_positives = 0usize;
    let trials = 1000usize;
    for i in 0..trials {
        if f.contains(&format!("nonmember-{}", i)) {
            false_positives += 1;
        }
    }
    assert!(false_positives < trials / 10);
}

#[test]
fn parameters_and_seed_pairs_are_reported_back() {
    let params = scenario_params();
    let f = Filter::new_with_seeds(&params, fixed_seeds());
    let reported = f.parameters();
    assert_eq!(reported.bitmap_bits, 29);
    assert_eq!(reported.hash_function_count, 7);
    assert_eq!(f.seed_pairs(), fixed_seeds());
}
