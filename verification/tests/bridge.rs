use imagebridge::hooks::{
    word_fn, CallerFns, WordFns, WordLog, WORD_FN_ADD, WORD_FN_XOR, WORD_FOLD_ADD, WORD_FOLD_MAX,
    WORD_OPT_BELOW, WORD_OPT_STOP_AT, WORD_PRED_EVEN, WORD_PRED_LT, WORD_SCAN_ADD,
    WORD_SCAN_STOP_AT, WORD_SEQ_EMPTY, WORD_SEQ_RUN,
};
use imagebridge::item::Item;
use imagebridge::iter::{
    iter_all, iter_any, iter_by_ref, iter_chain, iter_cmp, iter_collect, iter_count, iter_enumerate,
    iter_eq, iter_filter, iter_filter_map, iter_find, iter_find_map, iter_fold, iter_for_each,
    iter_fuse, iter_ge, iter_gt, iter_inspect, iter_last, iter_le, iter_lt, iter_map,
    iter_map_while, iter_max, iter_min, iter_ne, iter_next, iter_nth, iter_partial_cmp,
    iter_peekable, iter_position, iter_reduce, iter_scan, iter_size_hint, iter_skip,
    iter_skip_while, iter_step_by, iter_take, iter_take_while, iter_zip, make_raw_iterator,
    Ordering, RawIterator,
};

fn words(values: &[u64]) -> RawIterator {
    let mut items: Vec<Item> = Vec::new();
    for v in values {
        items.push(Item::Word(*v));
    }
    make_raw_iterator::<WordFns>(items)
}

fn drain(mut s: RawIterator) -> Vec<Item> {
    let h = WordFns;
    let mut o = WordLog::new();
    let mut out = Vec::new();
    loop {
        match iter_next(&mut s, &h, &mut o) {
            Some(x) => out.push(x),
            None => return out,
        }
    }
}

fn expect_words(items: Vec<Item>, expected: &[u64]) {
    let mut want: Vec<Item> = Vec::new();
    for v in expected {
        want.push(Item::Word(*v));
    }
    assert_eq!(items, want);
}

#[test]
fn source_yields_in_order() {
    let s = words(&[3, 1, 4, 1, 5]);
    expect_words(drain(s), &[3, 1, 4, 1, 5]);
}

#[test]
fn empty_source_is_empty() {
    let s = words(&[]);
    assert_eq!(drain(s), Vec::<Item>::new());
}

#[test]
fn exhaustion_is_permanent() {
    let h = WordFns;
    let mut s = words(&[7]);
    assert_eq!(iter_next(&mut s, &h, &mut WordLog::new()), Some(Item::Word(7)));
    assert_eq!(iter_next(&mut s, &h, &mut WordLog::new()), None);
    assert_eq!(iter_next(&mut s, &h, &mut WordLog::new()), None);
    assert_eq!(iter_next(&mut s, &h, &mut WordLog::new()), None);
}

#[test]
fn collect_reports_cardinality() {
    let h = WordFns;
    let mut s = words(&[10, 20, 30, 40]);
    let out = iter_collect(&mut s, &h, &mut WordLog::new());
    assert_eq!(s.size, 4);
    expect_words(out, &[10, 20, 30, 40]);
    assert_eq!(iter_next(&mut s, &h, &mut WordLog::new()), None);
}

#[test]
fn collect_matches_repeated_next() {
    let h = WordFns;
    let mut a = words(&[5, 6, 7]);
    let collected = iter_collect(&mut a, &h, &mut WordLog::new());
    let b = words(&[5, 6, 7]);
    assert_eq!(collected, drain(b));
}

#[test]
fn map_applies_caller_function() {
    let s = words(&[1, 2, 3]);
    let f = word_fn(WORD_FN_ADD, 5);
    expect_words(drain(iter_map::<WordFns>(s, f)), &[6, 7, 8]);
}

#[test]
fn map_xor() {
    let s = words(&[0b1010, 0b0110]);
    let f = word_fn(WORD_FN_XOR, 0b0011);
    expect_words(drain(iter_map::<WordFns>(s, f)), &[0b1001, 0b0101]);
}

#[test]
fn filter_keeps_accepted_items() {
    let s = words(&[1, 8, 2, 9, 3]);
    let f = word_fn(WORD_PRED_LT, 5);
    expect_words(drain(iter_filter::<WordFns>(s, f)), &[1, 2, 3]);
}

#[test]
fn filter_even() {
    let s = words(&[1, 2, 3, 4, 5, 6]);
    let f = word_fn(WORD_PRED_EVEN, 0);
    expect_words(drain(iter_filter::<WordFns>(s, f)), &[2, 4, 6]);
}

#[test]
fn map_while_stops_at_first_declined_item() {
    // The caller function declines 3; 4 is never part of the output.
    let s = words(&[1, 2, 3, 4]);
    let f = word_fn(WORD_OPT_STOP_AT, 3);
    expect_words(drain(iter_map_while::<WordFns>(s, f)), &[11, 12]);
}

#[test]
fn filter_map_skips_declined_items_and_continues() {
    // The same function: 3 is skipped, but 4 still comes through.
    let s = words(&[1, 2, 3, 4]);
    let f = word_fn(WORD_OPT_STOP_AT, 3);
    let out = drain(iter_filter_map::<WordFns>(s, f));
    assert_eq!(out.len(), 3);
    expect_words(out, &[11, 12, 14]);
}

#[test]
fn chain_counts_both_operands() {
    let h = WordFns;
    let a = words(&[10, 20]);
    let b = words(&[30, 40, 50]);
    let c = iter_chain::<WordFns>(a, b);
    assert_eq!(iter_count(c, &h, &mut WordLog::new()), 5);
}

#[test]
fn chain_nth_crosses_the_seam() {
    let h = WordFns;
    let a = words(&[10, 20]);
    let b = words(&[30, 40, 50]);
    let mut c = iter_chain::<WordFns>(a, b);
    assert_eq!(iter_nth(&mut c, 1, &h, &mut WordLog::new()), Some(Item::Word(20)));

    let a2 = words(&[10, 20]);
    let b2 = words(&[30, 40, 50]);
    let mut c2 = iter_chain::<WordFns>(a2, b2);
    assert_eq!(iter_nth(&mut c2, 2, &h, &mut WordLog::new()), Some(Item::Word(30)));
}

#[test]
fn zip_is_bounded_by_the_shorter_operand() {
    let a = words(&[1, 2, 3]);
    let b = words(&[4, 5, 6, 7, 8]);
    let z = iter_zip::<WordFns>(a, b);
    let out = drain(z);
    assert_eq!(out.len(), 3);
    assert_eq!(
        out[0],
        Item::Pair(Box::new(Item::Word(1)), Box::new(Item::Word(4)))
    );
    assert_eq!(
        out[2],
        Item::Pair(Box::new(Item::Word(3)), Box::new(Item::Word(6)))
    );
}

#[test]
fn zip_shorter_on_the_right() {
    let h = WordFns;
    let a = words(&[1, 2, 3, 4, 5]);
    let b = words(&[9]);
    assert_eq!(iter_count(iter_zip::<WordFns>(a, b), &h, &mut WordLog::new()), 1);
}

#[test]
fn cmp_prefix_is_less() {
    let h = WordFns;
    let a = words(&[1, 2, 3]);
    let b = words(&[1, 2, 3, 4]);
    assert_eq!(iter_cmp(a, b, &h, &mut WordLog::new()), Ordering::ORDERING_LESS);
}

#[test]
fn cmp_first_difference_decides() {
    let h = WordFns;
    let a = words(&[1, 3]);
    let b = words(&[1, 2]);
    assert_eq!(iter_cmp(a, b, &h, &mut WordLog::new()), Ordering::ORDERING_GREATER);
}

#[test]
fn cmp_equal_sequences() {
    let h = WordFns;
    let a = words(&[4, 4]);
    let b = words(&[4, 4]);
    assert_eq!(iter_cmp(a, b, &h, &mut WordLog::new()), Ordering::ORDERING_EQUAL);
}

#[test]
fn partial_cmp_always_answers() {
    let h = WordFns;
    let a = words(&[2]);
    let b = words(&[1, 9]);
    assert_eq!(iter_partial_cmp(a, b, &h, &mut WordLog::new()), Some(Ordering::ORDERING_GREATER));
}

#[test]
fn eq_ne_lt_le_gt_ge() {
    let h = WordFns;
    assert!(iter_eq(words(&[1, 2]), words(&[1, 2]), &h, &mut WordLog::new()));
    assert!(iter_ne(words(&[1, 2]), words(&[1, 3]), &h, &mut WordLog::new()));
    assert!(iter_lt(words(&[1, 2]), words(&[1, 2, 0]), &h, &mut WordLog::new()));
    assert!(iter_le(words(&[1, 2]), words(&[1, 2]), &h, &mut WordLog::new()));
    assert!(iter_gt(words(&[2]), words(&[1, 9, 9]), &h, &mut WordLog::new()));
    assert!(iter_ge(words(&[]), words(&[]), &h, &mut WordLog::new()));
}

#[test]
fn enumerate_attaches_positions() {
    let s = words(&[7, 8]);
    let out = drain(iter_enumerate::<WordFns>(s));
    assert_eq!(out[0], Item::Indexed(0, Box::new(Item::Word(7))));
    assert_eq!(out[1], Item::Indexed(1, Box::new(Item::Word(8))));
}

#[test]
fn skip_drops_a_prefix() {
    let s = words(&[1, 2, 3, 4]);
    expect_words(drain(iter_skip::<WordFns>(s, 2)), &[3, 4]);
}

#[test]
fn skip_past_the_end_is_empty() {
    let s = words(&[1, 2]);
    assert_eq!(drain(iter_skip::<WordFns>(s, 10)), Vec::<Item>::new());
}

#[test]
fn take_keeps_a_prefix() {
    let s = words(&[1, 2, 3, 4]);
    expect_words(drain(iter_take::<WordFns>(s, 2)), &[1, 2]);
}

#[test]
fn take_more_than_available() {
    let s = words(&[1, 2]);
    expect_words(drain(iter_take::<WordFns>(s, 10)), &[1, 2]);
}

#[test]
fn step_by_keeps_every_nth() {
    let s = words(&[0, 1, 2, 3, 4, 5, 6, 7, 8, 9]);
    expect_words(drain(iter_step_by::<WordFns>(s, 3)), &[0, 3, 6, 9]);
}

#[test]
fn step_by_one_keeps_everything() {
    let s = words(&[5, 6, 7]);
    expect_words(drain(iter_step_by::<WordFns>(s, 1)), &[5, 6, 7]);
}

#[test]
fn skip_while_drops_the_accepted_prefix() {
    let s = words(&[1, 2, 9, 1, 2]);
    let f = word_fn(WORD_PRED_LT, 5);
    expect_words(drain(iter_skip_while::<WordFns>(s, f)), &[9, 1, 2]);
}

#[test]
fn take_while_keeps_the_accepted_prefix() {
    let s = words(&[1, 2, 9, 1, 2]);
    let f = word_fn(WORD_PRED_LT, 5);
    expect_words(drain(iter_take_while::<WordFns>(s, f)), &[1, 2]);
}

#[test]
fn scan_threads_state() {
    let s = words(&[1, 2, 3]);
    let f = word_fn(WORD_SCAN_ADD, 0);
    // The state word stays 100 for every call; the bridge never rewrites it.
    expect_words(
        drain(iter_scan::<WordFns>(s, Item::Word(100), f)),
        &[101, 102, 103],
    );
}

#[test]
fn scan_stops_at_declined_item() {
    let s = words(&[1, 2, 3, 4]);
    let f = word_fn(WORD_SCAN_STOP_AT, 3);
    expect_words(
        drain(iter_scan::<WordFns>(s, Item::Word(0), f)),
        &[1, 2],
    );
}

#[test]
fn flat_map_splices_expansions() {
    let s = words(&[10, 20]);
    let f = word_fn(WORD_SEQ_RUN, 3);
    expect_words(
        drain(iter_flat_map_helper(s, f)),
        &[10, 11, 12, 20, 21, 22],
    );
}

fn iter_flat_map_helper(s: RawIterator, f: u64) -> RawIterator {
    imagebridge::iter::iter_flat_map::<WordFns>(s, f)
}

#[test]
fn flat_map_empty_expansions() {
    let s = words(&[1, 2, 3]);
    let f = word_fn(WORD_SEQ_EMPTY, 0);
    assert_eq!(drain(iter_flat_map_helper(s, f)), Vec::<Item>::new());
}

#[test]
fn fuse_and_peekable_and_by_ref_pass_items_through() {
    let out = drain(iter_fuse::<WordFns>(words(&[1, 2])));
    expect_words(out, &[1, 2]);
    let out = drain(iter_peekable::<WordFns>(words(&[3])));
    expect_words(out, &[3]);
    let out = drain(iter_by_ref::<WordFns>(words(&[4, 5])));
    expect_words(out, &[4, 5]);
}

#[test]
fn inspect_passes_items_through() {
    let f = word_fn(WORD_FN_ADD, 99);
    let out = drain(iter_inspect::<WordFns>(words(&[6, 7]), f));
    expect_words(out, &[6, 7]);
}

#[test]
fn for_each_drains_the_handle() {
    let h = WordFns;
    let mut s = words(&[1, 2, 3]);
    iter_for_each(&mut s, word_fn(WORD_FN_ADD, 0), &h, &mut WordLog::new());
    assert_eq!(iter_next(&mut s, &h, &mut WordLog::new()), None);
}

#[test]
fn count_and_last() {
    let h = WordFns;
    assert_eq!(iter_count(words(&[9, 9, 9]), &h, &mut WordLog::new()), 3);
    assert_eq!(iter_count(words(&[]), &h, &mut WordLog::new()), 0);
    assert_eq!(iter_last(words(&[1, 2, 3]), &h, &mut WordLog::new()), Some(Item::Word(3)));
    assert_eq!(iter_last(words(&[]), &h, &mut WordLog::new()), None);
}

#[test]
fn nth_consumes_up_to_the_answer() {
    let h = WordFns;
    let mut s = words(&[5, 6, 7, 8]);
    assert_eq!(iter_nth(&mut s, 1, &h, &mut WordLog::new()), Some(Item::Word(6)));
    assert_eq!(iter_next(&mut s, &h, &mut WordLog::new()), Some(Item::Word(7)));
    assert_eq!(iter_nth(&mut s, 5, &h, &mut WordLog::new()), None);
}

#[test]
fn fold_runs_left_to_right() {
    let h = WordFns;
    let s = words(&[1, 2, 3]);
    assert_eq!(
        iter_fold(s, Item::Word(10), word_fn(WORD_FOLD_ADD, 0), &h, &mut WordLog::new()),
        Item::Word(16)
    );
}

#[test]
fn reduce_uses_the_first_item_as_seed() {
    let h = WordFns;
    let s = words(&[4, 9, 2]);
    assert_eq!(
        iter_reduce(s, word_fn(WORD_FOLD_MAX, 0), &h, &mut WordLog::new()),
        Some(Item::Word(9))
    );
    assert_eq!(iter_reduce(words(&[]), word_fn(WORD_FOLD_MAX, 0), &h, &mut WordLog::new()), None);
}

#[test]
fn all_and_any() {
    let h = WordFns;
    let f = word_fn(WORD_PRED_LT, 10);
    assert!(iter_all(words(&[1, 2, 3]), f, &h, &mut WordLog::new()));
    assert!(!iter_all(words(&[1, 20, 3]), f, &h, &mut WordLog::new()));
    assert!(iter_all(words(&[]), f, &h, &mut WordLog::new()));
    assert!(iter_any(words(&[50, 2]), f, &h, &mut WordLog::new()));
    assert!(!iter_any(words(&[50, 60]), f, &h, &mut WordLog::new()));
    assert!(!iter_any(words(&[]), f, &h, &mut WordLog::new()));
}

#[test]
fn find_and_find_map_and_position() {
    let h = WordFns;
    let lt5 = word_fn(WORD_PRED_LT, 5);
    assert_eq!(iter_find(words(&[9, 3, 1]), lt5, &h, &mut WordLog::new()), Some(Item::Word(3)));
    assert_eq!(iter_find(words(&[9, 8]), lt5, &h, &mut WordLog::new()), None);
    let below = word_fn(WORD_OPT_BELOW, 5);
    assert_eq!(
        iter_find_map(words(&[9, 3, 1]), below, &h, &mut WordLog::new()),
        Some(Item::Word(3))
    );
    assert_eq!(iter_position(words(&[9, 3, 1]), lt5, &h, &mut WordLog::new()), Some(1));
    assert_eq!(iter_position(words(&[9, 8]), lt5, &h, &mut WordLog::new()), None);
}

#[test]
fn max_and_min() {
    let h = WordFns;
    assert_eq!(iter_max(words(&[3, 9, 1]), &h, &mut WordLog::new()), Some(Item::Word(9)));
    assert_eq!(iter_min(words(&[3, 9, 1]), &h, &mut WordLog::new()), Some(Item::Word(1)));
    assert_eq!(iter_max(words(&[]), &h, &mut WordLog::new()), None);
    assert_eq!(iter_min(words(&[]), &h, &mut WordLog::new()), None);
}

#[test]
fn size_hint_is_exact_for_sources() {
    let s = words(&[1, 2, 3]);
    let hint = iter_size_hint::<WordFns>(&s);
    assert_eq!(hint.lhs, 3);
    assert_eq!(hint.rhs, Some(3));
}

#[test]
fn size_hint_bounds_filters_and_chains() {
    let f = word_fn(WORD_PRED_EVEN, 0);
    let s = iter_filter::<WordFns>(words(&[1, 2, 3]), f);
    let hint = iter_size_hint::<WordFns>(&s);
    assert_eq!(hint.lhs, 0);
    assert_eq!(hint.rhs, Some(3));

    let c = iter_chain::<WordFns>(words(&[1]), words(&[2, 3]));
    let hint = iter_size_hint::<WordFns>(&c);
    assert_eq!(hint.lhs, 3);
    assert_eq!(hint.rhs, Some(3));

    let fm = iter_flat_map_helper(words(&[1]), word_fn(WORD_SEQ_RUN, 4));
    let hint = iter_size_hint::<WordFns>(&fm);
    assert_eq!(hint.lhs, 0);
    assert_eq!(hint.rhs, None);
}

#[test]
fn composed_pipeline_matches_static_equivalent() {
    // map(+1) . filter(even) . take(3) over 0..10, written with std
    // iterators on one side and the erased bridge on the other.
    let expected: Vec<u64> = (0u64..10)
        .map(|x| x + 1)
        .filter(|x| x % 2 == 0)
        .take(3)
        .collect();
    let src: Vec<u64> = (0u64..10).collect();
    let s = words(&src);
    let s = iter_map::<WordFns>(s, word_fn(WORD_FN_ADD, 1));
    let s = iter_filter::<WordFns>(s, word_fn(WORD_PRED_EVEN, 0));
    let s = iter_take::<WordFns>(s, 3);
    expect_words(drain(s), &expected);
}

#[test]
fn ordering_from_std() {
    assert_eq!(
        Ordering::from_std(std::cmp::Ordering::Less),
        Ordering::ORDERING_LESS
    );
    assert_eq!(
        Ordering::from_std(std::cmp::Ordering::Equal),
        Ordering::ORDERING_EQUAL
    );
    assert_eq!(
        Ordering::from_std(std::cmp::Ordering::Greater),
        Ordering::ORDERING_GREATER
    );
}

#[test]
fn caller_table_answers_directly() {
    let h = WordFns;
    assert_eq!(
        h.call_map(word_fn(WORD_FN_ADD, 5), Item::Word(1)),
        Item::Word(6)
    );
    assert!(h.call_pred(word_fn(WORD_PRED_LT, 5), &Item::Word(4)));
    assert_eq!(h.call_opt(word_fn(WORD_OPT_STOP_AT, 3), Item::Word(3)), None);
    assert_eq!(
        h.call_opt(word_fn(WORD_OPT_STOP_AT, 3), Item::Word(4)),
        Some(Item::Word(14))
    );
    assert_eq!(
        h.call_fold(word_fn(WORD_FOLD_ADD, 0), Item::Word(2), Item::Word(3)),
        Item::Word(5)
    );
    let expansion = h.call_seq(word_fn(WORD_SEQ_RUN, 2), Item::Word(7));
    assert_eq!(expansion, vec![Item::Word(7), Item::Word(8)]);
}

#[test]
fn inspect_hands_each_item_to_the_observer() {
    // Driving an inspect pipeline shows every yielded item to the
    // caller's observation function, in order.
    let s = words(&[5, 6, 7]);
    let f = word_fn(3, 40);
    let mut t = iter_inspect::<WordFns>(s, f);
    let h = WordFns;
    let mut o = WordLog::new();
    let mut out = Vec::new();
    loop {
        match iter_next(&mut t, &h, &mut o) {
            Some(x) => out.push(x),
            None => break,
        }
    }
    expect_words(out, &[5, 6, 7]);
    assert_eq!(o.seen, vec![5, 6, 7]);
}

#[test]
fn inspect_observes_inside_a_longer_pipeline() {
    // The observation happens where the inspect adapter sits: before the
    // later mapping is applied.
    let s = words(&[1, 2]);
    let t = iter_inspect::<WordFns>(s, word_fn(3, 40));
    let m = iter_map::<WordFns>(t, word_fn(WORD_FN_ADD, 10));
    let h = WordFns;
    let mut o = WordLog::new();
    let mut m = m;
    let mut out = Vec::new();
    loop {
        match iter_next(&mut m, &h, &mut o) {
            Some(x) => out.push(x),
            None => break,
        }
    }
    expect_words(out, &[11, 12]);
    assert_eq!(o.seen, vec![1, 2]);
}

#[test]
fn for_each_hands_every_item_to_the_observer() {
    let h = WordFns;
    let mut s = words(&[9, 8, 7]);
    let mut o = WordLog::new();
    iter_for_each(&mut s, word_fn(3, 40), &h, &mut o);
    assert_eq!(o.seen, vec![9, 8, 7]);
    assert_eq!(iter_next(&mut s, &h, &mut o), None);
}

#[test]
fn fresh_handles_report_a_zero_size_word() {
    let s = words(&[1, 2]);
    assert_eq!(s.size, 0);
    let c = iter_chain::<WordFns>(words(&[1]), words(&[2]));
    assert_eq!(c.size, 0);
    let m = iter_map::<WordFns>(words(&[3]), word_fn(WORD_FN_ADD, 1));
    assert_eq!(m.size, 0);
}
