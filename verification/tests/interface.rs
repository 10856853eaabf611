use db_interface::client::{bitmap_answer_items, object_answer_items, write_accesses};
use db_interface::{
    from_obj_decoding, from_obj_encoding, open_query, range, Bitmap, DBAnswer, DBInstruction,
    DBInterfaceError, IterStep, ManyRangeIter, Range, WriteAccess,
};

/// Runs a reading to its end, answering each query from `answers` in turn.
fn run_reading<T>(mut it: ManyRangeIter<T>, mut answers: Vec<Option<Vec<(Range, T)>>>) -> Vec<(Range, Range, T)> {
    answers.reverse();
    let mut out = Vec::new();
    loop {
        match it.next() {
            IterStep::Item(q, f, d) => out.push((q, f, d)),
            IterStep::Query(_) => it.answer_query(answers.pop().expect("a query beyond the answers given")),
            IterStep::Finished => return out,
        }
    }
}

#[test]
fn range_keeps_its_bounds() {
    let r = range(3, 9);
    assert_eq!(r.min, 3);
    assert_eq!(r.max, 9);
    assert_eq!(Range::new(5, 5), Range { min: 5, max: 5 });
}

#[test]
fn reading_tags_each_found_pair_with_its_query() {
    let q = range(124, 221);
    let it: ManyRangeIter<u64> = ManyRangeIter::new("tbl".to_string(), vec![q]);
    let out = run_reading(it, vec![Some(vec![(range(123, 124), 1), (range(125, 224), 3)])]);
    assert_eq!(out, vec![(q, range(123, 124), 1), (q, range(125, 224), 3)]);
    let stored: Vec<Range> = out.iter().map(|t| t.1).collect();
    assert_eq!(stored, vec![range(123, 124), range(125, 224)]);
}

#[test]
fn reading_asks_for_ranges_in_order() {
    let mut it: ManyRangeIter<u8> = ManyRangeIter::new("t".to_string(), vec![range(1, 2), range(7, 9)]);
    assert!(matches!(it.next(), IterStep::Query(r) if r == range(1, 2)));
    it.answer_query(Some(vec![]));
    assert!(matches!(it.next(), IterStep::Query(r) if r == range(7, 9)));
    it.answer_query(Some(vec![(range(8, 8), 42)]));
    assert!(matches!(it.next(), IterStep::Item(q, f, 42) if q == range(7, 9) && f == range(8, 8)));
    assert!(matches!(it.next(), IterStep::Finished));
    assert!(matches!(it.next(), IterStep::Finished));
}

#[test]
fn reading_over_several_ranges_concatenates() {
    let (a, b, c) = (range(0, 10), range(20, 30), range(40, 50));
    let it: ManyRangeIter<char> = ManyRangeIter::new("t".to_string(), vec![a, b, c]);
    let out = run_reading(
        it,
        vec![
            Some(vec![(range(1, 1), 'x'), (range(5, 12), 'y')]),
            Some(vec![]),
            Some(vec![(range(45, 60), 'z')]),
        ],
    );
    assert_eq!(out, vec![(a, range(1, 1), 'x'), (a, range(5, 12), 'y'), (c, range(45, 60), 'z')]);
}

#[test]
fn reading_ends_at_a_query_with_nothing_to_look_in() {
    let (a, b) = (range(0, 10), range(20, 30));
    let mut it: ManyRangeIter<u8> = ManyRangeIter::new("t".to_string(), vec![a, b]);
    assert!(matches!(it.next(), IterStep::Query(r) if r == a));
    it.answer_query(None);
    assert!(matches!(it.next(), IterStep::Finished));
}

#[test]
fn reading_goes_on_after_a_query_with_nothing_to_look_in() {
    let (a, b) = (range(0, 10), range(20, 30));
    let mut it: ManyRangeIter<u8> = ManyRangeIter::new("t".to_string(), vec![a, b]);
    assert!(matches!(it.next(), IterStep::Query(r) if r == a));
    it.answer_query(None);
    assert!(matches!(it.next(), IterStep::Finished));
    assert!(matches!(it.next(), IterStep::Query(r) if r == b));
    it.answer_query(Some(vec![(range(25, 26), 7)]));
    assert!(matches!(it.next(), IterStep::Item(q, f, 7) if q == b && f == range(25, 26)));
    assert!(matches!(it.next(), IterStep::Finished));
    assert!(matches!(it.next(), IterStep::Finished));
}

#[test]
fn reading_over_no_ranges_is_empty() {
    let it: ManyRangeIter<u8> = ManyRangeIter::new("t".to_string(), vec![]);
    assert_eq!(run_reading(it, vec![]), vec![]);
}

#[test]
fn reading_names_its_table() {
    let it: ManyRangeIter<u8> = ManyRangeIter::new("objects".to_string(), vec![]);
    assert_eq!(it.table(), "objects");
}

#[test]
fn open_query_refuses_a_missing_table() {
    let r = open_query::<u8>(&"tbl".to_string(), false, vec![range(1, 2)]);
    assert_eq!(r.err(), Some(DBInterfaceError::TableNotFound("tbl".to_string())));
}

#[test]
fn open_query_starts_a_reading_of_an_existing_table() {
    let it = open_query::<u8>(&"tbl".to_string(), true, vec![range(1, 2)]).ok().unwrap();
    assert_eq!(it.table(), "tbl");
    assert_eq!(run_reading(it, vec![Some(vec![(range(2, 3), 7)])]), vec![(range(1, 2), range(2, 3), 7)]);
}

#[test]
fn decoding_errors_name_the_range() {
    let ok: Result<u64, String> = Ok(5);
    assert_eq!(from_obj_decoding(range(1, 2), ok), Ok(5));
    let bad: Result<u64, String> = Err("truncated".to_string());
    assert_eq!(
        from_obj_decoding(range(1, 2), bad),
        Err(DBInterfaceError::ObjectDeserialization(range(1, 2), "truncated".to_string()))
    );
}

#[test]
fn encoding_errors_name_the_range() {
    let ok: Result<Vec<u8>, String> = Ok(vec![1]);
    assert_eq!(from_obj_encoding(range(3, 4), ok), Ok(vec![1]));
    let bad: Result<Vec<u8>, String> = Err("too deep".to_string());
    assert_eq!(
        from_obj_encoding(range(3, 4), bad),
        Err(DBInterfaceError::ObjectSerialization(range(3, 4), "too deep".to_string()))
    );
}

#[test]
fn error_descriptions() {
    assert_eq!(DBInterfaceError::DB("x".into()).description(), "Error in DB");
    assert_eq!(DBInterfaceError::TableNotFound("x".into()).description(), "No such table");
    assert_eq!(DBInterfaceError::NetworkEncodingError("x".into()).description(), "Failed to encode network command");
    assert_eq!(DBInterfaceError::ObjectDeserialization(range(0, 0), "x".into()).description(), "Failed to deserialize object");
    assert_eq!(DBInterfaceError::ObjectSerialization(range(0, 0), "x".into()).description(), "Failed To serialize object");
    assert_eq!(DBInterfaceError::UnexpectedResponse("x".into()).description(), "Got unexpected Response from Server");
}

#[test]
fn write_accesses_keep_order() {
    let w = write_accesses(vec![(range(1, 2), vec![9]), (range(0, 0), vec![])]);
    assert_eq!(w, vec![WriteAccess::new(range(1, 2), vec![9]), WriteAccess { rng: range(0, 0), data: vec![] }]);
}

#[test]
fn single_operations_send_their_batched_instruction() {
    let t = "tbl".to_string();
    let r = range(10, 20);
    assert_eq!(DBInstruction::bin_put(&t, r, vec![1, 2]), DBInstruction::bin_put_many(&t, vec![(r, vec![1, 2])]));
    assert_eq!(DBInstruction::bin_get(&t, r), DBInstruction::bin_get_many(&t, vec![r]));
    assert_eq!(DBInstruction::bin_del(&t, r), DBInstruction::bin_del_many(&t, vec![r]));
    assert_eq!(DBInstruction::obj_put_raw(&t, r, vec![3]), DBInstruction::obj_put_raw_many(&t, vec![(r, vec![3])]));
    assert_eq!(DBInstruction::obj_get(&t, r), DBInstruction::obj_get_many(&t, vec![r]));
    assert_eq!(DBInstruction::obj_del(&t, r), DBInstruction::obj_del_many(&t, vec![r]));
    assert_eq!(
        DBInstruction::obj_del_intersecting(&t, r),
        DBInstruction::obj_del_intersecting_many(&t, vec![r])
    );
}

#[test]
fn instructions_carry_their_arguments() {
    let t = "tbl".to_string();
    let r = range(10, 20);
    assert_eq!(DBInstruction::saveas(&"/tmp/db".to_string()), DBInstruction::Save("/tmp/db".to_string()));
    assert_eq!(
        DBInstruction::bin_put(&t, r, vec![1, 2]),
        DBInstruction::BPut(t.clone(), vec![WriteAccess { rng: r, data: vec![1, 2] }])
    );
    assert_eq!(DBInstruction::bin_get(&t, r), DBInstruction::BGet(t.clone(), vec![r]));
    assert_eq!(DBInstruction::bin_del(&t, r), DBInstruction::BDel(t.clone(), vec![r]));
    assert_eq!(
        DBInstruction::obj_put_raw(&t, r, vec![3]),
        DBInstruction::OPut(t.clone(), vec![WriteAccess { rng: r, data: vec![3] }])
    );
    assert_eq!(DBInstruction::obj_get(&t, r), DBInstruction::OGet(t.clone(), vec![r]));
    assert_eq!(DBInstruction::obj_del(&t, r), DBInstruction::ODel(t.clone(), vec![r]));
    assert_eq!(DBInstruction::obj_del_intersecting(&t, r), DBInstruction::ODelAll(t.clone(), vec![r]));
}

#[test]
fn bitmap_answer_is_flattened() {
    let (q1, q2) = (range(0, 15), range(100, 115));
    let bm = |b: u8| Bitmap { entry_size: 1, data: vec![b; 4] };
    let answer = DBAnswer::Bitmap(vec![
        (q1, vec![(range(0, 3), bm(1)), (range(8, 11), bm(2))]),
        (q2, vec![]),
        (q1, vec![(range(12, 15), bm(3))]),
    ]);
    let items = bitmap_answer_items(answer, "unused").ok().unwrap();
    assert_eq!(
        items,
        vec![(q1, range(0, 3), bm(1)), (q1, range(8, 11), bm(2)), (q1, range(12, 15), bm(3))]
    );
}

#[test]
fn object_answer_is_flattened() {
    let q = range(124, 221);
    let answer = DBAnswer::Tags(vec![(q, vec![(range(123, 124), vec![1]), (range(125, 224), vec![3])])]);
    let items = object_answer_items(answer, "unused").ok().unwrap();
    assert_eq!(items, vec![(q, range(123, 124), vec![1]), (q, range(125, 224), vec![3])]);
}

#[test]
fn unexpected_answers_are_refused() {
    let r = bitmap_answer_items(DBAnswer::Other, "Done");
    assert_eq!(r.err(), Some(DBInterfaceError::UnexpectedResponse("Expected bitmap, got Done".to_string())));
    let tags = DBAnswer::Tags(vec![]);
    let r = bitmap_answer_items(tags, "Tags([])");
    assert_eq!(r.err(), Some(DBInterfaceError::UnexpectedResponse("Expected bitmap, got Tags([])".to_string())));
    let bits = DBAnswer::Bitmap(vec![]);
    let r = object_answer_items(bits, "Bitmap([])");
    assert_eq!(r.err(), Some(DBInterfaceError::UnexpectedResponse("Expected object, got Bitmap([])".to_string())));
}

#[test]
fn local_and_remote_reads_agree() {
    let (a, b) = (range(0, 10), range(20, 30));
    let found_a = vec![(range(1, 1), vec![1u8]), (range(9, 25), vec![2])];
    let found_b = vec![(range(9, 25), vec![2u8])];
    let it: ManyRangeIter<Vec<u8>> = ManyRangeIter::new("t".to_string(), vec![a, b]);
    let local = run_reading(it, vec![Some(found_a.clone()), Some(found_b.clone())]);
    let remote = object_answer_items(DBAnswer::Tags(vec![(a, found_a), (b, found_b)]), "").ok().unwrap();
    assert_eq!(local, remote);
}

#[test]
fn reading_ends_within_its_call_bound() {
    let ranges = vec![range(0, 1), range(2, 3), range(4, 5)];
    let mut answers = vec![Some(vec![(range(0, 0), 1u8), (range(1, 1), 2)]), Some(vec![]), Some(vec![(range(5, 9), 3)])];
    answers.reverse();
    let mut it: ManyRangeIter<u8> = ManyRangeIter::new("t".to_string(), ranges);
    let mut calls = 0;
    loop {
        calls += 1;
        match it.next() {
            IterStep::Item(..) => {}
            IterStep::Query(_) => it.answer_query(answers.pop().unwrap()),
            IterStep::Finished => break,
        }
    }
    assert_eq!(calls, 3 + 3 + 1);
}
