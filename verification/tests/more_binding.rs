use flecs_ecs::c_string::c_string_text;
use flecs_ecs::c_types::{FilterDescT, IterT, OperKind, TermT, NULL};
use flecs_ecs::iterable::{
    components_distinct, tuples_of_block, ElementRef, Iterable, TupleForm, TupleShape, Wrapper,
};

#[test]
fn distinct_components_are_told_from_repeated_ones() {
    assert!(components_distinct(&[]));
    assert!(components_distinct(&[5]));
    assert!(components_distinct(&[5, 6, 7]));
    assert!(!components_distinct(&[5, 5]));
    assert!(!components_distinct(&[5, 6, 5]));
    assert!(!components_distinct(&[1, 2, 3, 4, 5, 6, 7, 8, 9, 10, 11, 11]));
    assert!(components_distinct(&[1, 2, 3, 4, 5, 6, 7, 8, 9, 10, 11, 12]));
}

#[test]
fn gathered_addresses_must_cover_required_members() {
    assert!(TupleShape::<2, 0b10>::has_required_components(&vec![4, NULL]));
    assert!(TupleShape::<2, 0b10>::has_required_components(&vec![4, 8]));
    assert!(!TupleShape::<2, 0b10>::has_required_components(&vec![NULL, 8]));
    assert!(!TupleShape::<2, 0b00>::has_required_components(&vec![4, NULL]));
    assert!(TupleShape::<2, 0b11>::has_required_components(&vec![NULL, NULL]));
    assert!(!TupleShape::<2, 0b11>::has_required_components(&vec![4]));
    assert!(!TupleShape::<2, 0b11>::has_required_components(&vec![4, 5, 6]));
    assert!(TupleShape::<0, 0>::has_required_components(&vec![]));
    assert!(<() as Iterable>::has_required_components(&[]));
}

#[test]
fn row_step_takes_the_fast_path_only_where_nothing_is_shared() {
    let owned = IterT { count: 3, ptrs: vec![10, 20], sources: Some(vec![0, 0]), group_id: 0 };
    let data = TupleShape::<2, 0>::get_array_ptrs_of_components(&owned);
    assert!(!data.is_any_array_a_ref);
    assert_eq!(
        data.tuple_at(2),
        vec![Some(ElementRef { ptr: 10, index: 2 }), Some(ElementRef { ptr: 20, index: 2 })]
    );
    let shared = IterT { count: 3, ptrs: vec![10, 20], sources: Some(vec![0, 9]), group_id: 0 };
    let data = TupleShape::<2, 0>::get_array_ptrs_of_components(&shared);
    assert!(data.is_any_array_a_ref);
    assert_eq!(
        data.tuple_at(2),
        vec![Some(ElementRef { ptr: 10, index: 2 }), Some(ElementRef { ptr: 20, index: 0 })]
    );
}

#[test]
fn every_pattern_of_three_members_keeps_the_declared_order() {
    let ptrs = vec![NULL, NULL, NULL];
    let flags = vec![false, false, false];
    let patterns: [(Vec<Option<ElementRef>>, [bool; 3]); 4] = [
        (TupleShape::<3, 0b111>::get_tuple_with_ref(&ptrs, &flags, 0), [true, true, true]),
        (
            TupleShape::<3, 0b111>::get_tuple_with_ref(&vec![1, NULL, 3], &flags, 4),
            [false, true, false],
        ),
        (
            TupleShape::<3, 0b010>::get_tuple_with_ref(&vec![1, NULL, 3], &flags, 4),
            [false, true, false],
        ),
        (
            TupleShape::<3, 0b101>::get_tuple_with_ref(&vec![NULL, 2, NULL], &flags, 4),
            [true, false, true],
        ),
    ];
    for (tuple, absent) in patterns {
        assert_eq!(tuple.len(), 3);
        for i in 0..3 {
            assert_eq!(tuple[i].is_none(), absent[i]);
        }
    }
    assert_eq!(
        TupleShape::<3, 0b010>::get_tuple_with_ref(&vec![1, 2, 3], &vec![true, false, true], 4),
        vec![
            Some(ElementRef { ptr: 1, index: 0 }),
            Some(ElementRef { ptr: 2, index: 4 }),
            Some(ElementRef { ptr: 3, index: 0 }),
        ]
    );
}

#[test]
fn member_forms_say_whether_they_are_optional() {
    assert!(!<Wrapper<u8> as TupleForm<u8, u8>>::IS_OPTION);
    assert!(<Wrapper<Option<u8>> as TupleForm<Option<u8>, u8>>::IS_OPTION);
    assert!(!<Wrapper<Option<u8>> as TupleForm<Option<u8>, Option<u8>>>::IS_OPTION);
}

#[test]
fn operator_numbers_decode_to_their_operators() {
    let kinds = [
        OperKind::And,
        OperKind::Or,
        OperKind::Not,
        OperKind::Optional,
        OperKind::AndFrom,
        OperKind::OrFrom,
        OperKind::NotFrom,
    ];
    for kind in kinds {
        assert_eq!(OperKind::from_code(kind.code()), Some(kind));
    }
    assert_eq!(OperKind::from_code(3), Some(OperKind::Optional));
    assert_eq!(OperKind::from_code(-1), None);
    assert_eq!(OperKind::from_code(7), None);
}

#[test]
fn text_of_a_string_of_the_engine() {
    assert_eq!(c_string_text(b"Position"), "Position");
    assert_eq!(c_string_text(b""), "");
    assert_eq!(c_string_text("Größe".as_bytes()), "Größe");
    assert_eq!(c_string_text(&[0xFF, 0xFE]), "Failed to convert C string to Rust string");
    assert_eq!(c_string_text(&[b'a', 0x80]), "Failed to convert C string to Rust string");
}

#[test]
fn descriptor_terms_are_plain_values() {
    let mut desc = FilterDescT { terms: vec![TermT { id: 0, oper: OperKind::And }; 1] };
    TupleShape::<1, 1>::register_ids_descriptor(&[u64::MAX], &mut desc);
    assert_eq!(desc.terms[0], TermT { id: u64::MAX, oper: OperKind::Optional });
}

#[test]
fn a_step_yields_the_tuple_of_every_row() {
    let arena = vec![vec![1, 2], vec![99]];
    let it = IterT { count: 2, ptrs: vec![1, 2], sources: Some(vec![0, 500]), group_id: 0 };
    let rows = tuples_of_block::<TupleShape<2, 0b10>>(&it).unwrap();
    assert_eq!(
        rows,
        vec![
            vec![Some(ElementRef { ptr: 1, index: 0 }), Some(ElementRef { ptr: 2, index: 0 })],
            vec![Some(ElementRef { ptr: 1, index: 1 }), Some(ElementRef { ptr: 2, index: 0 })],
        ]
    );
    let values: Vec<(i32, Option<i32>)> = rows
        .iter()
        .map(|row| {
            let a = row[0].unwrap();
            (arena[a.ptr - 1][a.index], row[1].map(|b| arena[b.ptr - 1][b.index]))
        })
        .collect();
    assert_eq!(values, vec![(1, Some(99)), (2, Some(99))]);
}

#[test]
fn a_step_over_an_empty_block_yields_no_row() {
    let it = IterT { count: 0, ptrs: vec![1], sources: None, group_id: 0 };
    assert_eq!(tuples_of_block::<TupleShape<1, 0>>(&it), Some(vec![]));
    assert_eq!(tuples_of_block::<()>(&it), Some(vec![]));
    let it = IterT { count: 2, ptrs: vec![], sources: None, group_id: 0 };
    assert_eq!(tuples_of_block::<()>(&it), Some(vec![(), ()]));
}

#[test]
fn a_step_yields_nothing_where_the_tuple_cannot_be_bound() {
    let too_few = IterT { count: 2, ptrs: vec![1], sources: None, group_id: 0 };
    assert_eq!(tuples_of_block::<TupleShape<2, 0>>(&too_few), None);
    let no_data = IterT { count: 2, ptrs: vec![1, NULL], sources: None, group_id: 0 };
    assert_eq!(tuples_of_block::<TupleShape<2, 0>>(&no_data), None);
    assert!(tuples_of_block::<TupleShape<2, 0b10>>(&no_data).is_some());
    let ragged = IterT { count: 2, ptrs: vec![1, 2], sources: Some(vec![0]), group_id: 0 };
    assert_eq!(tuples_of_block::<TupleShape<2, 0>>(&ragged), None);
    assert_eq!(tuples_of_block::<()>(&ragged), None);
}
