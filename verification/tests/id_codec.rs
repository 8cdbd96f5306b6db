use flecs_ecs::c_types::{ECS_DEPENDS_ON, ECS_PAIR, ECS_WILDCARD};
use flecs_ecs::id::{
    ecs_dependson, ecs_entity_t_comb, ecs_entity_t_hi, ecs_entity_t_lo, ecs_is_pair, ecs_pair,
    ecs_pair_first, ecs_pair_second, ecs_record_to_row, get_generation, strip_generation,
};

#[test]
fn comb_packs_high_and_low_halves() {
    assert_eq!(ecs_entity_t_comb(1, 2), 0x0000_0002_0000_0001);
    assert_eq!(ecs_entity_t_comb(0, 0), 0);
    assert_eq!(ecs_entity_t_comb(0xFFFF_FFFF, 0xFFFF_FFFF), u64::MAX);
    assert_eq!(ecs_entity_t_comb(0xDEAD_BEEF, 0x1234_5678), 0x1234_5678_DEAD_BEEF);
}

#[test]
fn comb_round_trips_through_lo_and_hi() {
    let halves: [u64; 6] = [0, 1, 7, 0x8000_0000, 0xFFFF_FFFE, 0xFFFF_FFFF];
    for a in halves {
        for b in halves {
            let id = ecs_entity_t_comb(a, b);
            assert_eq!(ecs_entity_t_lo(id), a);
            assert_eq!(ecs_entity_t_hi(id), b);
        }
    }
}

#[test]
fn lo_and_hi_split_an_id() {
    assert_eq!(ecs_entity_t_lo(0x1234_5678_9ABC_DEF0), 0x9ABC_DEF0);
    assert_eq!(ecs_entity_t_hi(0x1234_5678_9ABC_DEF0), 0x1234_5678);
    assert_eq!(ecs_entity_t_lo(u64::MAX), 0xFFFF_FFFF);
    assert_eq!(ecs_entity_t_hi(u64::MAX), 0xFFFF_FFFF);
}

#[test]
fn pair_puts_predicate_high_and_object_low() {
    assert_eq!(ecs_pair(5, 7), 0x8000_0005_0000_0007);
    assert_eq!(ecs_pair(7, 5), 0x8000_0007_0000_0005);
    assert_eq!(ecs_pair(0, 0), ECS_PAIR);
}

#[test]
fn pair_round_trips_its_elements() {
    let firsts: [u64; 5] = [0, 1, 300, 0x0ABC_DEF0, 0x0FFF_FFFF];
    let seconds: [u64; 5] = [0, 1, 300, 0x8000_0001, 0xFFFF_FFFF];
    for p in firsts {
        for o in seconds {
            let pair = ecs_pair(p, o);
            assert!(ecs_is_pair(pair));
            assert_eq!(ecs_pair_first(pair), p);
            assert_eq!(ecs_pair_second(pair), o);
        }
    }
}

#[test]
fn pair_of_a_first_element_in_the_flag_bits_is_no_pair() {
    assert!(!ecs_is_pair(ecs_pair(0x1000_0000, 1)));
    assert!(!ecs_is_pair(ecs_pair(0x7000_0000, 1)));
}

#[test]
fn is_pair_wants_the_pair_flag_and_no_other() {
    assert!(ecs_is_pair(0x8000_0000_0000_0000));
    assert!(ecs_is_pair(0x8FFF_FFFF_FFFF_FFFF));
    assert!(!ecs_is_pair(0));
    assert!(!ecs_is_pair(0x0FFF_FFFF_FFFF_FFFF));
    assert!(!ecs_is_pair(0xC000_0000_0000_0000));
    assert!(!ecs_is_pair(0x4000_0000_0000_0000));
    assert!(!ecs_is_pair(u64::MAX));
}

#[test]
fn dependson_pairs_the_relationship_with_the_entity() {
    assert_eq!(ECS_DEPENDS_ON, 296);
    assert_eq!(ecs_dependson(10), 0x8000_0128_0000_000A);
    assert_eq!(ecs_dependson(10), ecs_pair(ECS_DEPENDS_ON, 10));
    assert_eq!(ecs_pair_first(ecs_dependson(10)), ECS_DEPENDS_ON);
    assert_eq!(ecs_pair_second(ecs_dependson(10)), 10);
}

#[test]
fn wildcard_is_the_engines() {
    assert_eq!(ECS_WILDCARD, 270);
}

#[test]
fn record_to_row_keeps_the_low_28_bits() {
    assert_eq!(ecs_record_to_row(0), 0);
    assert_eq!(ecs_record_to_row(5), 5);
    assert_eq!(ecs_record_to_row(0xF000_0005), 5);
    assert_eq!(ecs_record_to_row(0x0FFF_FFFF), 0x0FFF_FFFF);
    assert_eq!(ecs_record_to_row(u32::MAX), 268_435_455);
    assert_eq!(ecs_record_to_row(0x1000_0000), 0);
}

#[test]
fn get_generation_reads_bits_32_to_47() {
    assert_eq!(get_generation(0), 0);
    assert_eq!(get_generation(0x0000_0003_0000_0007), 3);
    assert_eq!(get_generation(0x0000_FFFF_0000_0000), 0xFFFF);
    assert_eq!(get_generation(0xFFFF_0000_FFFF_FFFF), 0);
    assert_eq!(get_generation(u64::MAX), 0xFFFF);
}

#[test]
fn get_generation_ignores_the_pair_flag() {
    let id = 0x0000_0042_0000_0007;
    assert_eq!(get_generation(id), 0x42);
    assert_eq!(get_generation(id | ECS_PAIR), 0x42);
}

#[test]
fn strip_generation_clears_the_count_of_a_plain_entity() {
    assert_eq!(strip_generation(0x0000_0003_0000_0007), 7);
    assert_eq!(strip_generation(7), 7);
    assert_eq!(strip_generation(0x0000_FFFF_FFFF_FFFF), 0xFFFF_FFFF);
    assert_eq!(strip_generation(0x0FFF_1234_0000_0001), 0x0FFF_0000_0000_0001);
    assert_eq!(get_generation(strip_generation(0x0000_0003_0000_0007)), 0);
}

#[test]
fn strip_generation_leaves_a_flagged_id_alone() {
    let pair = ecs_pair(0x0123_4567, 0x89AB_CDEF);
    assert_eq!(strip_generation(pair), pair);
    assert_eq!(strip_generation(0x4000_0003_0000_0007), 0x4000_0003_0000_0007);
}

#[test]
fn strip_generation_is_idempotent() {
    let ids: [u64; 7] = [
        0,
        7,
        0x0000_0003_0000_0007,
        0x0000_FFFF_FFFF_FFFF,
        0x8000_0005_0000_0007,
        0x1000_0003_0000_0007,
        u64::MAX,
    ];
    for x in ids {
        let once = strip_generation(x);
        assert_eq!(strip_generation(once), once);
        assert_eq!(ecs_entity_t_lo(once), ecs_entity_t_lo(x));
    }
}
