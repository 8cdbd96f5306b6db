use flecs_ecs::c_types::{
    InOutKind, OperKind, FLECS_HI_COMPONENT_ID, RUST_ECS_COMPONENT_MASK, RUST_ECS_ID_FLAGS_MASK,
};
use flecs_ecs::id::{ecs_record_to_row, get_generation, strip_generation};

#[test]
fn masks_are_the_engines() {
    assert_eq!(RUST_ECS_COMPONENT_MASK, flecs_ecs_sys::ECS_COMPONENT_MASK);
    assert_eq!(RUST_ECS_ID_FLAGS_MASK, flecs_ecs_sys::ECS_ID_FLAGS_MASK as u64);
    assert_eq!(RUST_ECS_COMPONENT_MASK, !RUST_ECS_ID_FLAGS_MASK);
    assert_eq!(FLECS_HI_COMPONENT_ID, 256);
}

#[test]
fn row_and_generation_follow_the_engines_masks() {
    let words: [u32; 5] = [0, 1, 0x0FFF_FFFF, 0x1000_0000, u32::MAX];
    for word in words {
        assert_eq!(ecs_record_to_row(word), (word & flecs_ecs_sys::ECS_ROW_MASK) as i32);
    }
    let ids: [u64; 5] = [0, 7, 0x0000_0003_0000_0007, 0x0000_FFFF_0000_0000, u64::MAX];
    for id in ids {
        assert_eq!(
            get_generation(id) as u64,
            (id & flecs_ecs_sys::ECS_GENERATION_MASK) >> 32
        );
    }
    assert_eq!(
        strip_generation(0x0000_FFFF_0000_0009),
        0x0000_FFFF_0000_0009 & !flecs_ecs_sys::ECS_GENERATION_MASK
    );
}

#[test]
fn kinds_carry_the_engines_numbers() {
    assert_eq!(OperKind::And.code() as u32, flecs_ecs_sys::ecs_oper_kind_t_EcsAnd);
    assert_eq!(OperKind::Or.code() as u32, flecs_ecs_sys::ecs_oper_kind_t_EcsOr);
    assert_eq!(OperKind::Not.code() as u32, flecs_ecs_sys::ecs_oper_kind_t_EcsNot);
    assert_eq!(OperKind::Optional.code() as u32, flecs_ecs_sys::ecs_oper_kind_t_EcsOptional);
    assert_eq!(OperKind::AndFrom.code() as u32, flecs_ecs_sys::ecs_oper_kind_t_EcsAndFrom);
    assert_eq!(OperKind::OrFrom.code() as u32, flecs_ecs_sys::ecs_oper_kind_t_EcsOrFrom);
    assert_eq!(OperKind::NotFrom.code() as u32, flecs_ecs_sys::ecs_oper_kind_t_EcsNotFrom);
    assert_eq!(
        InOutKind::InOutDefault.code() as u32,
        flecs_ecs_sys::ecs_inout_kind_t_EcsInOutDefault
    );
    assert_eq!(InOutKind::InOutNone.code() as u32, flecs_ecs_sys::ecs_inout_kind_t_EcsInOutNone);
    assert_eq!(
        InOutKind::InOutFilter.code() as u32,
        flecs_ecs_sys::ecs_inout_kind_t_EcsInOutFilter
    );
    assert_eq!(InOutKind::InOut.code() as u32, flecs_ecs_sys::ecs_inout_kind_t_EcsInOut);
    assert_eq!(InOutKind::In.code() as u32, flecs_ecs_sys::ecs_inout_kind_t_EcsIn);
    assert_eq!(InOutKind::Out.code() as u32, flecs_ecs_sys::ecs_inout_kind_t_EcsOut);
}
