use cubek_matmul::dtypes::StorageKind;
use cubek_matmul::reduce::{
    anchor_exp, idle_check, reduce_count, BoundChecks, IdleAction, IdleMode, LineMode,
    ReduceAutotuneKey,
};
use cubek_matmul::test_mode::TestMode;

#[test]
fn reduce_count_follows_line_mode() {
    assert_eq!(reduce_count(100, LineMode::Parallel, 4), 100);
    assert_eq!(reduce_count(100, LineMode::Perpendicular, 4), 25);
}

#[test]
fn idle_check_masks_units_past_the_last_reduction() {
    assert_eq!(
        idle_check(100, 4, 10, LineMode::Perpendicular, IdleMode::Off),
        IdleAction::Proceed
    );
    assert_eq!(
        idle_check(100, 4, 10, LineMode::Perpendicular, IdleMode::Mask),
        IdleAction::Mask(false)
    );
    assert_eq!(
        idle_check(100, 4, 30, LineMode::Perpendicular, IdleMode::Mask),
        IdleAction::Mask(true)
    );
    assert_eq!(
        idle_check(100, 4, 10, LineMode::Perpendicular, IdleMode::Terminate),
        IdleAction::Proceed
    );
    assert_eq!(
        idle_check(100, 4, 30, LineMode::Perpendicular, IdleMode::Terminate),
        IdleAction::Terminate
    );
}

#[test]
fn idle_bound_checks_fall_back_to_masking() {
    assert_eq!(BoundChecks::Branch.idle(), BoundChecks::Mask);
    assert!(IdleMode::Mask.is_enabled());
    assert!(!IdleMode::Off.is_enabled());
}

#[test]
fn anchor_rounds_up_to_powers_of_the_base() {
    assert_eq!(anchor_exp(100, Some(16), 1024, 4), 256);
    assert_eq!(anchor_exp(256, Some(16), 1024, 4), 256);
    assert_eq!(anchor_exp(257, Some(16), 1024, 4), 1024);
    // Below the minimum, the anchor is raised to it.
    assert_eq!(anchor_exp(1, Some(16), 1024, 4), 16);
    // At or past the maximum, the anchor is the maximum.
    assert_eq!(anchor_exp(5000, Some(16), 1024, 4), 1024);
    assert_eq!(anchor_exp(32, None, 32768, 8), 64);
    assert_eq!(anchor_exp(64, None, 32768, 8), 64);
    assert_eq!(anchor_exp(1, None, 32768, 8), 1);
}

#[test]
fn autotune_key_anchors_size_and_count() {
    let key = ReduceAutotuneKey::generate(
        StorageKind::F32,
        StorageKind::F32,
        StorageKind::F32,
        &vec![8, 100, 4],
        true,
        1,
    );
    assert_eq!(key.elem_input, StorageKind::F32);
    assert!(key.axis_is_contiguous);
    // The reduced dimension 100 anchors to 256; the other dimensions
    // multiply to 32, which anchors to 64.
    assert_eq!(key.vector_size, 256);
    assert_eq!(key.vector_count, 64);
}

#[test]
fn autotune_key_clamps_to_its_anchor_bounds() {
    let key = ReduceAutotuneKey::generate(
        StorageKind::F16,
        StorageKind::F16,
        StorageKind::F32,
        &vec![2, 5000, 100_000],
        false,
        2,
    );
    // 100000 >= 1024 anchors to the maximum; 2 * 5000 = 10000 anchors
    // to 8^5 = 32768.
    assert_eq!(key.vector_size, 1024);
    assert_eq!(key.vector_count, 32768);

    let tiny = ReduceAutotuneKey::generate(
        StorageKind::F32,
        StorageKind::F32,
        StorageKind::F32,
        &vec![1, 3],
        true,
        1,
    );
    assert_eq!(tiny.vector_size, 16);
    assert_eq!(tiny.vector_count, 1);
}

#[test]
fn test_mode_defaults_to_skip() {
    assert_eq!(TestMode::default(), TestMode::Skip);
}
