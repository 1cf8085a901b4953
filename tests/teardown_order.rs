use sdl3_experiment::teardown::{teardown_steps, AcquiredHandles, TeardownStep};

#[test]
fn full_teardown_releases_children_first() {
    let h = AcquiredHandles { window: true, device: true, fill_pipeline: true, line_pipeline: true };
    assert_eq!(
        teardown_steps(h),
        vec![
            TeardownStep::ReleaseFillPipeline,
            TeardownStep::ReleaseLinePipeline,
            TeardownStep::ReleaseWindowFromDevice,
            TeardownStep::DestroyWindow,
            TeardownStep::DestroyDevice,
        ]
    );
}

#[test]
fn window_only_is_destroyed_alone() {
    let h = AcquiredHandles { window: true, device: false, fill_pipeline: false, line_pipeline: false };
    assert_eq!(teardown_steps(h), vec![TeardownStep::DestroyWindow]);
}

#[test]
fn nothing_acquired_nothing_released() {
    let h = AcquiredHandles { window: false, device: false, fill_pipeline: false, line_pipeline: false };
    assert!(teardown_steps(h).is_empty());
}

#[test]
fn device_without_window_skips_window_steps() {
    let h = AcquiredHandles { window: false, device: true, fill_pipeline: false, line_pipeline: true };
    assert_eq!(teardown_steps(h), vec![TeardownStep::ReleaseLinePipeline, TeardownStep::DestroyDevice]);
}
