use game_of_life::surface::{
    after_acquire_failure, after_render_failure, choose_format, choose_present_mode, PresentMode,
    Recovery, Retry, SurfaceFailure,
};

#[test]
fn mailbox_is_preferred() {
    let offered = vec![PresentMode::Fifo, PresentMode::Immediate, PresentMode::Mailbox];
    assert_eq!(choose_present_mode(&offered), PresentMode::Mailbox);
    let offered = vec![PresentMode::Mailbox, PresentMode::Fifo];
    assert_eq!(choose_present_mode(&offered), PresentMode::Mailbox);
    assert_eq!(choose_present_mode(&vec![PresentMode::Mailbox]), PresentMode::Mailbox);
}

#[test]
fn immediate_comes_second() {
    let offered = vec![PresentMode::Fifo, PresentMode::FifoRelaxed, PresentMode::Immediate];
    assert_eq!(choose_present_mode(&offered), PresentMode::Immediate);
    let offered = vec![PresentMode::Immediate, PresentMode::AutoVsync];
    assert_eq!(choose_present_mode(&offered), PresentMode::Immediate);
}

#[test]
fn fifo_is_the_fallback() {
    assert_eq!(choose_present_mode(&vec![PresentMode::Fifo]), PresentMode::Fifo);
    assert_eq!(choose_present_mode(&Vec::new()), PresentMode::Fifo);
    let offered = vec![PresentMode::AutoVsync, PresentMode::AutoNoVsync, PresentMode::FifoRelaxed];
    assert_eq!(choose_present_mode(&offered), PresentMode::Fifo);
}

#[test]
fn the_first_srgb_format_is_taken() {
    assert_eq!(choose_format(&vec![true]), 0);
    assert_eq!(choose_format(&vec![false, true, true]), 1);
    assert_eq!(choose_format(&vec![false, false, false, true]), 3);
    assert_eq!(choose_format(&vec![true, false, true]), 0);
}

#[test]
fn the_first_format_is_taken_where_none_is_srgb() {
    assert_eq!(choose_format(&vec![false]), 0);
    assert_eq!(choose_format(&vec![false, false, false]), 0);
}

#[test]
fn a_lost_surface_is_configured_anew() {
    assert_eq!(after_acquire_failure(SurfaceFailure::Lost), Retry::ConfigureFirst);
    assert_eq!(after_render_failure(SurfaceFailure::Lost), Recovery::Reconfigure);
}

#[test]
fn out_of_memory_ends_the_session() {
    assert_eq!(after_acquire_failure(SurfaceFailure::OutOfMemory), Retry::GiveUp);
    assert_eq!(after_render_failure(SurfaceFailure::OutOfMemory), Recovery::Exit);
}

#[test]
fn other_failures_are_passed_over() {
    for failure in [SurfaceFailure::Timeout, SurfaceFailure::Outdated, SurfaceFailure::Other] {
        assert_eq!(after_acquire_failure(failure), Retry::Again);
        assert_eq!(after_render_failure(failure), Recovery::Skip);
    }
}
