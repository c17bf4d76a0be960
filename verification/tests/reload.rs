use holofoil::reload::{Phase, Reload, Stage};

#[test]
fn a_new_hand_off_is_idle() {
    let mut reload: Reload<u32> = Reload::new();
    assert_eq!(reload.phase(), Phase::Idle);
    assert_eq!(reload.poll(), None);
}

#[test]
fn phases_follow_request_finish_and_poll() {
    let mut reload: Reload<u32> = Reload::new();
    assert!(reload.request());
    assert_eq!(reload.phase(), Phase::Compiling);
    assert_eq!(reload.poll(), None);
    reload.finish(Some(1));
    assert_eq!(reload.phase(), Phase::Ready);
    assert_eq!(reload.poll(), Some(1));
    assert_eq!(reload.phase(), Phase::Idle);
    assert_eq!(reload.poll(), None);
}

#[test]
fn the_latest_build_wins() {
    let mut reload: Reload<u32> = Reload::new();
    assert!(reload.request());
    assert!(reload.request());
    reload.finish(Some(1));
    assert_eq!(reload.phase(), Phase::Ready);
    reload.finish(Some(2));
    assert_eq!(reload.poll(), Some(2));
    assert_eq!(reload.poll(), None);
    assert_eq!(reload.phase(), Phase::Idle);
}

#[test]
fn a_failed_build_leaves_what_waited() {
    let mut reload: Reload<u32> = Reload::new();
    assert!(reload.request());
    reload.finish(None);
    assert_eq!(reload.phase(), Phase::Idle);
    assert_eq!(reload.poll(), None);

    assert!(reload.request());
    reload.finish(Some(5));
    assert!(reload.request());
    reload.finish(None);
    assert_eq!(reload.poll(), Some(5));
}

#[test]
fn a_build_under_way_shows_after_an_adoption() {
    let mut reload: Reload<u32> = Reload::new();
    assert!(reload.request());
    assert!(reload.request());
    reload.finish(Some(1));
    assert_eq!(reload.poll(), Some(1));
    assert_eq!(reload.phase(), Phase::Compiling);
    reload.finish(Some(2));
    assert_eq!(reload.phase(), Phase::Ready);
}

#[test]
fn finish_without_request_is_harmless() {
    let mut reload: Reload<u32> = Reload::new();
    reload.finish(None);
    assert_eq!(reload.phase(), Phase::Idle);
    reload.finish(Some(3));
    assert_eq!(reload.poll(), Some(3));
    assert_eq!(reload.phase(), Phase::Idle);
}

#[test]
fn stage_starts_with_empty_places() {
    let mut stage: Stage<u32, &str> = Stage::new(7, 3);
    assert_eq!(*stage.pipeline(), 7);
    assert_eq!(stage.viewers(), 3);
    assert_eq!(stage.take(0), None);
    assert_eq!(stage.take(2), None);
}

#[test]
fn stage_keeps_cards_between_frames() {
    let mut stage: Stage<u32, &str> = Stage::new(7, 2);
    stage.store(1, "card");
    assert!(!stage.adopt(None));
    assert_eq!(*stage.pipeline(), 7);
    assert_eq!(stage.take(1), Some("card"));
    assert_eq!(stage.take(1), None);
}

#[test]
fn rebuilt_pipeline_is_adopted_once_and_empties_the_cache() {
    let mut reload: Reload<u32> = Reload::new();
    let mut stage: Stage<u32, &str> = Stage::new(0, 2);
    stage.store(0, "first");
    stage.store(1, "second");

    assert!(reload.request());
    for _ in 0..3 {
        assert!(!stage.adopt(reload.poll()));
        assert_eq!(*stage.pipeline(), 0);
        let card = stage.take(0);
        assert_eq!(card, Some("first"));
        stage.store(0, "first");
    }

    reload.finish(Some(1));

    assert!(stage.adopt(reload.poll()));
    assert_eq!(*stage.pipeline(), 1);
    assert_eq!(stage.viewers(), 2);
    assert_eq!(stage.take(0), None);
    assert_eq!(stage.take(1), None);
    stage.store(0, "again");

    assert!(!stage.adopt(reload.poll()));
    assert_eq!(*stage.pipeline(), 1);
    assert_eq!(stage.take(0), Some("again"));
}

#[test]
fn refresh_polls_and_adopts_in_one_step() {
    let mut reload: Reload<u32> = Reload::new();
    let mut stage: Stage<u32, &str> = Stage::new(0, 1);
    stage.store(0, "card");
    assert!(!stage.refresh(&mut reload));
    assert_eq!(*stage.pipeline(), 0);

    assert!(reload.request());
    reload.finish(Some(4));
    assert!(stage.refresh(&mut reload));
    assert_eq!(*stage.pipeline(), 4);
    assert_eq!(reload.phase(), Phase::Idle);
    assert_eq!(stage.take(0), None);

    assert!(!stage.refresh(&mut reload));
    assert_eq!(*stage.pipeline(), 4);
}

#[test]
fn a_failed_rebuild_keeps_the_pipeline_and_the_cards() {
    let mut reload: Reload<u32> = Reload::new();
    let mut stage: Stage<u32, &str> = Stage::new(3, 1);
    stage.store(0, "card");
    assert!(reload.request());
    reload.finish(None);
    assert!(!stage.refresh(&mut reload));
    assert_eq!(*stage.pipeline(), 3);
    assert_eq!(stage.take(0), Some("card"));
}
