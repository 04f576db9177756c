use bt_base::date::Date;
use bt_base::types::{Frame, Game, GameInfo};

fn ymd(year: i32, month: u32, day: u32) -> Date {
    Date::from_ymd_opt(year, month, day).unwrap()
}

#[test]
fn info_create_part() {
    let def_part = GameInfo::build_part();
    let cust_part = GameInfo::build_date(ymd(2023, 2, 5));

    assert_eq!(def_part, GameInfo::Partial(Date::today()));
    assert_eq!(cust_part, GameInfo::Partial(ymd(2023, 2, 5)));
}

#[test]
fn info_create_full_today() {
    let info = GameInfo::build_full();
    assert_eq!(info, GameInfo::Full(Date::today(), 1));
    assert_eq!(info.game(), 1);
}

#[test]
fn date_from_ymd_checks_calendar() {
    let d = ymd(2023, 2, 5);
    assert_eq!((d.year(), d.month(), d.day()), (2023, 2, 5));
    assert!(Date::from_ymd_opt(2023, 2, 29).is_none());
    assert!(Date::from_ymd_opt(2024, 2, 29).is_some());
    assert!(Date::from_ymd_opt(1900, 2, 29).is_none());
    assert!(Date::from_ymd_opt(2000, 2, 29).is_some());
    assert!(Date::from_ymd_opt(2023, 4, 31).is_none());
    assert!(Date::from_ymd_opt(2023, 0, 1).is_none());
    assert!(Date::from_ymd_opt(2023, 13, 1).is_none());
    assert!(Date::from_ymd_opt(2023, 1, 0).is_none());
    assert!(Date::from_ymd_opt(262142, 12, 31).is_some());
    assert!(Date::from_ymd_opt(262143, 1, 1).is_none());
    assert!(Date::from_ymd_opt(-262143, 1, 1).is_some());
    assert!(Date::from_ymd_opt(-262144, 12, 31).is_none());
}

#[test]
fn today_is_a_real_day() {
    let t = Date::today();
    assert!(Date::from_ymd_opt(t.year(), t.month(), t.day()) == Some(t));
    assert!(t.year() >= 2000);
}

#[test]
fn info_build_date_parts() {
    let d = ymd(2023, 2, 5);
    let info = GameInfo::build_date(d);
    assert_eq!(*info.date(), d);
    assert_eq!(info.game(), 0);
    assert_eq!(GameInfo::from(d), info);
}

#[test]
fn info_build_with_game() {
    let d = ymd(2021, 12, 31);
    let info = GameInfo::build_with(d, 3);
    assert_eq!(info.game(), 3);
    assert_eq!(*info.date(), d);
}

#[test]
fn info_equality_by_variant() {
    let d1 = ymd(2023, 2, 5);
    let d2 = ymd(2023, 2, 6);
    assert!(GameInfo::build_date(d1) == GameInfo::build_date(d1));
    assert!(GameInfo::build_date(d1) != GameInfo::build_date(d2));
    assert!(GameInfo::build_date(d1) != GameInfo::build_with(d1, 0));
    assert!(GameInfo::build_date(d1) != GameInfo::build_with(d1, 1));
    assert!(GameInfo::build_with(d1, 2) == GameInfo::build_with(d1, 2));
    assert!(GameInfo::build_with(d1, 2) != GameInfo::build_with(d1, 3));
}

#[test]
fn info_mutable_accessors() {
    let d1 = ymd(2023, 2, 5);
    let d2 = ymd(2024, 3, 1);
    let mut part = GameInfo::build_date(d1);
    *part.date_mut() = d2;
    assert_eq!(part, GameInfo::Partial(d2));
    let mut full = GameInfo::build_with(d1, 2);
    *full.game_mut() = 4;
    *full.date_mut() = d2;
    assert_eq!(full, GameInfo::Full(d2, 4));
}

#[test]
fn frame_two_throws_all_counts() {
    for a in 0u8..=10 {
        for b in 0u8..=10 {
            let f = Frame::from((a, b));
            assert_eq!(f.score(), a + b);
            assert_eq!(f.throw(1), Some(a));
            assert_eq!(f.throw(2), Some(b));
            assert_eq!(f.throw(3), None);
            assert!(f.valid());
        }
    }
}

#[test]
fn frame_strike() {
    let f = Frame::from((10, 0));
    assert!(f.strike());
    // The first two throws add up to ten, so the spare test holds too.
    assert!(f.spare());
    assert!(!Frame::from((9, 1)).strike());
}

#[test]
fn frame_spare() {
    let f = Frame::from((7, 3));
    assert!(f.spare());
    assert_eq!(f.score(), 10);
    assert!(!f.strike());
    assert!(!Frame::from((7, 2)).spare());
}

#[test]
fn frame_three_throws() {
    let f = Frame::from((10, 10, 10));
    assert_eq!(f, Frame::ThreeFrame(10, 10, 10));
    assert_eq!(f.score(), 30);
    assert_eq!(f.throw(3), Some(10));
    assert_eq!(f.throw(4), None);
    assert_eq!(f.throw(0), None);
    assert!(f.strike());
    assert!(!f.spare());
    let g = Frame::from((4, 6, 5));
    assert!(g.spare());
    assert_eq!(g.score(), 15);
    let h = Frame::from((2, 3, 7));
    assert!(!h.spare());
}

#[test]
fn frame_uninit() {
    let f = Frame::build();
    assert_eq!(f, Frame::Uninit);
    assert!(!f.valid());
    assert_eq!(f.score(), 0);
    for n in 0usize..6 {
        assert_eq!(f.throw(n), None);
    }
    assert!(!f.strike());
    assert!(!f.spare());
}

#[test]
fn frame_equality() {
    assert!(Frame::Uninit == Frame::Uninit);
    assert!(Frame::from((1, 2)) == Frame::TwoFrame(1, 2));
    assert!(Frame::from((1, 2)) != Frame::from((2, 1)));
    assert!(Frame::from((1, 2)) != Frame::from((1, 2, 0)));
    assert!(Frame::from((0, 0)) != Frame::Uninit);
}

#[test]
fn frame_self_accessors() {
    let mut f = Frame::from((3, 4));
    assert_eq!(*f.frame(), Frame::TwoFrame(3, 4));
    *f.frame_mut() = Frame::from((5, 5));
    assert_eq!(f, Frame::TwoFrame(5, 5));
}

#[test]
fn game_build_today() {
    let g = Game::build();
    assert_eq!(g.game(), 1);
    assert_eq!(*g.date(), Date::today());
    assert!(g.frame(0).is_none());
    assert!(g.frame(11).is_none());
    for n in 1usize..=10 {
        assert_eq!(g.frame(n), Some(&Frame::Uninit));
    }
    assert!(g.valid());
}

#[test]
fn game_build_from_full_info() {
    let g = Game::build_with(GameInfo::build_with(ymd(2023, 2, 5), 2));
    assert_eq!(*g.date(), ymd(2023, 2, 5));
    assert_eq!(g.game(), 2);
}

#[test]
fn game_build_from_partial_info() {
    let g = Game::build_with(GameInfo::build_date(ymd(2022, 7, 14)));
    assert_eq!(*g.date(), ymd(2022, 7, 14));
    assert_eq!(g.game(), 1);
    let h = Game::build_date(ymd(2022, 7, 14));
    assert_eq!(*h.date(), ymd(2022, 7, 14));
    assert_eq!(h.game(), 1);
}

#[test]
fn game_frame_slots() {
    let mut g = Game::build_date(ymd(2023, 2, 5));
    assert!(g.frame_mut(0).is_none());
    assert!(g.frame_mut(11).is_none());
    *g.frame_mut(10).unwrap() = Frame::from((10, 10, 10));
    *g.frame_mut(1).unwrap() = Frame::from((7, 3));
    assert_eq!(g.frame(1), Some(&Frame::TwoFrame(7, 3)));
    assert_eq!(g.frame(10), Some(&Frame::ThreeFrame(10, 10, 10)));
    assert_eq!(g.frame(2), Some(&Frame::Uninit));
    assert_eq!(g.frames().len(), 10);
    g.frames_mut()[4] = Frame::from((1, 1));
    assert_eq!(g.frame(5), Some(&Frame::TwoFrame(1, 1)));
}

#[test]
fn game_mutable_fields() {
    let mut g = Game::build_date(ymd(2023, 2, 5));
    *g.game_mut() = 3;
    *g.date_mut() = ymd(2023, 2, 6);
    assert_eq!(g.game(), 3);
    assert_eq!(*g.date(), ymd(2023, 2, 6));
}
