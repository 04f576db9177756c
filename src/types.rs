use vstd::prelude::*;

use crate::date::Date;

verus! {

/// Which date, and possibly which game of that date, a record belongs to.
#[derive(Clone, Copy, Debug, PartialEq, Eq, Structural)]
pub enum GameInfo {
    /// Only the date is known.
    Partial(Date),
    /// The date and the game number are known.
    Full(Date, u8),
}

impl GameInfo {
    /// The date, whatever the variant.
    pub open spec fn info_date(self) -> Date {
        match self {
            GameInfo::Partial(date) => date,
            GameInfo::Full(date, _) => date,
        }
    }

    /// The game number; `0` where only the date is known.
    pub open spec fn info_game(self) -> u8 {
        match self {
            GameInfo::Partial(_) => 0,
            GameInfo::Full(_, game) => game,
        }
    }

    /// Only the date, today's.
    pub fn build_part() -> (r: GameInfo)
        ensures
            r is Partial,
            r.info_date().wf(),
    {
        GameInfo::Partial(Date::today())
    }

    /// Today's date, as its first game.
    pub fn build_full() -> (r: GameInfo)
        ensures
            r is Full,
            r.info_date().wf(),
            r.info_game() == 1,
    {
        GameInfo::Full(Date::today(), 1)
    }

    pub fn build_date(date: Date) -> (r: GameInfo)
        ensures
            r == GameInfo::Partial(date),
    {
        GameInfo::Partial(date)
    }

    pub fn build_with(date: Date, game: u8) -> (r: GameInfo)
        ensures
            r == GameInfo::Full(date, game),
    {
        GameInfo::Full(date, game)
    }

    pub fn date(&self) -> (r: &Date)
        ensures
            *r == self.info_date(),
    {
        match self {
            GameInfo::Partial(date) => date,
            GameInfo::Full(date, _) => date,
        }
    }

    pub fn game(&self) -> (r: u8)
        ensures
            r == self.info_game(),
    {
        match self {
            GameInfo::Full(_, game) => *game,
            GameInfo::Partial(_) => 0,
        }
    }

    /// The date, for changing it in place; the variant and the game number stay.
    pub fn date_mut(&mut self) -> (r: &mut Date)
        ensures
            *r == old(self).info_date(),
            *final(self) == (match *old(self) {
                GameInfo::Partial(_) => GameInfo::Partial(*final(r)),
                GameInfo::Full(_, game) => GameInfo::Full(*final(r), game),
            }),
    {
        match self {
            GameInfo::Partial(date) => date,
            GameInfo::Full(date, _) => date,
        }
    }

    /// The game number, for changing it in place. Only a `Full` value has one.
    pub fn game_mut(&mut self) -> (r: &mut u8)
        requires
            *old(self) is Full,
        ensures
            *r == old(self).info_game(),
            *final(self) == GameInfo::Full(old(self).info_date(), *final(r)),
    {
        match self {
            GameInfo::Full(_, game) => game,
            GameInfo::Partial(_) => vstd::pervasive::unreached(),
        }
    }

    /// A date-only value built from `d` gives back `d` as its date and `0` as its game number.
    pub proof fn lemma_build_date_parts(d: Date)
        ensures
            GameInfo::Partial(d).info_date() == d,
            GameInfo::Partial(d).info_game() == 0,
    {
    }

    /// A value built from a date and game number `g` gives back `g` as its game number.
    pub proof fn lemma_build_with_game(d: Date, g: u8)
        ensures
            GameInfo::Full(d, g).info_game() == g,
            GameInfo::Full(d, g).info_date() == d,
    {
    }

    /// Two date-only values are equal exactly when their dates are, and a date-only value
    /// never equals one that carries a game number.
    pub proof fn lemma_eq_by_variant(d1: Date, d2: Date, g: u8)
        ensures
            (GameInfo::Partial(d1) == GameInfo::Partial(d2)) <==> d1 == d2,
            GameInfo::Partial(d1) != GameInfo::Full(d2, g),
    {
    }
}

impl From<Date> for GameInfo {
    fn from(value: Date) -> (r: GameInfo) {
        GameInfo::Partial(value)
    }
}

impl vstd::std_specs::convert::FromSpecImpl<Date> for GameInfo {
    open spec fn obeys_from_spec() -> bool {
        true
    }

    open spec fn from_spec(v: Date) -> GameInfo {
        GameInfo::Partial(v)
    }
}

/// The throws recorded in one frame of a game.
#[derive(Clone, Copy, Debug, PartialEq, Eq, Structural)]
pub enum Frame {
    Uninit,
    TwoFrame(u8, u8),
    ThreeFrame(u8, u8, u8),
}

impl Frame {
    /// The pin counts of the recorded throws, in order.
    pub open spec fn throws(self) -> Seq<u8> {
        match self {
            Frame::Uninit => seq![],
            Frame::TwoFrame(t1, t2) => seq![t1, t2],
            Frame::ThreeFrame(t1, t2, t3) => seq![t1, t2, t3],
        }
    }

    /// The pin count of the `n`-th throw (counted from 1), where the frame has one.
    pub open spec fn throw_at(self, n: int) -> Option<u8> {
        if 1 <= n <= self.throws().len() {
            Some(self.throws()[n - 1])
        } else {
            None
        }
    }

    /// The sum of all recorded pin counts.
    pub open spec fn total(self) -> int {
        match self {
            Frame::Uninit => 0,
            Frame::TwoFrame(t1, t2) => t1 + t2,
            Frame::ThreeFrame(t1, t2, t3) => t1 + t2 + t3,
        }
    }

    /// The first throw knocked down all ten pins.
    pub open spec fn is_strike(self) -> bool {
        self.throw_at(1) == Some(10u8)
    }

    /// The first two throws together knocked down ten pins.
    pub open spec fn is_spare(self) -> bool {
        self.throws().len() >= 2 && self.throws()[0] + self.throws()[1] == 10
    }

    /// A two-throw frame of pin counts `a` and `b` scores `a + b` and holds `a`, then `b`,
    /// and no third throw.
    pub proof fn lemma_two_throws(a: u8, b: u8)
        requires
            a <= 10,
            b <= 10,
        ensures
            Frame::TwoFrame(a, b).total() == a + b,
            Frame::TwoFrame(a, b).total() <= u8::MAX,
            Frame::TwoFrame(a, b).throw_at(1) == Some(a),
            Frame::TwoFrame(a, b).throw_at(2) == Some(b),
            Frame::TwoFrame(a, b).throw_at(3) is None,
    {
    }

    /// An empty frame is not valid, scores `0` and holds no throw at any position.
    pub proof fn lemma_uninit_empty(n: int)
        ensures
            Frame::Uninit.throws().len() == 0,
            Frame::Uninit.total() == 0,
            Frame::Uninit.throw_at(n) is None,
            !Frame::Uninit.is_strike(),
            !Frame::Uninit.is_spare(),
    {
    }

    pub fn build() -> (r: Frame)
        ensures
            r == Frame::Uninit,
    {
        Frame::Uninit
    }

    pub fn frame(&self) -> (r: &Frame)
        ensures
            *r == *self,
    {
        self
    }

    pub fn throw(&self, throw_num: usize) -> (r: Option<u8>)
        ensures
            r == self.throw_at(throw_num as int),
    {
        match self {
            Frame::Uninit => None,
            Frame::TwoFrame(t1, t2) => {
                if throw_num == 1 {
                    Some(*t1)
                } else if throw_num == 2 {
                    Some(*t2)
                } else {
                    None
                }
            },
            Frame::ThreeFrame(t1, t2, t3) => {
                if throw_num == 1 {
                    Some(*t1)
                } else if throw_num == 2 {
                    Some(*t2)
                } else if throw_num == 3 {
                    Some(*t3)
                } else {
                    None
                }
            },
        }
    }

    pub fn frame_mut(&mut self) -> (r: &mut Frame)
        ensures
            *r == *old(self),
            *final(self) == *final(r),
    {
        self
    }

    /// Whether throws have been recorded; pin counts are not checked.
    pub fn valid(&self) -> (r: bool)
        ensures
            r == (self.throws().len() > 0),
            r == !(*self is Uninit),
    {
        !matches!(self, Frame::Uninit)
    }

    /// The plain sum of the recorded throws, without bonuses from other frames.
    pub fn score(&self) -> (r: u8)
        requires
            self.total() <= u8::MAX,
        ensures
            r == self.total(),
    {
        match self {
            Frame::TwoFrame(t1, t2) => *t1 + *t2,
            Frame::ThreeFrame(t1, t2, t3) => *t1 + *t2 + *t3,
            Frame::Uninit => 0,
        }
    }

    pub fn strike(&self) -> (r: bool)
        ensures
            r == self.is_strike(),
    {
        matches!(self.throw(1), Some(10))
    }

    /// Looks at the first two throws only, also in a three-throw frame.
    pub fn spare(&self) -> (r: bool)
        ensures
            r == self.is_spare(),
    {
        match (self.throw(1), self.throw(2)) {
            (Some(t1), Some(t2)) => t1 as u16 + t2 as u16 == 10,
            _ => false,
        }
    }
}

impl From<(u8, u8)> for Frame {
    fn from(value: (u8, u8)) -> (r: Frame) {
        Frame::TwoFrame(value.0, value.1)
    }
}

impl vstd::std_specs::convert::FromSpecImpl<(u8, u8)> for Frame {
    open spec fn obeys_from_spec() -> bool {
        true
    }

    open spec fn from_spec(v: (u8, u8)) -> Frame {
        Frame::TwoFrame(v.0, v.1)
    }
}

impl From<(u8, u8, u8)> for Frame {
    fn from(value: (u8, u8, u8)) -> (r: Frame) {
        Frame::ThreeFrame(value.0, value.1, value.2)
    }
}

impl vstd::std_specs::convert::FromSpecImpl<(u8, u8, u8)> for Frame {
    open spec fn obeys_from_spec() -> bool {
        true
    }

    open spec fn from_spec(v: (u8, u8, u8)) -> Frame {
        Frame::ThreeFrame(v.0, v.1, v.2)
    }
}

/// Number of frame slots in a game.
pub const FRAME_COUNT: usize = 10;

/// One game: its date, its number on that date, and ten frame slots.
pub struct Game {
    date: Date,
    game: u8,
    frames: [Frame; 10],
}

impl Game {
    pub closed spec fn spec_date(self) -> Date {
        self.date
    }

    pub closed spec fn spec_game(self) -> u8 {
        self.game
    }

    /// The ten frame slots, slot `n` (counted from 1) at index `n - 1`.
    pub closed spec fn spec_frames(self) -> Seq<Frame> {
        self.frames@
    }

    /// The frame in slot `n` (counted from 1), where `n` names a slot.
    pub open spec fn frame_at(self, n: int) -> Option<Frame> {
        if 1 <= n <= FRAME_COUNT {
            Some(self.spec_frames()[n - 1])
        } else {
            None
        }
    }

    /// A game as it is built: every slot empty.
    pub open spec fn fresh(self, date: Date, game: u8) -> bool {
        &&& self.spec_date() == date
        &&& self.spec_game() == game
        &&& self.spec_frames().len() == FRAME_COUNT
        &&& forall|i: int| 0 <= i < FRAME_COUNT ==> #[trigger] self.spec_frames()[i] == Frame::Uninit
    }

    /// Holds of every game: exactly ten slots.
    pub proof fn lemma_ten_slots(self)
        ensures
            self.spec_frames().len() == FRAME_COUNT,
    {
    }

    /// In a game as built, each slot from 1 to 10 holds an empty frame and every other
    /// position holds none.
    pub proof fn lemma_fresh_slots(self, date: Date, game: u8, n: int)
        requires
            self.fresh(date, game),
        ensures
            1 <= n <= FRAME_COUNT ==> self.frame_at(n) == Some(Frame::Uninit),
            !(1 <= n <= FRAME_COUNT) ==> self.frame_at(n) is None,
    {
    }

    fn empty(date: Date, game: u8) -> (r: Game)
        ensures
            r.fresh(date, game),
    {
        Game { date, game, frames: [Frame::Uninit; 10] }
    }

    /// Today's game, numbered 1.
    pub fn build() -> (r: Game)
        ensures
            r.fresh(r.spec_date(), 1),
            r.spec_date().wf(),
    {
        Game::empty(Date::today(), 1)
    }

    /// A game on `date`, numbered 1.
    pub fn build_date(date: Date) -> (r: Game)
        ensures
            r.fresh(date, 1),
    {
        Game::empty(date, 1)
    }

    /// A game from what `info` knows; a game number it lacks becomes 1.
    pub fn build_with(info: GameInfo) -> (r: Game)
        ensures
            r.fresh(
                info.info_date(),
                match info {
                    GameInfo::Partial(_) => 1u8,
                    GameInfo::Full(_, game) => game,
                },
            ),
    {
        match info {
            GameInfo::Partial(date) => Game::empty(date, 1),
            GameInfo::Full(date, game) => Game::empty(date, game),
        }
    }

    pub fn date(&self) -> (r: &Date)
        ensures
            *r == self.spec_date(),
    {
        &self.date
    }

    pub fn game(&self) -> (r: u8)
        ensures
            r == self.spec_game(),
    {
        self.game
    }

    /// The frame in slot `frame_num` (counted from 1), or `None` outside `1..=10`.
    pub fn frame(&self, frame_num: usize) -> (r: Option<&Frame>)
        ensures
            match r {
                Some(f) => self.frame_at(frame_num as int) == Some(*f),
                None => self.frame_at(frame_num as int) is None,
            },
    {
        if frame_num < 1 || frame_num > FRAME_COUNT {
            return None;
        }
        Some(&self.frames[frame_num - 1])
    }

    pub fn frames(&self) -> (r: &[Frame; 10])
        ensures
            r@ == self.spec_frames(),
    {
        &self.frames
    }

    /// The date, for changing it in place.
    pub fn date_mut(&mut self) -> (r: &mut Date)
        ensures
            *r == old(self).spec_date(),
            final(self).spec_date() == *final(r),
            final(self).spec_game() == old(self).spec_game(),
            final(self).spec_frames() == old(self).spec_frames(),
    {
        &mut self.date
    }

    /// The game number, for changing it in place.
    pub fn game_mut(&mut self) -> (r: &mut u8)
        ensures
            *r == old(self).spec_game(),
            final(self).spec_game() == *final(r),
            final(self).spec_date() == old(self).spec_date(),
            final(self).spec_frames() == old(self).spec_frames(),
    {
        &mut self.game
    }

    /// The frame in slot `frame_num` (counted from 1), for changing it in place, or `None`
    /// outside `1..=10`.
    pub fn frame_mut(&mut self, frame_num: usize) -> (r: Option<&mut Frame>)
        ensures
            old(self).frame_at(frame_num as int) is None ==> r is None && *final(self) == *old(self),
            old(self).frame_at(frame_num as int) is Some ==> r is Some
                && *r->0 == old(self).spec_frames()[frame_num - 1]
                && final(self).spec_frames() == old(self).spec_frames().update(frame_num - 1, *final(r->0))
                && final(self).spec_date() == old(self).spec_date()
                && final(self).spec_game() == old(self).spec_game(),
    {
        if frame_num < 1 || frame_num > FRAME_COUNT {
            return None;
        }
        Some(&mut self.frames[frame_num - 1])
    }

    /// All ten slots, for changing them in place; the date and game number stay.
    pub fn frames_mut(&mut self) -> (r: &mut [Frame; 10])
        ensures
            r@ == old(self).spec_frames(),
            final(self).spec_frames() == final(r)@,
            final(self).spec_date() == old(self).spec_date(),
            final(self).spec_game() == old(self).spec_game(),
    {
        &mut self.frames
    }

    /// Performs no check on the frames: every game counts as valid.
    pub fn valid(&self) -> (r: bool)
        ensures
            r,
    {
        true
    }
}

} // verus!
