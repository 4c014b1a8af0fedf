use vstd::prelude::*;

verus! {

/// Where a game session stands.
#[derive(Clone, Copy, Debug, PartialEq, Eq, Structural)]
pub enum GameState {
    NewGame,
    Started,
    GameOver,
}

/// The order of the phases: a game only moves forward, until a reset.
pub open spec fn phase_rank(state: GameState) -> int {
    match state {
        GameState::NewGame => 0,
        GameState::Started => 1,
        GameState::GameOver => 2,
    }
}

/// The mathematical picture of a session's scoreboard.
pub struct ScoreModel {
    pub value: int,
    pub hammers_created: int,
    pub bricks_created: int,
    pub bricks_broken: int,
    pub state: GameState,
    pub high: int,
}

/// The four things that change a scoreboard.
#[derive(Clone, Copy, Debug, PartialEq, Eq, Structural)]
pub enum ScoreEvent {
    Hammered,
    Bricked,
    BrickBroke,
    Reset,
}

impl ScoreModel {
    /// A session as it is first created: everything zero, a new game.
    pub open spec fn fresh() -> ScoreModel {
        ScoreModel {
            value: 0,
            hammers_created: 0,
            bricks_created: 0,
            bricks_broken: 0,
            state: GameState::NewGame,
            high: 0,
        }
    }

    /// Counters are never negative, and a finished game had bricks to break.
    pub open spec fn inv(self) -> bool {
        &&& self.value >= 0
        &&& self.hammers_created >= 0
        &&& self.bricks_created >= 0
        &&& self.bricks_broken >= 0
        &&& self.high >= 0
        &&& (self.state == GameState::GameOver ==> self.bricks_created > 0)
    }

    /// The session after a hammer was placed.
    pub open spec fn hammered(self) -> ScoreModel {
        ScoreModel {
            value: if self.value - 1 > 0 { self.value - 1 } else { 0 },
            hammers_created: self.hammers_created + 1,
            state: GameState::Started,
            ..self
        }
    }

    /// The session after a brick was placed.
    pub open spec fn bricked(self) -> ScoreModel {
        ScoreModel { bricks_created: self.bricks_created + 1, ..self }
    }

    /// The session after a brick was broken.
    pub open spec fn brick_broke(self) -> ScoreModel {
        ScoreModel {
            value: self.value + 1,
            bricks_broken: self.bricks_broken + 1,
            state: if self.bricks_broken + 1 == self.bricks_created {
                GameState::GameOver
            } else {
                self.state
            },
            ..self
        }
    }

    /// The session after a reset: the score is banked into the high score,
    /// everything else starts over.
    pub open spec fn reset(self) -> ScoreModel {
        ScoreModel {
            value: 0,
            hammers_created: 0,
            bricks_created: 0,
            bricks_broken: 0,
            state: GameState::NewGame,
            high: if self.high >= self.value { self.high } else { self.value },
        }
    }

    /// The session after one event.
    pub open spec fn step(self, e: ScoreEvent) -> ScoreModel {
        match e {
            ScoreEvent::Hammered => self.hammered(),
            ScoreEvent::Bricked => self.bricked(),
            ScoreEvent::BrickBroke => self.brick_broke(),
            ScoreEvent::Reset => self.reset(),
        }
    }

    /// The session after each event of `events`, in order.
    pub open spec fn run(self, events: Seq<ScoreEvent>) -> ScoreModel
        decreases events.len(),
    {
        if events.len() == 0 {
            self
        } else {
            self.step(events[0]).run(events.drop_first())
        }
    }
}

/// The scoreboard of one session.
#[derive(Debug)]
pub struct Score {
    pub value: u64,
    pub hammers_created: u64,
    pub bricks_created: u64,
    pub bricks_broken: u64,
    pub state: GameState,
    pub high: u64,
}

impl View for Score {
    type V = ScoreModel;

    open spec fn view(&self) -> ScoreModel {
        ScoreModel {
            value: self.value as int,
            hammers_created: self.hammers_created as int,
            bricks_created: self.bricks_created as int,
            bricks_broken: self.bricks_broken as int,
            state: self.state,
            high: self.high as int,
        }
    }
}

impl Score {
    /// The scoreboard's invariant: a finished game had bricks to break.
    pub open spec fn wf(&self) -> bool {
        self@.inv()
    }

    pub fn new() -> (r: Score)
        ensures
            r@ == ScoreModel::fresh(),
            r.wf(),
    {
        Score {
            value: 0,
            hammers_created: 0,
            bricks_created: 0,
            bricks_broken: 0,
            state: GameState::NewGame,
            high: 0,
        }
    }

    /// A hammer was placed: the score drops by one but not below zero, and
    /// the game is under way.
    pub fn hammered(&mut self)
        requires
            old(self).hammers_created < u64::MAX,
        ensures
            final(self)@ == old(self)@.hammered(),
            old(self).wf() ==> final(self).wf(),
    {
        self.value = if self.value > 0 { self.value - 1 } else { 0 };
        self.hammers_created = self.hammers_created + 1;
        self.state = GameState::Started;
    }

    /// A brick was placed.
    pub fn bricked(&mut self)
        requires
            old(self).bricks_created < u64::MAX,
        ensures
            final(self)@ == old(self)@.bricked(),
            old(self).wf() ==> final(self).wf(),
    {
        self.bricks_created = self.bricks_created + 1;
    }

    /// A brick was broken: one point more, and the game is over once every
    /// placed brick is gone.
    pub fn brick_broke(&mut self)
        requires
            old(self).value < u64::MAX,
            old(self).bricks_broken < u64::MAX,
        ensures
            final(self)@ == old(self)@.brick_broke(),
            old(self).wf() ==> final(self).wf(),
    {
        self.value = self.value + 1;
        self.bricks_broken = self.bricks_broken + 1;
        if self.bricks_broken == self.bricks_created {
            self.state = GameState::GameOver;
        }
    }

    /// Starts a new game, keeping the best score seen so far.
    pub fn reset(&mut self)
        ensures
            final(self)@ == old(self)@.reset(),
            old(self).wf() ==> final(self).wf(),
    {
        self.high = if self.high >= self.value { self.high } else { self.value };
        self.value = 0;
        self.hammers_created = 0;
        self.bricks_created = 0;
        self.bricks_broken = 0;
        self.state = GameState::NewGame;
    }
}

impl Default for Score {
    fn default() -> (r: Score)
        ensures
            r@ == ScoreModel::fresh(),
    {
        Score::new()
    }
}

/// Every event keeps a scoreboard well formed.
pub proof fn lemma_step_keeps_inv(s: ScoreModel, e: ScoreEvent)
    requires
        s.inv(),
    ensures
        s.step(e).inv(),
{
}

/// Any sequence of events keeps a scoreboard well formed.
pub proof fn lemma_run_keeps_inv(s: ScoreModel, events: Seq<ScoreEvent>)
    requires
        s.inv(),
    ensures
        s.run(events).inv(),
    decreases events.len(),
{
    if events.len() > 0 {
        lemma_step_keeps_inv(s, events[0]);
        lemma_run_keeps_inv(s.step(events[0]), events.drop_first());
    }
}

/// Whatever events a session goes through from its start, its score is
/// never negative.
pub proof fn lemma_score_never_negative(events: Seq<ScoreEvent>)
    ensures
        ScoreModel::fresh().run(events).value >= 0,
{
    lemma_run_keeps_inv(ScoreModel::fresh(), events);
}

/// A reset always leads to a new game, doing it twice changes the phase no
/// further, and the high score becomes the larger of the old high score and
/// the score just before the reset.
pub proof fn lemma_reset(s: ScoreModel)
    ensures
        s.reset().state == GameState::NewGame,
        s.reset().reset().state == s.reset().state,
        s.reset().high == if s.high >= s.value { s.high } else { s.value },
        s.reset().value == 0,
        s.reset().hammers_created == 0,
        s.reset().bricks_created == 0,
        s.reset().bricks_broken == 0,
{
}

/// A game that is over had at least one brick placed.
pub proof fn lemma_game_over_needs_bricks(events: Seq<ScoreEvent>)
    ensures
        ScoreModel::fresh().run(events).state == GameState::GameOver
            ==> ScoreModel::fresh().run(events).bricks_created > 0,
{
    lemma_run_keeps_inv(ScoreModel::fresh(), events);
}

proof fn lemma_run_without_bricks(s: ScoreModel, events: Seq<ScoreEvent>)
    requires
        s.inv(),
        s.bricks_created == 0,
        forall|i: int| 0 <= i < events.len() ==> events[i] != ScoreEvent::Bricked,
    ensures
        s.run(events).bricks_created == 0,
    decreases events.len(),
{
    if events.len() > 0 {
        lemma_step_keeps_inv(s, events[0]);
        let rest = events.drop_first();
        assert forall|i: int| 0 <= i < rest.len() implies rest[i] != ScoreEvent::Bricked by {
            assert(rest[i] == events[i + 1]);
        }
        lemma_run_without_bricks(s.step(events[0]), rest);
    }
}

/// A session in which no brick is ever placed never reaches the end of a
/// game.
pub proof fn lemma_no_bricks_no_game_over(events: Seq<ScoreEvent>)
    requires
        forall|i: int| 0 <= i < events.len() ==> events[i] != ScoreEvent::Bricked,
    ensures
        ScoreModel::fresh().run(events).state != GameState::GameOver,
{
    lemma_run_keeps_inv(ScoreModel::fresh(), events);
    lemma_run_without_bricks(ScoreModel::fresh(), events);
}

} // verus!
