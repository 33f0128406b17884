use vstd::prelude::*;

verus! {

/// The eight phases of a player turn, always taken in this order.
#[derive(Clone, Copy, Debug, PartialEq, Eq, Structural)]
pub enum Phase {
    Rally,
    PrepFire,
    Movement,
    DefensiveFire,
    AdvancingFire,
    Rout,
    Advance,
    CloseCombat,
}

/// One of the two players. `First` attacks in the first game turn.
#[derive(Clone, Copy, Debug, PartialEq, Eq, Structural)]
pub enum Side {
    First,
    Second,
}

#[derive(Clone, Copy, Debug, PartialEq, Eq, Structural)]
pub enum PhaseError {
    /// The last game turn of the scenario is over.
    AlreadyComplete,
}

pub open spec fn opponent(s: Side) -> Side {
    match s {
        Side::First => Side::Second,
        Side::Second => Side::First,
    }
}

/// Position of a phase in the sequence.
pub open spec fn phase_index(p: Phase) -> nat {
    match p {
        Phase::Rally => 0,
        Phase::PrepFire => 1,
        Phase::Movement => 2,
        Phase::DefensiveFire => 3,
        Phase::AdvancingFire => 4,
        Phase::Rout => 5,
        Phase::Advance => 6,
        Phase::CloseCombat => 7,
    }
}

/// The phase that follows `p` within a player turn (CloseCombat is last).
pub open spec fn next_phase(p: Phase) -> Phase {
    match p {
        Phase::Rally => Phase::PrepFire,
        Phase::PrepFire => Phase::Movement,
        Phase::Movement => Phase::DefensiveFire,
        Phase::DefensiveFire => Phase::AdvancingFire,
        Phase::AdvancingFire => Phase::Rout,
        Phase::Rout => Phase::Advance,
        Phase::Advance => Phase::CloseCombat,
        Phase::CloseCombat => Phase::CloseCombat,
    }
}

impl Side {
    pub fn other(&self) -> (r: Side)
        ensures
            r == opponent(*self),
    {
        match self {
            Side::First => Side::Second,
            Side::Second => Side::First,
        }
    }
}

/// Where play stands: the phase, whose player turn it is, and the game turn.
///
/// A game turn is two player turns: first the current attacker goes through
/// the eight phases, then the defender. After both, the roles swap and the
/// turn counter goes up by one.
#[derive(Clone, Copy, Debug, PartialEq, Eq, Structural)]
pub struct TurnState {
    pub phase: Phase,
    pub attacker: Side,
    /// Whether the defender's player turn of this game turn is under way.
    pub second_pass: bool,
    pub turn: u32,
    pub limit: u32,
    pub complete: bool,
}

impl TurnState {
    pub open spec fn wf(self) -> bool {
        &&& 1 <= self.turn <= self.limit
        &&& self.complete ==> (self.turn == self.limit && self.second_pass && self.phase
            == Phase::CloseCombat)
    }

    pub open spec fn active(self) -> Side {
        if self.second_pass {
            opponent(self.attacker)
        } else {
            self.attacker
        }
    }

    /// The state after the CloseCombat phase of a player turn is finished.
    pub open spec fn after_pass(self) -> TurnState {
        if !self.second_pass {
            TurnState { phase: Phase::Rally, second_pass: true, ..self }
        } else if self.turn >= self.limit {
            TurnState { complete: true, ..self }
        } else {
            TurnState {
                phase: Phase::Rally,
                attacker: opponent(self.attacker),
                second_pass: false,
                turn: (self.turn + 1) as u32,
                ..self
            }
        }
    }

    /// The state after one phase advance.
    pub open spec fn step(self) -> TurnState {
        if self.phase == Phase::CloseCombat {
            self.after_pass()
        } else {
            TurnState { phase: next_phase(self.phase), ..self }
        }
    }

    /// The state after `n` phase advances, stopping once the scenario is complete.
    pub open spec fn steps(self, n: nat) -> TurnState
        decreases n,
    {
        if n == 0 || self.complete {
            self
        } else {
            self.step().steps((n - 1) as nat)
        }
    }

    pub open spec fn new_spec(limit: u32) -> TurnState {
        TurnState {
            phase: Phase::Rally,
            attacker: Side::First,
            second_pass: false,
            turn: 1,
            limit,
            complete: false,
        }
    }

    /// The start of a scenario of `limit` game turns.
    pub fn new(limit: u32) -> (s: TurnState)
        requires
            limit >= 1,
        ensures
            s.wf(),
            s == TurnState::new_spec(limit),
    {
        TurnState {
            phase: Phase::Rally,
            attacker: Side::First,
            second_pass: false,
            turn: 1,
            limit,
            complete: false,
        }
    }

    pub fn current_phase(&self) -> (r: Phase)
        ensures
            r == self.phase,
    {
        self.phase
    }

    pub fn active_side(&self) -> (r: Side)
        ensures
            r == self.active(),
    {
        if self.second_pass {
            self.attacker.other()
        } else {
            self.attacker
        }
    }

    pub fn is_complete(&self) -> (r: bool)
        ensures
            r == self.complete,
    {
        self.complete
    }
}

/// Ends a player turn: hands play to the defender, or, after both player
/// turns, swaps the roles and starts the next game turn, or, after the last
/// game turn, marks the scenario complete.
pub fn update_scenario_turn(state: &mut TurnState)
    requires
        old(state).wf(),
        !old(state).complete,
        old(state).phase == Phase::CloseCombat,
    ensures
        *final(state) == old(state).after_pass(),
        final(state).wf(),
{
    if !state.second_pass {
        state.phase = Phase::Rally;
        state.second_pass = true;
    } else if state.turn >= state.limit {
        state.complete = true;
    } else {
        state.phase = Phase::Rally;
        state.attacker = state.attacker.other();
        state.second_pass = false;
        state.turn = state.turn + 1;
    }
}

/// Moves play on by one phase. Fails, changing nothing, once the scenario
/// is complete.
pub fn game_loop(state: &mut TurnState) -> (r: Result<Phase, PhaseError>)
    requires
        old(state).wf(),
    ensures
        final(state).wf(),
        old(state).complete ==> r == Err::<Phase, PhaseError>(PhaseError::AlreadyComplete)
            && *final(state) == *old(state),
        !old(state).complete ==> *final(state) == old(state).step() && r == Ok::<
            Phase,
            PhaseError,
        >(final(state).phase),
{
    if state.complete {
        return Err(PhaseError::AlreadyComplete);
    }
    match state.phase {
        Phase::Rally => state.phase = Phase::PrepFire,
        Phase::PrepFire => state.phase = Phase::Movement,
        Phase::Movement => state.phase = Phase::DefensiveFire,
        Phase::DefensiveFire => state.phase = Phase::AdvancingFire,
        Phase::AdvancingFire => state.phase = Phase::Rout,
        Phase::Rout => state.phase = Phase::Advance,
        Phase::Advance => state.phase = Phase::CloseCombat,
        Phase::CloseCombat => update_scenario_turn(state),
    }
    Ok(state.phase)
}

/// Phases only move forward: within a player turn every advance leaves the
/// roles and the turn counter alone and goes to the next phase in order.
pub proof fn lemma_phase_forward(s: TurnState)
    requires
        s.wf(),
        !s.complete,
        s.phase != Phase::CloseCombat,
    ensures
        phase_index(s.step().phase) == phase_index(s.phase) + 1,
        s.step().turn == s.turn,
        s.step().attacker == s.attacker,
        s.step().active() == s.active(),
{
}

/// A phase advance raises the turn counter by one exactly when it ends the
/// second player turn of a game turn below the limit, and leaves it alone
/// otherwise.
pub proof fn lemma_turn_counter(s: TurnState)
    requires
        s.wf(),
        !s.complete,
    ensures
        s.phase == Phase::CloseCombat && s.second_pass && s.turn < s.limit ==> s.step().turn == s.turn
            + 1 && s.step().attacker == opponent(s.attacker) && s.step().phase == Phase::Rally,
        !(s.phase == Phase::CloseCombat && s.second_pass && s.turn < s.limit) ==> s.step().turn
            == s.turn && s.step().attacker == s.attacker,
{
}

/// After the attacker's CloseCombat the defender becomes active at Rally;
/// after the defender's, the roles swap, play resumes at Rally, and the turn
/// counter goes up by exactly one. A full game turn of sixteen advances
/// raises the counter once and never in between.
pub proof fn lemma_role_swap(s: TurnState)
    requires
        s.wf(),
        !s.complete,
        s.phase == Phase::Rally,
        !s.second_pass,
        s.turn < s.limit,
    ensures
        s.steps(8).phase == Phase::Rally,
        s.steps(8).active() == opponent(s.active()),
        s.steps(8).turn == s.turn,
        s.steps(16).phase == Phase::Rally,
        s.steps(16).attacker == opponent(s.attacker),
        s.steps(16).active() == opponent(s.active()),
        s.steps(16).turn == s.turn + 1,
        forall|k: nat| k < 16 ==> #[trigger] s.steps(k).turn == s.turn,
{
    reveal_with_fuel(TurnState::steps, 17);
    assert forall|k: nat| k < 16 implies #[trigger] s.steps(k).turn == s.turn by {
        reveal_with_fuel(TurnState::steps, 17);
    }
}

} // verus!
