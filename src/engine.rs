use vstd::prelude::*;

verus! {

/// Milliseconds in one minute: the beat interval at one beat per minute.
pub const MS_PER_MINUTE: u64 = 60000;

/// Number of beats in a bar.
pub const BEATS_PER_BAR: u32 = 4;

/// A command decoded from one keystroke, consumed once per tick.
#[derive(Clone, Copy, Debug, PartialEq, Eq, Structural)]
pub enum Command {
    Increase,
    Decrease,
    Quit,
    Idle,
}

/// Which of the two click sounds a beat gets.
#[derive(Clone, Copy, Debug, PartialEq, Eq, Structural)]
pub enum ClickRole {
    Accent,
    Regular,
}

/// Whether the tick loop goes on after a command was applied.
#[derive(Clone, Copy, Debug, PartialEq, Eq, Structural)]
pub enum Flow {
    Continue,
    Stop,
}

/// The mathematical state of the engine: tempo in beats per minute and
/// position within the bar.
pub struct BeatState {
    pub tempo: int,
    pub position: int,
}

/// What one tick does before it waits: what is shown, which click sounds,
/// and how long the tick lasts.
#[derive(Clone, Copy, Debug, PartialEq, Eq, Structural)]
pub struct TickPlan {
    pub tempo: u32,
    pub position: u32,
    pub role: ClickRole,
    pub interval_ms: u64,
}

pub open spec fn valid_tempo(tempo: int) -> bool {
    1 <= tempo <= u32::MAX
}

pub open spec fn valid_position(position: int) -> bool {
    1 <= position <= BEATS_PER_BAR
}

pub open spec fn valid_state(s: BeatState) -> bool {
    valid_tempo(s.tempo) && valid_position(s.position)
}

/// The beat interval, in milliseconds, at `tempo` beats per minute.
pub open spec fn interval_of(tempo: int) -> int {
    MS_PER_MINUTE as int / tempo
}

/// The position that follows `position` in the bar, wrapping from the last
/// beat to the first.
pub open spec fn next_position(position: int) -> int {
    position % (BEATS_PER_BAR as int) + 1
}

/// The click of a position: the accent on the first beat of the bar.
pub open spec fn role_of(position: int) -> ClickRole {
    if position == 1 {
        ClickRole::Accent
    } else {
        ClickRole::Regular
    }
}

/// The tempo after `cmd`: one up (held at the largest `u32`), one down (held
/// at 1), or unchanged.
pub open spec fn tempo_after(tempo: int, cmd: Command) -> int {
    match cmd {
        Command::Increase => if tempo < u32::MAX {
            tempo + 1
        } else {
            tempo
        },
        Command::Decrease => if tempo > 1 {
            tempo - 1
        } else {
            tempo
        },
        _ => tempo,
    }
}

pub open spec fn flow_of(cmd: Command) -> Flow {
    if cmd == Command::Quit {
        Flow::Stop
    } else {
        Flow::Continue
    }
}

/// The state once the position has moved on by one beat.
pub open spec fn advanced(s: BeatState) -> BeatState {
    BeatState { tempo: s.tempo, position: next_position(s.position) }
}

/// The state once `cmd` has been applied.
pub open spec fn applied(s: BeatState, cmd: Command) -> BeatState {
    BeatState { tempo: tempo_after(s.tempo, cmd), position: s.position }
}

/// The state after a whole tick whose poll returned `cmd`.
pub open spec fn state_after(s: BeatState, cmd: Command) -> BeatState {
    applied(advanced(s), cmd)
}

/// The state before tick `i` when the polls of the earlier ticks returned
/// `cmds[0]`, ..., `cmds[i - 1]`.
pub open spec fn state_at(s: BeatState, cmds: Seq<Command>, i: int) -> BeatState
    decreases i,
{
    if i <= 0 {
        s
    } else {
        state_after(state_at(s, cmds, i - 1), cmds[i - 1])
    }
}

/// Ticks that run from tick `i` on: up to and including the first tick whose
/// poll returned `Quit`, or until the commands run out.
pub open spec fn ticks_from(cmds: Seq<Command>, i: int) -> int
    decreases cmds.len() - i,
{
    if i < 0 || i >= cmds.len() {
        cmds.len() as int
    } else if cmds[i] == Command::Quit {
        i + 1
    } else {
        ticks_from(cmds, i + 1)
    }
}

/// Number of ticks that run when the polls return `cmds`, one per tick.
pub open spec fn tick_count(cmds: Seq<Command>) -> int {
    ticks_from(cmds, 0)
}

pub open spec fn plan_of(s: BeatState) -> TickPlan {
    TickPlan {
        tempo: s.tempo as u32,
        position: s.position as u32,
        role: role_of(s.position),
        interval_ms: interval_of(s.tempo) as u64,
    }
}

/// Milliseconds between two ticks at `tempo` beats per minute, rounded down.
pub fn beat_interval_ms(tempo: u32) -> (r: u64)
    requires
        tempo >= 1,
    ensures
        r == interval_of(tempo as int),
{
    MS_PER_MINUTE / (tempo as u64)
}

/// The click that sounds at `position`.
pub fn click_role(position: u32) -> (r: ClickRole)
    ensures
        r == role_of(position as int),
{
    if position == 1 {
        ClickRole::Accent
    } else {
        ClickRole::Regular
    }
}

/// The beat interval never grows as the tempo rises.
pub proof fn lemma_interval_non_increasing(t1: int, t2: int)
    requires
        1 <= t1 <= t2,
    ensures
        interval_of(t2) <= interval_of(t1),
{
    let q2: int = 60000int / t2;
    assert(q2 * t2 <= 60000) by (nonlinear_arith)
        requires
            q2 == 60000int / t2,
            t2 >= 1,
    ;
    assert(q2 * t1 <= 60000) by (nonlinear_arith)
        requires
            q2 * t2 <= 60000,
            1 <= t1 <= t2,
            q2 >= 0,
    ;
    assert(q2 <= 60000int / t1) by (nonlinear_arith)
        requires
            q2 * t1 <= 60000,
            t1 >= 1,
            q2 >= 0,
    ;
}

/// The beat interval strictly falls from tempo `t1` to a higher tempo `t2`
/// whenever the exact intervals `60000 / t1` and `60000 / t2` lie at least one
/// millisecond apart, that is when `t1 * t2 <= 60000 * (t2 - t1)`: between any
/// two tempos up to 244, and between neighbouring tempos while
/// `t * (t + 1) <= 60000`. Further up, rounding down can give two tempos the
/// same interval (1001 and 1002 both give 59).
pub proof fn lemma_interval_strictly_decreasing(t1: int, t2: int)
    requires
        1 <= t1 < t2,
        t1 * t2 <= 60000 * (t2 - t1),
    ensures
        interval_of(t2) < interval_of(t1),
{
    let q2: int = 60000int / t2;
    assert(q2 * t2 <= 60000) by (nonlinear_arith)
        requires
            q2 == 60000int / t2,
            t2 >= 1,
    ;
    assert((q2 + 1) * t1 * t2 <= 60000 * t2) by (nonlinear_arith)
        requires
            q2 * t2 <= 60000,
            t1 * t2 <= 60000 * (t2 - t1),
            t1 >= 1,
    ;
    assert((q2 + 1) * t1 <= 60000) by (nonlinear_arith)
        requires
            (q2 + 1) * t1 * t2 <= 60000 * t2,
            t2 >= 1,
    ;
    assert(q2 + 1 <= 60000int / t1) by (nonlinear_arith)
        requires
            (q2 + 1) * t1 <= 60000,
            t1 >= 1,
            q2 >= 0,
    ;
}

/// Every tick keeps the state valid, whatever the commands.
pub proof fn lemma_state_at_valid(s: BeatState, cmds: Seq<Command>, i: int)
    requires
        valid_state(s),
    ensures
        valid_state(state_at(s, cmds, i)),
    decreases i,
{
    if i > 0 {
        lemma_state_at_valid(s, cmds, i - 1);
    }
}

/// The position cycles through the bar with period four, whatever the
/// commands and so whatever the tempo changes: before tick `i` it is
/// `(p - 1 + i) % 4 + 1` for a start at position `p`, so from the first beat
/// the positions run 1, 2, 3, 4, 1, 2, 3, 4, ...
pub proof fn lemma_positions_cycle(s: BeatState, cmds: Seq<Command>, i: int)
    requires
        valid_position(s.position),
        i >= 0,
    ensures
        state_at(s, cmds, i).position == (s.position - 1 + i) % 4 + 1,
    decreases i,
{
    if i > 0 {
        lemma_positions_cycle(s, cmds, i - 1);
        let p = s.position - 1 + i - 1;
        assert(((p % 4 + 1) % 4 + 1) == (p + 1) % 4 + 1) by {
            assert(p >= 0);
        }
    }
}

/// Decrease at tempo 1 changes nothing: the tempo stays at its floor.
pub proof fn lemma_decrease_at_floor(s: BeatState)
    requires
        s.tempo == 1,
    ensures
        applied(s, Command::Decrease) == s,
        state_after(s, Command::Decrease).tempo == 1,
{
}

/// Away from the floor, Decrease then Increase gives back the tempo, and so
/// does Increase then Decrease below the largest tempo (where Increase holds).
pub proof fn lemma_increase_decrease_inverse(tempo: int)
    requires
        2 <= tempo <= u32::MAX,
    ensures
        tempo_after(tempo_after(tempo, Command::Decrease), Command::Increase) == tempo,
        tempo < u32::MAX ==> tempo_after(tempo_after(tempo, Command::Increase), Command::Decrease)
            == tempo,
{
}

/// The accent sounds on the first beat of the bar and the regular click on
/// the three others.
pub proof fn lemma_click_roles(position: int)
    requires
        valid_position(position),
    ensures
        role_of(position) == ClickRole::Accent <==> position == 1,
        role_of(1) == ClickRole::Accent,
        role_of(2) == ClickRole::Regular,
        role_of(3) == ClickRole::Regular,
        role_of(4) == ClickRole::Regular,
{
}

proof fn lemma_ticks_from_first_quit(cmds: Seq<Command>, i: int, k: int)
    requires
        0 <= i <= k < cmds.len(),
        cmds[k] == Command::Quit,
        forall|j: int| 0 <= j < k ==> cmds[j] != Command::Quit,
    ensures
        ticks_from(cmds, i) == k + 1,
    decreases k - i,
{
    if i < k {
        lemma_ticks_from_first_quit(cmds, i + 1, k);
    }
}

proof fn lemma_state_at_agree(s: BeatState, a: Seq<Command>, b: Seq<Command>, n: int)
    requires
        forall|j: int| 0 <= j < n ==> a[j] == b[j],
    ensures
        state_at(s, a, n) == state_at(s, b, n),
    decreases n,
{
    if n > 0 {
        lemma_state_at_agree(s, a, b, n - 1);
    }
}

/// A Quit polled at tick `k` ends the loop with that tick: `k + 1` ticks run,
/// and the commands after it change neither the number of ticks nor the
/// final state.
pub proof fn lemma_quit_ends_run(s: BeatState, cmds: Seq<Command>, rest: Seq<Command>, k: int)
    requires
        0 <= k < cmds.len(),
        cmds[k] == Command::Quit,
        forall|j: int| 0 <= j < k ==> cmds[j] != Command::Quit,
    ensures
        tick_count(cmds) == k + 1,
        tick_count(cmds.subrange(0, k + 1) + rest) == k + 1,
        state_at(s, cmds.subrange(0, k + 1) + rest, k + 1) == state_at(s, cmds, k + 1),
{
    let other = cmds.subrange(0, k + 1) + rest;
    assert(forall|j: int| 0 <= j <= k ==> other[j] == cmds[j]);
    lemma_ticks_from_first_quit(cmds, 0, k);
    lemma_ticks_from_first_quit(other, 0, k);
    lemma_state_at_agree(s, other, cmds, k + 1);
}

/// The beat engine: owns the tempo and the position within the bar.
pub struct Metronome {
    tempo: u32,
    position: u32,
}

impl View for Metronome {
    type V = BeatState;

    closed spec fn view(&self) -> BeatState {
        BeatState { tempo: self.tempo as int, position: self.position as int }
    }
}

impl Metronome {
    pub open spec fn wf(&self) -> bool {
        valid_state(self@)
    }

    /// An engine at `tempo`, on the first beat of the bar.
    pub fn new(tempo: u32) -> (r: Self)
        requires
            tempo >= 1,
        ensures
            r@ == (BeatState { tempo: tempo as int, position: 1 }),
            r.wf(),
    {
        Metronome { tempo, position: 1 }
    }

    pub fn tempo(&self) -> (r: u32)
        ensures
            r == self@.tempo,
    {
        self.tempo
    }

    pub fn position(&self) -> (r: u32)
        ensures
            r == self@.position,
    {
        self.position
    }

    /// Milliseconds that the current tick lasts.
    pub fn interval_ms(&self) -> (r: u64)
        requires
            self.wf(),
        ensures
            r == interval_of(self@.tempo),
    {
        beat_interval_ms(self.tempo)
    }

    /// The click of the current beat.
    pub fn click(&self) -> (r: ClickRole)
        ensures
            r == role_of(self@.position),
    {
        click_role(self.position)
    }

    /// What the current tick shows, sounds and waits.
    pub fn plan(&self) -> (r: TickPlan)
        requires
            self.wf(),
        ensures
            r == plan_of(self@),
    {
        TickPlan {
            tempo: self.tempo,
            position: self.position,
            role: self.click(),
            interval_ms: self.interval_ms(),
        }
    }

    /// Moves on to the next beat of the bar.
    pub fn advance(&mut self)
        requires
            old(self).wf(),
        ensures
            final(self)@ == advanced(old(self)@),
            final(self).wf(),
    {
        self.position = if self.position < BEATS_PER_BAR {
            self.position + 1
        } else {
            1
        };
    }

    /// Applies one polled command; `Stop` exactly when it is `Quit`.
    pub fn apply(&mut self, cmd: Command) -> (r: Flow)
        requires
            old(self).wf(),
        ensures
            final(self)@ == applied(old(self)@, cmd),
            final(self).wf(),
            r == flow_of(cmd),
    {
        match cmd {
            Command::Increase => {
                if self.tempo < u32::MAX {
                    self.tempo = self.tempo + 1;
                }
                Flow::Continue
            },
            Command::Decrease => {
                if self.tempo > 1 {
                    self.tempo = self.tempo - 1;
                }
                Flow::Continue
            },
            Command::Quit => Flow::Stop,
            Command::Idle => Flow::Continue,
        }
    }

    /// Ends the current tick: moves on to the next beat, then applies the
    /// command that the poll returned.
    pub fn finish_tick(&mut self, cmd: Command) -> (r: Flow)
        requires
            old(self).wf(),
        ensures
            final(self)@ == state_after(old(self)@, cmd),
            final(self).wf(),
            r == flow_of(cmd),
    {
        self.advance();
        self.apply(cmd)
    }

    /// Runs the tick loop with `cmds[i]` as what the poll of tick `i` returns.
    /// Stops after the tick whose poll returned `Quit`, or when the commands
    /// run out; returns the plan of every tick that ran.
    pub fn run(&mut self, cmds: &Vec<Command>) -> (ticks: Vec<TickPlan>)
        requires
            old(self).wf(),
        ensures
            ticks@.len() == tick_count(cmds@),
            forall|i: int|
                0 <= i < ticks@.len() ==> ticks@[i] == plan_of(#[trigger] state_at(old(self)@, cmds@, i)),
            final(self)@ == state_at(old(self)@, cmds@, tick_count(cmds@)),
            final(self).wf(),
    {
        let ghost start = self@;
        let mut ticks: Vec<TickPlan> = Vec::new();
        let mut i: usize = 0;
        while i < cmds.len()
            invariant
                self.wf(),
                start == old(self)@,
                i <= cmds@.len(),
                ticks@.len() == i,
                self@ == state_at(start, cmds@, i as int),
                ticks_from(cmds@, i as int) == tick_count(cmds@),
                forall|j: int| 0 <= j < i ==> cmds@[j] != Command::Quit,
                forall|j: int|
                    0 <= j < i ==> ticks@[j] == plan_of(#[trigger] state_at(start, cmds@, j)),
            decreases cmds@.len() - i,
        {
            ticks.push(self.plan());
            let cmd = cmds[i];
            let flow = self.finish_tick(cmd);
            i = i + 1;
            if flow == Flow::Stop {
                return ticks;
            }
        }
        ticks
    }
}

} // verus!
