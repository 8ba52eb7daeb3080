//! The scripted dialogue: a forward-only sequencer that queues voiced
//! speech cues when its conditions are met, and a player that shows one cue
//! at a time.

use vstd::prelude::*;
use std::collections::VecDeque;

verus! {

/// The script's progress. It only ever moves forward, one step at a time.
#[derive(Clone, Copy, Debug, PartialEq, Eq, Structural)]
pub enum DialogueState {
    Hello,
    Tutorial,
    Arrive,
    EnterHouse,
    Finished,
}

/// A voiced line of the script.
#[derive(Clone, Copy, Debug, PartialEq, Eq, Hash, Structural)]
pub enum SpeechCue {
    Hello1,
    Hello2,
    Hello3,
    Tutorial1,
    Tutorial2,
    Tutorial3,
    Arrive1,
    EnterHouse1,
}

/// The name a cue is known by.
pub open spec fn cue_key(c: SpeechCue) -> Seq<char> {
    match c {
        SpeechCue::Hello1 => "hello_1"@,
        SpeechCue::Hello2 => "hello_2"@,
        SpeechCue::Hello3 => "hello_3"@,
        SpeechCue::Tutorial1 => "tutorial_1"@,
        SpeechCue::Tutorial2 => "tutorial_2"@,
        SpeechCue::Tutorial3 => "tutorial_3"@,
        SpeechCue::Arrive1 => "arrive_1"@,
        SpeechCue::EnterHouse1 => "enter_house_1"@,
    }
}

/// The caption shown with a cue.
pub open spec fn cue_text(c: SpeechCue) -> Seq<char> {
    match c {
        SpeechCue::Hello1 => "Hello, I'm Santa!"@,
        SpeechCue::Hello2 => "Help me distribute all the presents!"@,
        SpeechCue::Hello3 => "And do not unwrap them yourself!"@,
        SpeechCue::Tutorial1 => "But first, you have to walk to the right."@,
        SpeechCue::Tutorial2 => "To do that, press <D> on your keyboard."@,
        SpeechCue::Tutorial3 => "Do it now!"@,
        SpeechCue::Arrive1 => "You found the door! Press <F> when being close to enter the house!"@,
        SpeechCue::EnterHouse1 => "You are entering the house!"@,
    }
}

impl SpeechCue {
    /// Every cue, in the order their audio is loaded.
    pub fn all() -> (r: Vec<SpeechCue>)
        ensures
            r@ == seq![
                SpeechCue::Arrive1,
                SpeechCue::EnterHouse1,
                SpeechCue::Hello1,
                SpeechCue::Hello2,
                SpeechCue::Hello3,
                SpeechCue::Tutorial1,
                SpeechCue::Tutorial2,
                SpeechCue::Tutorial3,
            ],
    {
        let r = vec![
            SpeechCue::Arrive1,
            SpeechCue::EnterHouse1,
            SpeechCue::Hello1,
            SpeechCue::Hello2,
            SpeechCue::Hello3,
            SpeechCue::Tutorial1,
            SpeechCue::Tutorial2,
            SpeechCue::Tutorial3,
        ];
        assert(r@ =~= seq![
            SpeechCue::Arrive1,
            SpeechCue::EnterHouse1,
            SpeechCue::Hello1,
            SpeechCue::Hello2,
            SpeechCue::Hello3,
            SpeechCue::Tutorial1,
            SpeechCue::Tutorial2,
            SpeechCue::Tutorial3,
        ]);
        r
    }

    /// The name the cue is known by.
    pub fn key(&self) -> (r: &'static str)
        ensures
            r@ == cue_key(*self),
    {
        match self {
            SpeechCue::Hello1 => "hello_1",
            SpeechCue::Hello2 => "hello_2",
            SpeechCue::Hello3 => "hello_3",
            SpeechCue::Tutorial1 => "tutorial_1",
            SpeechCue::Tutorial2 => "tutorial_2",
            SpeechCue::Tutorial3 => "tutorial_3",
            SpeechCue::Arrive1 => "arrive_1",
            SpeechCue::EnterHouse1 => "enter_house_1",
        }
    }

    /// The audio file of the cue: `speech/<name>.ogg`.
    pub fn path(&self) -> (r: &'static str)
        ensures
            r@ == "speech/"@ + cue_key(*self) + ".ogg"@,
    {
        proof {
            reveal_strlit("speech/");
            reveal_strlit(".ogg");
        }
        let r = match self {
            SpeechCue::Hello1 => {
                proof {
                    reveal_strlit("speech/hello_1.ogg");
                    reveal_strlit("hello_1");
                }
                "speech/hello_1.ogg"
            },
            SpeechCue::Hello2 => {
                proof {
                    reveal_strlit("speech/hello_2.ogg");
                    reveal_strlit("hello_2");
                }
                "speech/hello_2.ogg"
            },
            SpeechCue::Hello3 => {
                proof {
                    reveal_strlit("speech/hello_3.ogg");
                    reveal_strlit("hello_3");
                }
                "speech/hello_3.ogg"
            },
            SpeechCue::Tutorial1 => {
                proof {
                    reveal_strlit("speech/tutorial_1.ogg");
                    reveal_strlit("tutorial_1");
                }
                "speech/tutorial_1.ogg"
            },
            SpeechCue::Tutorial2 => {
                proof {
                    reveal_strlit("speech/tutorial_2.ogg");
                    reveal_strlit("tutorial_2");
                }
                "speech/tutorial_2.ogg"
            },
            SpeechCue::Tutorial3 => {
                proof {
                    reveal_strlit("speech/tutorial_3.ogg");
                    reveal_strlit("tutorial_3");
                }
                "speech/tutorial_3.ogg"
            },
            SpeechCue::Arrive1 => {
                proof {
                    reveal_strlit("speech/arrive_1.ogg");
                    reveal_strlit("arrive_1");
                }
                "speech/arrive_1.ogg"
            },
            SpeechCue::EnterHouse1 => {
                proof {
                    reveal_strlit("speech/enter_house_1.ogg");
                    reveal_strlit("enter_house_1");
                }
                "speech/enter_house_1.ogg"
            },
        };
        assert(r@ =~= "speech/"@ + cue_key(*self) + ".ogg"@);
        r
    }

    /// The caption shown with the cue.
    pub fn text(&self) -> (r: &'static str)
        ensures
            r@ == cue_text(*self),
    {
        match self {
            SpeechCue::Hello1 => "Hello, I'm Santa!",
            SpeechCue::Hello2 => "Help me distribute all the presents!",
            SpeechCue::Hello3 => "And do not unwrap them yourself!",
            SpeechCue::Tutorial1 => "But first, you have to walk to the right.",
            SpeechCue::Tutorial2 => "To do that, press <D> on your keyboard.",
            SpeechCue::Tutorial3 => "Do it now!",
            SpeechCue::Arrive1 => "You found the door! Press <F> when being close to enter the house!",
            SpeechCue::EnterHouse1 => "You are entering the house!",
        }
    }
}

/// The cue on screen.
#[derive(Clone, Copy, Debug, PartialEq, Eq, Structural)]
pub struct ActiveDialogue(pub SpeechCue);

/// Cues waiting to be shown, oldest first.
#[derive(Debug)]
pub struct DialogueQueue {
    backlog: VecDeque<SpeechCue>,
}

/// Time since the current cue started (or since the last dismissal), in
/// microseconds. It repeats with a period of 99 999 999 seconds.
#[derive(Clone, Copy, Debug, PartialEq, Eq, Structural)]
pub struct DialogueTimer {
    elapsed_us: u64,
}

/// What the sequencer's conditions read from the world in one tick.
#[derive(Clone, Copy, Debug, PartialEq, Eq, Structural)]
pub struct DialogueConditions {
    /// Every asset finished loading.
    pub assets_ready: bool,
    /// The player stands on the ground.
    pub on_ground: bool,
    /// The player's `x`, in sub-pixels.
    pub player_x: i64,
    /// The indoors level is active.
    pub indoors: bool,
}

/// The period of the dialogue timer, in microseconds.
pub const DIALOGUE_TIMER_PERIOD_US: u64 = 99_999_999_000_000;

/// How long the tutorial waits after the greeting: five seconds.
pub const TUTORIAL_DELAY_US: u64 = 5_000_000;

/// How long the arrival line waits after the tutorial: one second.
pub const ARRIVE_DELAY_US: u64 = 1_000_000;

/// The `x` from which the player has arrived near the house: 100 px.
pub const ARRIVE_X: i64 = 360000;

/// The position of a state in the script.
pub open spec fn rank(s: DialogueState) -> int {
    match s {
        DialogueState::Hello => 0,
        DialogueState::Tutorial => 1,
        DialogueState::Arrive => 2,
        DialogueState::EnterHouse => 3,
        DialogueState::Finished => 4,
    }
}

/// One evaluation of the script: the next state and the cues it queues.
/// Each state's guard is checked once; when it holds, the state's cues are
/// queued and the script moves on to the next state.
pub open spec fn script_step(
    s: DialogueState,
    has_active: bool,
    elapsed_us: int,
    c: DialogueConditions,
) -> (DialogueState, Seq<SpeechCue>) {
    match s {
        DialogueState::Hello => if c.assets_ready && c.on_ground {
            (
                DialogueState::Tutorial,
                seq![SpeechCue::Hello1, SpeechCue::Hello2, SpeechCue::Hello3],
            )
        } else {
            (s, seq![])
        },
        DialogueState::Tutorial => if !has_active && elapsed_us > TUTORIAL_DELAY_US {
            (
                DialogueState::Arrive,
                seq![SpeechCue::Tutorial1, SpeechCue::Tutorial2, SpeechCue::Tutorial3],
            )
        } else {
            (s, seq![])
        },
        DialogueState::Arrive => if !has_active && c.player_x >= ARRIVE_X && elapsed_us
            > ARRIVE_DELAY_US {
            (DialogueState::EnterHouse, seq![SpeechCue::Arrive1])
        } else {
            (s, seq![])
        },
        DialogueState::EnterHouse => if c.indoors {
            (DialogueState::Finished, seq![SpeechCue::EnterHouse1])
        } else {
            (s, seq![])
        },
        DialogueState::Finished => (s, seq![]),
    }
}

/// The timer after `delta_us` more microseconds: it wraps at its period.
pub open spec fn ticked(elapsed_us: int, delta_us: int) -> int {
    (elapsed_us + delta_us) % (DIALOGUE_TIMER_PERIOD_US as int)
}

impl DialogueQueue {
    pub closed spec fn view(&self) -> Seq<SpeechCue> {
        self.backlog@
    }

    pub fn new() -> (q: DialogueQueue)
        ensures
            q.view() == Seq::<SpeechCue>::empty(),
    {
        DialogueQueue { backlog: VecDeque::new() }
    }

    /// The waiting cues, oldest first.
    pub fn backlog(&self) -> (r: &VecDeque<SpeechCue>)
        ensures
            r@ == self.view(),
    {
        &self.backlog
    }

    pub fn push_back(&mut self, cue: SpeechCue)
        ensures
            final(self).view() == old(self).view().push(cue),
    {
        self.backlog.push_back(cue);
    }

    /// Takes the oldest waiting cue.
    pub fn pop_front(&mut self) -> (r: Option<SpeechCue>)
        ensures
            old(self).view().len() == 0 ==> r.is_none() && final(self).view() == old(self).view(),
            old(self).view().len() > 0 ==> r == Some(old(self).view()[0]) && final(self).view()
                == old(self).view().subrange(1, old(self).view().len() as int),
    {
        self.backlog.pop_front()
    }
}

impl DialogueTimer {
    pub closed spec fn elapsed(&self) -> int {
        self.elapsed_us as int
    }

    pub closed spec fn wf(&self) -> bool {
        self.elapsed_us < DIALOGUE_TIMER_PERIOD_US
    }

    pub fn new() -> (t: DialogueTimer)
        ensures
            t.wf(),
            t.elapsed() == 0,
    {
        DialogueTimer { elapsed_us: 0 }
    }

    pub fn elapsed_us(&self) -> (r: u64)
        ensures
            r == self.elapsed(),
    {
        self.elapsed_us
    }

    /// Lets `delta_us` microseconds pass.
    pub fn tick(&mut self, delta_us: u64)
        requires
            old(self).wf(),
        ensures
            final(self).wf(),
            final(self).elapsed() == ticked(old(self).elapsed(), delta_us as int),
    {
        let d = delta_us % DIALOGUE_TIMER_PERIOD_US;
        proof {
            let p = DIALOGUE_TIMER_PERIOD_US as int;
            let e = self.elapsed_us as int;
            let dd = delta_us as int;
            assert((e + dd) % p == (e + dd % p) % p) by {
                vstd::arithmetic::div_mod::lemma_add_mod_noop(e, dd, p);
                vstd::arithmetic::div_mod::lemma_small_mod(e as nat, p as nat);
            }
        }
        self.elapsed_us = (self.elapsed_us + d) % DIALOGUE_TIMER_PERIOD_US;
    }

    pub fn reset(&mut self)
        ensures
            final(self).wf(),
            final(self).elapsed() == 0,
    {
        self.elapsed_us = 0;
    }
}

/// The whole dialogue: where the script stands, what waits, what is shown,
/// and the pacing timer.
pub struct Dialogue {
    pub state: DialogueState,
    pub queue: DialogueQueue,
    pub active: Option<ActiveDialogue>,
    pub timer: DialogueTimer,
}

/// What a tick of showing cues asks of the screen and the speakers.
#[derive(Clone, Copy, Debug, PartialEq, Eq, Structural)]
pub struct DialogueOutcome {
    /// The cue on screen was dismissed: remove its display.
    pub dismissed: bool,
    /// This cue starts now: play its audio and show its caption.
    pub started: Option<SpeechCue>,
}

impl Dialogue {
    pub open spec fn wf(&self) -> bool {
        self.timer.wf()
    }

    /// The script at its start, nothing queued or shown.
    pub fn new() -> (d: Dialogue)
        ensures
            d.wf(),
            d.state == DialogueState::Hello,
            d.queue.view() == Seq::<SpeechCue>::empty(),
            d.active.is_none(),
            d.timer.elapsed() == 0,
    {
        Dialogue {
            state: DialogueState::Hello,
            queue: DialogueQueue::new(),
            active: None,
            timer: DialogueTimer::new(),
        }
    }

    /// One tick of the script: the timer advances by `delta_us`, then the
    /// current state's guard is checked once against the world `c`; when it
    /// holds, the state's cues are queued and the script moves one step on.
    pub fn trigger(&mut self, delta_us: u64, c: DialogueConditions)
        requires
            old(self).wf(),
        ensures
            final(self).wf(),
            final(self).timer.elapsed() == ticked(old(self).timer.elapsed(), delta_us as int),
            ({
                let step = script_step(
                    old(self).state,
                    old(self).active.is_some(),
                    final(self).timer.elapsed(),
                    c,
                );
                &&& final(self).state == step.0
                &&& final(self).queue.view() == old(self).queue.view() + step.1
            }),
            final(self).active == old(self).active,
    {
        self.timer.tick(delta_us);
        let has_active = self.active.is_some();
        let elapsed = self.timer.elapsed_us();
        let ghost q0 = self.queue.view();
        match self.state {
            DialogueState::Hello => {
                if c.assets_ready && c.on_ground {
                    self.queue.push_back(SpeechCue::Hello1);
                    self.queue.push_back(SpeechCue::Hello2);
                    self.queue.push_back(SpeechCue::Hello3);
                    self.state = DialogueState::Tutorial;
                }
            },
            DialogueState::Tutorial => {
                if !has_active && elapsed > TUTORIAL_DELAY_US {
                    self.queue.push_back(SpeechCue::Tutorial1);
                    self.queue.push_back(SpeechCue::Tutorial2);
                    self.queue.push_back(SpeechCue::Tutorial3);
                    self.state = DialogueState::Arrive;
                }
            },
            DialogueState::Arrive => {
                if !has_active && c.player_x >= ARRIVE_X && elapsed > ARRIVE_DELAY_US {
                    self.queue.push_back(SpeechCue::Arrive1);
                    self.state = DialogueState::EnterHouse;
                }
            },
            DialogueState::EnterHouse => {
                if c.indoors {
                    self.queue.push_back(SpeechCue::EnterHouse1);
                    self.state = DialogueState::Finished;
                }
            },
            DialogueState::Finished => {},
        }
        let ghost step = script_step(old(self).state, has_active, elapsed as int, c);
        assert(self.queue.view() =~= q0 + step.1);
    }

    /// One tick of showing cues. A released advance key dismisses the cue on
    /// screen, whether or not its audio has finished, and resets the timer;
    /// the next waiting cue may then begin on the following tick. When no cue
    /// was on screen at the start of the tick, the oldest waiting cue starts
    /// and the timer is reset. At most one cue is ever shown.
    pub fn execute(&mut self, advance_released: bool) -> (out: DialogueOutcome)
        requires
            old(self).wf(),
        ensures
            final(self).wf(),
            final(self).state == old(self).state,
            out.dismissed == (advance_released && old(self).active.is_some()),
            out.dismissed ==> {
                &&& out.started.is_none()
                &&& final(self).active.is_none()
                &&& final(self).queue.view() == old(self).queue.view()
                &&& final(self).timer.elapsed() == 0
            },
            ({
                let q = old(self).queue.view();
                &&& old(self).active.is_none() && q.len() > 0 ==> {
                    &&& out.started == Some(q[0])
                    &&& final(self).active == Some(ActiveDialogue(q[0]))
                    &&& final(self).queue.view() == q.subrange(1, q.len() as int)
                    &&& final(self).timer.elapsed() == 0
                }
                &&& old(self).active.is_none() && q.len() == 0 ==> {
                    &&& out.started.is_none()
                    &&& final(self).active.is_none()
                    &&& final(self).queue.view() == q
                    &&& final(self).timer == old(self).timer
                }
                &&& old(self).active.is_some() && !advance_released ==> {
                    &&& out.started.is_none()
                    &&& final(self).active == old(self).active
                    &&& final(self).queue.view() == q
                    &&& final(self).timer == old(self).timer
                }
            }),
    {
        let had_active = self.active.is_some();
        let mut dismissed = false;
        if advance_released && had_active {
            self.active = None;
            dismissed = true;
            self.timer.reset();
        }
        let mut started: Option<SpeechCue> = None;
        if !had_active {
            let next = self.queue.pop_front();
            if let Some(cue) = next {
                self.timer.reset();
                self.active = Some(ActiveDialogue(cue));
                started = Some(cue);
            }
        }
        DialogueOutcome { dismissed, started }
    }
}

/// The script only moves forward, one state at a time, and it stays at
/// `EnterHouse` until the indoors level has been entered.
pub proof fn lemma_script_forward(
    s: DialogueState,
    has_active: bool,
    elapsed_us: int,
    c: DialogueConditions,
)
    ensures
        ({
            let next = script_step(s, has_active, elapsed_us, c).0;
            &&& rank(next) == rank(s) || rank(next) == rank(s) + 1
            &&& rank(s) <= rank(DialogueState::EnterHouse) && !c.indoors ==> rank(next) <= rank(
                DialogueState::EnterHouse,
            )
            &&& next == DialogueState::Finished ==> s == DialogueState::Finished || c.indoors
        }),
{
}

} // verus!
