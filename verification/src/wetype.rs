//! The check whether WeType reacted to the push-to-talk chord, and what is done where
//! it did not.
//!
//! WeType can be the active input method while its hotkey sleeps. Whether it reacted
//! shows in the time at which it last opened the microphone. Where it did not, a switch
//! of the input method profile wakes it; after a while the worker presses the chord
//! again, and the next check begins. A check never touches a later voice session.
use crate::diagnostics::Note;
use crate::protocol::{Message, MessageModel, MicObservation, MicResponse, WorkerMessage};
use crate::text::text_of;
use vstd::prelude::*;

verus! {

/// How long WeType has to react.
pub const CHECK_DELAY_MS: u64 = 700;

/// How often the chord is pressed again at most.
pub const RETRY_MAX_ATTEMPT: u32 = 3;

/// How far a check has come; each stage but the last waits for the host.
#[derive(Debug, Clone, Copy, PartialEq, Eq, Structural)]
pub enum CheckStage {
    /// WeType has time to react.
    Waiting,
    /// Is the voice session still the same?
    Looking,
    /// Did WeType react?
    Comparing,
    /// WeType is being woken.
    Reviving,
    /// WeType has time to wake up.
    Settling,
    /// Is the voice session still the same after the wake-up?
    LookingAgain,
    /// Did WeType react after all?
    ComparingAgain,
    Done,
}

/// A check of WeType's reaction to a press of the chord.
#[derive(Debug, Clone, Copy, PartialEq, Eq, Structural)]
pub struct Check {
    /// How often the chord has been pressed again in the voice session.
    pub attempt: u32,
    /// The number of the voice session.
    pub epoch: u64,
    /// The microphone reading from before the press.
    pub baseline: Option<MicObservation>,
    pub stage: CheckStage,
}

/// What the host tells a check.
#[derive(Debug, Clone, Copy, PartialEq, Eq, Structural)]
pub enum CheckEvent {
    Slept,
    /// Whether a voice session streams, and the number of the latest.
    Looked { streaming: bool, epoch: u64 },
    Compared(MicResponse),
    Revived { ok: bool },
}

/// What a check asks of the host.
#[derive(Debug, Clone, Copy, PartialEq, Eq, Structural)]
pub enum CheckQuery {
    Sleep { millis: u64 },
    Look,
    /// Compare a new microphone reading with the baseline.
    Compare { baseline: Option<MicObservation> },
    /// Switch the input method profile away from WeType and back.
    Revive,
}

/// What a step of a check gives the host: notes to log, an error to publish, a message
/// for the worker, and the query that the host answers, over a representation of each.
#[derive(Debug, PartialEq, Eq)]
pub struct CheckTurn<N, T, M> {
    pub notes: N,
    pub error: Option<T>,
    pub retry: Option<M>,
    pub ask: Option<CheckQuery>,
}

pub type HostCheckTurn = CheckTurn<Vec<Note>, String, WorkerMessage>;

pub type CheckTurnModel = CheckTurn<Seq<Note>, Seq<char>, MessageModel>;

impl View for CheckTurn<Vec<Note>, String, WorkerMessage> {
    type V = CheckTurnModel;

    open spec fn view(&self) -> CheckTurnModel {
        CheckTurn {
            notes: self.notes@,
            error: text_of(self.error),
            retry: match self.retry {
                Some(message) => Some(message@),
                None => None,
            },
            ask: self.ask,
        }
    }
}

/// How long WeType has to wake up before the chord is pressed again.
pub open spec fn settle_millis(attempt: u32) -> u64 {
    if attempt == 0 {
        2_000
    } else if attempt == 1 {
        3_000
    } else {
        5_000
    }
}

/// A query after some notes.
pub open spec fn asking(notes: Seq<Note>, query: CheckQuery) -> CheckTurnModel {
    CheckTurn { notes, error: None, retry: None, ask: Some(query) }
}

/// The end of a check, with a note on why.
pub open spec fn ending(note: Note) -> CheckTurnModel {
    CheckTurn { notes: seq![note], error: None, retry: None, ask: None }
}

/// What the user is told where nothing has helped.
pub open spec fn exhausted_text() -> Seq<char> {
    "微信输入法热键休眠，自动唤醒重试后仍未响应。可打开一次微信输入法的任意界面（如设置页）恢复其监听后重试"@
}

impl Check {
    /// A check of a press.
    pub open spec fn armed(attempt: u32, epoch: u64, baseline: Option<MicObservation>) -> Check {
        Check { attempt, epoch, baseline, stage: CheckStage::Waiting }
    }

    /// The check in another stage.
    pub open spec fn at(self, stage: CheckStage) -> Check {
        Check { stage, ..self }
    }

    /// One step of a check; an event that it does not wait for changes nothing.
    pub open spec fn after(self, event: CheckEvent) -> (Check, CheckTurnModel) {
        let done = self.at(CheckStage::Done);
        let Check { attempt, epoch, baseline, stage } = self;
        match (stage, event) {
            (CheckStage::Waiting, CheckEvent::Slept) => (
                self.at(CheckStage::Looking),
                asking(Seq::empty(), CheckQuery::Look),
            ),
            (CheckStage::Looking, CheckEvent::Looked { streaming, epoch: latest }) => {
                if latest != epoch {
                    (done, ending(Note::CheckSessionReplaced { epoch }))
                } else if !streaming {
                    (done, ending(Note::CheckSessionEnded))
                } else {
                    (
                        self.at(CheckStage::Comparing),
                        asking(Seq::empty(), CheckQuery::Compare { baseline }),
                    )
                }
            },
            (CheckStage::Comparing, CheckEvent::Compared(response)) => match response {
                MicResponse::Observed => (done, ending(Note::CheckReacted { attempt, epoch })),
                MicResponse::Unknown => (done, ending(Note::CheckUnobservable { attempt, epoch })),
                MicResponse::NotObserved => {
                    if attempt >= RETRY_MAX_ATTEMPT {
                        (
                            done,
                            CheckTurn {
                                error: Some(exhausted_text()),
                                ..ending(Note::CheckExhausted)
                            },
                        )
                    } else {
                        (
                            self.at(CheckStage::Reviving),
                            asking(
                                seq![Note::CheckReviving { attempt, epoch }],
                                CheckQuery::Revive,
                            ),
                        )
                    }
                },
            },
            (CheckStage::Reviving, CheckEvent::Revived { ok }) => (
                self.at(CheckStage::Settling),
                asking(
                    seq![Note::Revived { ok, attempt, epoch }],
                    CheckQuery::Sleep { millis: settle_millis(attempt) },
                ),
            ),
            (CheckStage::Settling, CheckEvent::Slept) => (
                self.at(CheckStage::LookingAgain),
                asking(Seq::empty(), CheckQuery::Look),
            ),
            (CheckStage::LookingAgain, CheckEvent::Looked { streaming, epoch: latest }) => {
                if latest != epoch {
                    (done, ending(Note::CheckRetryReplaced { epoch }))
                } else if !streaming {
                    (done, ending(Note::CheckRetryEnded))
                } else {
                    (
                        self.at(CheckStage::ComparingAgain),
                        asking(Seq::empty(), CheckQuery::Compare { baseline }),
                    )
                }
            },
            (CheckStage::ComparingAgain, CheckEvent::Compared(response)) => {
                if response is NotObserved {
                    (
                        done,
                        CheckTurn {
                            notes: Seq::empty(),
                            error: None,
                            retry: Some(
                                Message::RetryVoiceChord {
                                    attempt: (attempt + 1) as u32,
                                    epoch,
                                    baseline,
                                },
                            ),
                            ask: None,
                        },
                    )
                } else {
                    (done, ending(Note::CheckRetryMicActive { attempt, epoch }))
                }
            },
            _ => (
                self,
                CheckTurn { notes: Seq::empty(), error: None, retry: None, ask: None },
            ),
        }
    }

    /// A check that wakes WeType has a press left.
    pub open spec fn wf(self) -> bool {
        self.stage is Reviving || self.stage is Settling || self.stage is LookingAgain
            || self.stage is ComparingAgain ==> self.attempt < RETRY_MAX_ATTEMPT
    }

    /// How many more answers the check can need.
    pub open spec fn rest(self) -> int {
        match self.stage {
            CheckStage::Waiting => 7,
            CheckStage::Looking => 6,
            CheckStage::Comparing => 5,
            CheckStage::Reviving => 4,
            CheckStage::Settling => 3,
            CheckStage::LookingAgain => 2,
            CheckStage::ComparingAgain => 1,
            CheckStage::Done => 0,
        }
    }

    /// Sets up a check of a press: the check, the note to log, and its first query.
    pub fn arm(attempt: u32, epoch: u64, baseline: Option<MicObservation>) -> (armed: (
        Check,
        HostCheckTurn,
    ))
        ensures
            armed.0 == Check::armed(attempt, epoch, baseline),
            armed.0.wf(),
            armed.1@ == asking(
                seq![Note::CheckArmed { attempt, epoch, baseline_available: baseline is Some }],
                CheckQuery::Sleep { millis: CHECK_DELAY_MS },
            ),
            armed.1.ask == Some(CheckQuery::Sleep { millis: 700 }),
    {
        let mut notes: Vec<Note> = Vec::new();
        notes.push(Note::CheckArmed { attempt, epoch, baseline_available: baseline.is_some() });
        let check = Check { attempt, epoch, baseline, stage: CheckStage::Waiting };
        (
            check,
            CheckTurn {
                notes,
                error: None,
                retry: None,
                ask: Some(CheckQuery::Sleep { millis: CHECK_DELAY_MS }),
            },
        )
    }

    /// Takes one step.
    pub fn step(&mut self, event: CheckEvent) -> (turn: HostCheckTurn)
        requires
            old(self).wf(),
        ensures
            final(self).wf(),
            (*final(self), turn@) == old(self).after(event),
    {
        let Check { attempt, epoch, baseline, stage } = *self;
        match (stage, event) {
            (CheckStage::Waiting, CheckEvent::Slept) => self.ask(
                CheckStage::Looking,
                CheckQuery::Look,
            ),
            (CheckStage::Looking, CheckEvent::Looked { streaming, epoch: latest }) => {
                if latest != epoch {
                    self.end(Note::CheckSessionReplaced { epoch })
                } else if !streaming {
                    self.end(Note::CheckSessionEnded)
                } else {
                    self.ask(CheckStage::Comparing, CheckQuery::Compare { baseline })
                }
            },
            (CheckStage::Comparing, CheckEvent::Compared(response)) => match response {
                MicResponse::Observed => self.end(Note::CheckReacted { attempt, epoch }),
                MicResponse::Unknown => self.end(Note::CheckUnobservable { attempt, epoch }),
                MicResponse::NotObserved => {
                    if attempt >= RETRY_MAX_ATTEMPT {
                        let mut turn = self.end(Note::CheckExhausted);
                        turn.error = Some(
                            "微信输入法热键休眠，自动唤醒重试后仍未响应。可打开一次微信输入法的任意界面（如设置页）恢复其监听后重试".to_owned(),
                        );
                        turn
                    } else {
                        self.note_and_ask(
                            Note::CheckReviving { attempt, epoch },
                            CheckStage::Reviving,
                            CheckQuery::Revive,
                        )
                    }
                },
            },
            (CheckStage::Reviving, CheckEvent::Revived { ok }) => {
                let millis: u64 = if attempt == 0 {
                    2_000
                } else if attempt == 1 {
                    3_000
                } else {
                    5_000
                };
                self.note_and_ask(
                    Note::Revived { ok, attempt, epoch },
                    CheckStage::Settling,
                    CheckQuery::Sleep { millis },
                )
            },
            (CheckStage::Settling, CheckEvent::Slept) => self.ask(
                CheckStage::LookingAgain,
                CheckQuery::Look,
            ),
            (CheckStage::LookingAgain, CheckEvent::Looked { streaming, epoch: latest }) => {
                if latest != epoch {
                    self.end(Note::CheckRetryReplaced { epoch })
                } else if !streaming {
                    self.end(Note::CheckRetryEnded)
                } else {
                    self.ask(CheckStage::ComparingAgain, CheckQuery::Compare { baseline })
                }
            },
            (CheckStage::ComparingAgain, CheckEvent::Compared(response)) => {
                if response == MicResponse::NotObserved {
                    self.stage = CheckStage::Done;
                    CheckTurn {
                        notes: Vec::new(),
                        error: None,
                        retry: Some(
                            Message::RetryVoiceChord { attempt: attempt + 1, epoch, baseline },
                        ),
                        ask: None,
                    }
                } else {
                    self.end(Note::CheckRetryMicActive { attempt, epoch })
                }
            },
            _ => CheckTurn { notes: Vec::new(), error: None, retry: None, ask: None },
        }
    }

    fn ask(&mut self, stage: CheckStage, query: CheckQuery) -> (turn: HostCheckTurn)
        ensures
            *final(self) == old(self).at(stage),
            turn@ == asking(Seq::empty(), query),
    {
        self.stage = stage;
        CheckTurn { notes: Vec::new(), error: None, retry: None, ask: Some(query) }
    }

    fn note_and_ask(&mut self, note: Note, stage: CheckStage, query: CheckQuery) -> (turn:
        HostCheckTurn)
        ensures
            *final(self) == old(self).at(stage),
            turn@ == asking(seq![note], query),
    {
        self.stage = stage;
        let mut notes: Vec<Note> = Vec::new();
        notes.push(note);
        CheckTurn { notes, error: None, retry: None, ask: Some(query) }
    }

    fn end(&mut self, note: Note) -> (turn: HostCheckTurn)
        ensures
            *final(self) == old(self).at(CheckStage::Done),
            turn@ == ending(note),
    {
        self.stage = CheckStage::Done;
        let mut notes: Vec<Note> = Vec::new();
        notes.push(note);
        CheckTurn { notes, error: None, retry: None, ask: None }
    }
}

/// The chord is pressed again at most three times in a voice session: a check asks for
/// the press after its own, never for one past the last, and only for its own session.
pub proof fn retries_are_bounded(check: Check, event: CheckEvent)
    requires
        check.wf(),
    ensures
        check.after(event).1.retry matches Some(message) ==> {
            &&& message matches Message::RetryVoiceChord { attempt, epoch, baseline }
            &&& attempt == check.attempt + 1
            &&& attempt <= RETRY_MAX_ATTEMPT
            &&& epoch == check.epoch
            &&& baseline == check.baseline
        },
{
}

/// A check comes to an end: every event that it waits for brings it closer, and it
/// waits exactly as long as it has a query open.
pub proof fn checks_end(check: Check, event: CheckEvent)
    ensures
        check.after(event).0 == check || check.after(event).0.rest() < check.rest(),
        check.after(event).0 != check ==> (check.after(event).1.ask is Some <==> !(check.after(
            event,
        ).0.stage is Done)),
        check.stage is Done ==> check.after(event).0 == check,
{
}

/// A check whose voice session is over, or has been followed by another, ends without
/// touching anything.
pub proof fn ended_sessions_are_left_alone(check: Check, streaming: bool, latest: u64)
    requires
        check.stage is Looking || check.stage is LookingAgain,
        !streaming || latest != check.epoch,
    ensures
        check.after(CheckEvent::Looked { streaming, epoch: latest }).0.stage is Done,
        check.after(CheckEvent::Looked { streaming, epoch: latest }).1.ask is None,
        check.after(CheckEvent::Looked { streaming, epoch: latest }).1.retry is None,
        check.after(CheckEvent::Looked { streaming, epoch: latest }).1.error is None,
{
}

/// Where WeType may have reacted, nothing is woken and nothing is pressed again; the
/// user hears of a failure only after the last press.
pub proof fn reactions_end_the_check(check: Check, response: MicResponse)
    requires
        check.stage is Comparing || check.stage is ComparingAgain,
    ensures
        !(response is NotObserved) ==> {
            &&& check.after(CheckEvent::Compared(response)).0.stage is Done
            &&& check.after(CheckEvent::Compared(response)).1.ask is None
            &&& check.after(CheckEvent::Compared(response)).1.retry is None
        },
        check.after(CheckEvent::Compared(response)).1.error is Some <==> response is NotObserved
            && check.stage is Comparing && check.attempt >= RETRY_MAX_ATTEMPT,
{
}

/// A check waits, looks whether its session still streams, and compares with the reading
/// from before the press. It wakes WeType only where that certainly did not react and fewer
/// than three presses were repeated; at the third the user is told instead.
pub proof fn checks_wake_only_what_sleeps(
    check: Check,
    streaming: bool,
    latest: u64,
    response: MicResponse,
)
    ensures
        check.stage is Waiting ==> ({
            let (next, turn) = check.after(CheckEvent::Slept);
            &&& next == (Check { stage: CheckStage::Looking, ..check })
            &&& turn.ask == Some(CheckQuery::Look)
            &&& turn.notes.len() == 0 && turn.error is None && turn.retry is None
        }),
        check.stage is Looking ==> ({
            let (next, turn) = check.after(CheckEvent::Looked { streaming, epoch: latest });
            if streaming && latest == check.epoch {
                &&& next == (Check { stage: CheckStage::Comparing, ..check })
                &&& turn.ask == Some(CheckQuery::Compare { baseline: check.baseline })
                &&& turn.notes.len() == 0 && turn.error is None && turn.retry is None
            } else {
                &&& next == (Check { stage: CheckStage::Done, ..check })
                &&& turn.notes =~= seq![
                    if latest != check.epoch {
                        Note::CheckSessionReplaced { epoch: check.epoch }
                    } else {
                        Note::CheckSessionEnded
                    },
                ]
                &&& turn.ask is None && turn.error is None && turn.retry is None
            }
        }),
        check.stage is Comparing ==> ({
            let (next, turn) = check.after(CheckEvent::Compared(response));
            let Check { attempt, epoch, .. } = check;
            &&& turn.retry is None
            &&& turn.ask == if response is NotObserved && attempt < 3 {
                Some(CheckQuery::Revive)
            } else {
                None
            }
            &&& next == (Check {
                stage: if response is NotObserved && attempt < 3 {
                    CheckStage::Reviving
                } else {
                    CheckStage::Done
                },
                ..check
            })
            &&& turn.error == if response is NotObserved && attempt >= 3 {
                Some(
                    "微信输入法热键休眠，自动唤醒重试后仍未响应。可打开一次微信输入法的任意界面（如设置页）恢复其监听后重试"@,
                )
            } else {
                None
            }
            &&& turn.notes =~= seq![
                match response {
                    MicResponse::Observed => Note::CheckReacted { attempt, epoch },
                    MicResponse::Unknown => Note::CheckUnobservable { attempt, epoch },
                    MicResponse::NotObserved => if attempt < 3 {
                        Note::CheckReviving { attempt, epoch }
                    } else {
                        Note::CheckExhausted
                    },
                },
            ]
        }),
{
}

/// However waking ended, WeType then has two, three or five seconds, more with each press.
/// After that the check looks and compares again, with the same baseline, and only where
/// WeType still did not react asks for the next press.
pub proof fn checks_press_only_what_still_sleeps(
    check: Check,
    ok: bool,
    streaming: bool,
    latest: u64,
    response: MicResponse,
)
    requires
        check.wf(),
    ensures
        check.stage is Reviving ==> ({
            let (next, turn) = check.after(CheckEvent::Revived { ok });
            let Check { attempt, epoch, .. } = check;
            &&& next == (Check { stage: CheckStage::Settling, ..check })
            &&& attempt == 0 ==> turn.ask == Some(CheckQuery::Sleep { millis: 2_000 })
            &&& attempt == 1 ==> turn.ask == Some(CheckQuery::Sleep { millis: 3_000 })
            &&& attempt >= 2 ==> turn.ask == Some(CheckQuery::Sleep { millis: 5_000 })
            &&& turn.notes =~= seq![Note::Revived { ok, attempt, epoch }]
            &&& turn.error is None && turn.retry is None
        }),
        check.stage is Settling ==> ({
            let (next, turn) = check.after(CheckEvent::Slept);
            &&& next == (Check { stage: CheckStage::LookingAgain, ..check })
            &&& turn.ask == Some(CheckQuery::Look)
            &&& turn.notes.len() == 0 && turn.error is None && turn.retry is None
        }),
        check.stage is LookingAgain ==> ({
            let (next, turn) = check.after(CheckEvent::Looked { streaming, epoch: latest });
            if streaming && latest == check.epoch {
                &&& next == (Check { stage: CheckStage::ComparingAgain, ..check })
                &&& turn.ask == Some(CheckQuery::Compare { baseline: check.baseline })
                &&& turn.notes.len() == 0 && turn.error is None && turn.retry is None
            } else {
                &&& next == (Check { stage: CheckStage::Done, ..check })
                &&& turn.notes =~= seq![
                    if latest != check.epoch {
                        Note::CheckRetryReplaced { epoch: check.epoch }
                    } else {
                        Note::CheckRetryEnded
                    },
                ]
                &&& turn.ask is None && turn.error is None && turn.retry is None
            }
        }),
        check.stage is ComparingAgain ==> ({
            let (next, turn) = check.after(CheckEvent::Compared(response));
            let Check { attempt, epoch, baseline, .. } = check;
            &&& next == (Check { stage: CheckStage::Done, ..check })
            &&& turn.ask is None && turn.error is None
            &&& if response is NotObserved {
                &&& turn.notes.len() == 0
                &&& turn.retry matches Some(
                    Message::RetryVoiceChord { attempt: press, epoch: number, baseline: from },
                )
                &&& press == attempt + 1 && number == epoch && from == baseline
            } else {
                &&& turn.notes =~= seq![Note::CheckRetryMicActive { attempt, epoch }]
                &&& turn.retry is None
            }
        }),
{
}

} // verus!
