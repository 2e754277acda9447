//! The WeType input method: making it the active one, and waking it.
//!
//! The voice hotkey of WeType works only while WeType is the active input method of
//! the session in front. Input methods are switched on a thread of its own with a
//! single-threaded COM apartment; what happens there is decided here, one step at a
//! time. Identifiers are plain 128-bit numbers.
use crate::diagnostics::Note;
use crate::text::{
    hex_word, hex_word_text, hex_words_mean_their_word, join2, join3, numeral_value, text_of,
};
use vstd::prelude::*;

verus! {

/// The COM class of the input method profiles.
pub const CLSID_TF_INPUT_PROCESSOR_PROFILES: u128 = 0x33c53a50f4564884b04985fd643ecfed;

/// The COM class of WeType.
pub const WETYPE_CLSID: u128 = 0x86598fb966a2463eb9c2aeb906d477ad;

/// The profile of WeType.
pub const WETYPE_PROFILE: u128 = 0x607fdf85fcc84dbda36541296f980c9c;

/// Simplified Chinese.
pub const LANGID_ZH_CN: u16 = 0x0804;

/// How long the thread that switches input methods may take.
pub const ACTIVATION_JOIN_TIMEOUT_MS: u64 = 500;

/// How long the session in front takes to follow a switch.
pub const SESSION_REBIND_SETTLE_MS: u64 = 50;

/// How many profiles are fetched at a time.
pub const PROFILE_BATCH: usize = 16;

/// The profile type of a text input processor.
pub const PROFILE_TYPE_INPUT_PROCESSOR: u32 = 1;

/// The flag of a profile that is enabled.
pub const PROFILE_FLAG_ENABLED: u32 = 2;

/// How activating WeType for the session in front ended.
#[derive(Debug, Clone, Copy, PartialEq, Eq, Structural)]
pub enum WeTypeActivation {
    /// It was active already; keys can be sent at once.
    AlreadyActive,
    /// It was switched to, and the session had time to follow.
    Switched,
    /// The application's own window is in front; nothing was done.
    SkippedSelfForeground,
}

/// The class and the profile of an input method.
#[derive(Debug, Clone, Copy, PartialEq, Eq, Structural)]
pub struct ProfileId {
    pub clsid: u128,
    pub profile: u128,
}

/// An input method profile of the system.
#[derive(Debug, Clone, Copy, PartialEq, Eq, Structural)]
pub struct Profile {
    pub id: ProfileId,
    pub profile_type: u32,
    pub flags: u32,
}

/// The profile of WeType.
pub open spec fn wetype() -> ProfileId {
    ProfileId { clsid: WETYPE_CLSID, profile: WETYPE_PROFILE }
}

/// The profile of WeType.
pub fn wetype_id() -> (id: ProfileId)
    ensures
        id == wetype(),
{
    ProfileId { clsid: WETYPE_CLSID, profile: WETYPE_PROFILE }
}

/// Whether the window in front belongs to this process: `foreground` is the process of
/// that window, if there is one, and zero where it is not known. Switching the input
/// method of one's own window helps nobody and makes its page reload.
pub fn foreground_is_self(foreground: Option<u32>, own: u32) -> (is_self: bool)
    ensures
        is_self == (foreground matches Some(process) && process != 0 && process == own),
{
    match foreground {
        Some(process) => process != 0 && process == own,
        None => false,
    }
}

/// What comes before an activation: with the application's own window in front nothing is
/// done, which is no error; the outcome and the note on it are ready. Otherwise there is
/// nothing to skip.
pub fn before_activation(foreground: Option<u32>, own: u32) -> (skip: Option<
    (WeTypeActivation, Note),
>)
    ensures
        skip == if foreground matches Some(process) && process != 0 && process == own {
            Some((WeTypeActivation::SkippedSelfForeground, Note::ActivationSkippedSelfForeground))
        } else {
            None
        },
{
    if foreground_is_self(foreground, own) {
        Some((WeTypeActivation::SkippedSelfForeground, Note::ActivationSkippedSelfForeground))
    } else {
        None
    }
}

/// A separator of path components.
pub open spec fn is_separator(c: char) -> bool {
    c == '\\' || c == '/'
}

/// The part of a path after its last separator, the whole path where it has none.
pub open spec fn file_name_text(path: Seq<char>) -> Seq<char>
    decreases path.len(),
{
    if path.len() == 0 || is_separator(path.last()) {
        Seq::empty()
    } else {
        file_name_text(path.drop_last()).push(path.last())
    }
}

/// The name of a process from the path of its program; the directories stay private.
pub fn process_name(path: &str) -> (name: String)
    ensures
        name@ == file_name_text(path@),
{
    let len: usize = path.unicode_len();
    let mut start: usize = len;
    proof {
        assert(path@.subrange(0, len as int) =~= path@);
        assert(path@.subrange(len as int, len as int) =~= Seq::empty());
    }
    while start > 0 && !(path.get_char(start - 1) == '\\' || path.get_char(start - 1) == '/')
        invariant
            start <= len,
            len == path@.len(),
            file_name_text(path@) == file_name_text(path@.subrange(0, start as int))
                + path@.subrange(start as int, len as int),
        decreases start,
    {
        proof {
            let front = path@.subrange(0, start as int);
            assert(front.drop_last() =~= path@.subrange(0, start - 1));
            assert(path@.subrange(start - 1, len as int) =~= seq![front.last()] + path@.subrange(
                start as int,
                len as int,
            ));
            assert(file_name_text(front) + path@.subrange(start as int, len as int)
                =~= file_name_text(front.drop_last()) + path@.subrange(start - 1, len as int));
        }
        start = start - 1;
    }
    proof {
        let front = path@.subrange(0, start as int);
        assert(file_name_text(front) =~= Seq::empty());
        assert(Seq::<char>::empty() + path@.subrange(start as int, len as int) =~= path@.subrange(
            start as int,
            len as int,
        ));
    }
    path.substring_char(start, len).to_owned()
}

/// What came of a thread with a limited time.
#[derive(Debug)]
pub enum Joined<R> {
    /// The thread could not be started; the text says why.
    Unstarted(String),
    TimedOut,
    Finished(R),
}

/// The contents of a result with a text for its error.
pub open spec fn fallible<A>(result: Result<A, String>) -> Result<A, Seq<char>> {
    match result {
        Ok(value) => Ok(value),
        Err(error) => Err(error@),
    }
}

/// The result of activating WeType, and the note on it. Where no thread could be
/// started there is nothing to note.
pub fn conclude_activation(
    joined: Joined<Result<WeTypeActivation, String>>,
    elapsed_ms: u64,
    foreground_observed: bool,
) -> (end: (Result<WeTypeActivation, String>, Option<Note>))
    ensures
        fallible(end.0) == match joined {
            Joined::Unstarted(error) => Err("创建激活线程失败："@ + error@),
            Joined::TimedOut => Err("激活微信输入法超时（500ms）"@),
            Joined::Finished(result) => fallible(result),
        },
        end.1 == match joined {
            Joined::Unstarted(_) => None,
            _ => Some(
                Note::ActivationEnded {
                    outcome: match end.0 {
                        Ok(outcome) => Some(outcome),
                        Err(_) => None,
                    },
                    elapsed_ms,
                    foreground_observed,
                },
            ),
        },
{
    let result: Result<WeTypeActivation, String> = match joined {
        Joined::Unstarted(error) => {
            return (Err(join2("创建激活线程失败：", error.as_str())), None);
        },
        Joined::TimedOut => Err("激活微信输入法超时（500ms）".to_owned()),
        Joined::Finished(result) => result,
    };
    let outcome = match &result {
        Ok(outcome) => Some(*outcome),
        Err(_) => None,
    };
    (result, Some(Note::ActivationEnded { outcome, elapsed_ms, foreground_observed }))
}

/// The contents of a result with texts for both ends.
pub open spec fn described(result: Result<String, String>) -> Result<Seq<char>, Seq<char>> {
    match result {
        Ok(text) => Ok(text@),
        Err(error) => Err(error@),
    }
}

/// The result of waking WeType by a switch of profiles.
pub fn conclude_cycle(joined: Joined<Result<String, String>>) -> (result: Result<String, String>)
    ensures
        described(result) == match joined {
            Joined::Unstarted(error) => Err("创建切换线程失败："@ + error@),
            Joined::TimedOut => Err("切换输入法配置超时（500ms）"@),
            Joined::Finished(result) => described(result),
        },
{
    match joined {
        Joined::Unstarted(error) => Err(join2("创建切换线程失败：", error.as_str())),
        Joined::TimedOut => Err("切换输入法配置超时（500ms）".to_owned()),
        Joined::Finished(result) => result,
    }
}

/// What is asked of the thread that switches input methods.
#[derive(Debug, Clone, Copy, PartialEq, Eq, Structural)]
pub enum ImeQuery {
    /// Enter a single-threaded COM apartment.
    Initialize,
    /// Make the profile manager.
    CreateManager,
    /// Read the active keyboard profile.
    ReadActive,
    /// Begin to list the profiles of the language.
    Enumerate,
    /// Fetch the next profiles, a batch at most.
    Fetch,
    /// Make a profile the active one of the session.
    Activate(ProfileId),
    Sleep { millis: u64 },
}

/// What the thread answers, over a representation of texts and lists.
#[derive(Debug, PartialEq, Eq)]
pub enum ImeEvent<T, P> {
    /// The status of entering the apartment.
    Initialized(i32),
    /// Done, or the text of what went wrong.
    Outcome(Option<T>),
    /// Whether the active profile could be read, and what it is; all zero where not.
    Active { ok: bool, id: ProfileId },
    /// The next profiles; nothing where they could not be fetched.
    Fetched(Option<P>),
    Slept,
}

pub type HostImeEvent = ImeEvent<String, Vec<Profile>>;

pub type ImeEventModel = ImeEvent<Seq<char>, Seq<Profile>>;

impl View for ImeEvent<String, Vec<Profile>> {
    type V = ImeEventModel;

    open spec fn view(&self) -> ImeEventModel {
        match *self {
            ImeEvent::Initialized(status) => ImeEvent::Initialized(status),
            ImeEvent::Outcome(error) => ImeEvent::Outcome(text_of(error)),
            ImeEvent::Active { ok, id } => ImeEvent::Active { ok, id },
            ImeEvent::Fetched(batch) => ImeEvent::Fetched(
                match batch {
                    Some(batch) => Some(batch@),
                    None => None,
                },
            ),
            ImeEvent::Slept => ImeEvent::Slept,
        }
    }
}

/// The status of a COM call as a 32-bit word.
pub open spec fn status_word(status: i32) -> u32 {
    if status < 0 {
        (status + 0x1_0000_0000) as u32
    } else {
        status as u32
    }
}

/// The error of entering the apartment.
pub open spec fn apartment_error(status: i32) -> Seq<char> {
    "CoInitializeEx(STA) 失败：HRESULT(0x"@ + hex_word_text(status_word(status)) + ")"@
}

/// The error of entering the apartment.
fn apartment_error_text(status: i32) -> (error: String)
    ensures
        error@ == apartment_error(status),
{
    let word: u32 = if status < 0 {
        (status as i64 + 0x1_0000_0000) as u32
    } else {
        status as u32
    };
    let digits = hex_word(word);
    join3("CoInitializeEx(STA) 失败：HRESULT(0x", digits.as_str(), ")")
}

/// What a task on the thread does next.
#[derive(Debug, PartialEq, Eq)]
pub enum ImeTurn<R> {
    /// Nothing new: the event was not waited for.
    Ignored,
    Ask(ImeQuery),
    /// The task is over; the apartment is left where it was entered.
    Finish { leave_apartment: bool, result: R },
}

/// How far making WeType the active input method has come.
#[derive(Debug, Clone, Copy, PartialEq, Eq, Structural)]
pub enum EnsureStage {
    Initializing,
    Creating,
    Reading,
    Activating,
    Settling,
    Done,
}

/// Making WeType the active input method, without a pause where it is already.
#[derive(Debug, Clone, Copy, PartialEq, Eq, Structural)]
pub struct EnsureWeType {
    pub stage: EnsureStage,
}

pub type EnsureTurnModel = ImeTurn<Result<WeTypeActivation, Seq<char>>>;

pub type EnsureTurn = ImeTurn<Result<WeTypeActivation, String>>;

/// The contents of a turn.
pub open spec fn ensure_turn_of(turn: EnsureTurn) -> EnsureTurnModel {
    match turn {
        ImeTurn::Ignored => ImeTurn::Ignored,
        ImeTurn::Ask(query) => ImeTurn::Ask(query),
        ImeTurn::Finish { leave_apartment, result } => ImeTurn::Finish {
            leave_apartment,
            result: fallible(result),
        },
    }
}

impl EnsureWeType {
    /// The task in another stage.
    pub open spec fn at(stage: EnsureStage) -> EnsureWeType {
        EnsureWeType { stage }
    }

    /// The end of the task in the apartment.
    pub open spec fn finished(result: Result<WeTypeActivation, Seq<char>>) -> (
        EnsureWeType,
        EnsureTurnModel,
    ) {
        (Self::at(EnsureStage::Done), ImeTurn::Finish { leave_apartment: true, result })
    }

    /// One step of the task.
    pub open spec fn after(self, event: ImeEventModel) -> (EnsureWeType, EnsureTurnModel) {
        match (self.stage, event) {
            (EnsureStage::Initializing, ImeEvent::Initialized(status)) => if status >= 0 {
                (Self::at(EnsureStage::Creating), ImeTurn::Ask(ImeQuery::CreateManager))
            } else {
                (
                    Self::at(EnsureStage::Done),
                    ImeTurn::Finish {
                        leave_apartment: false,
                        result: Err(apartment_error(status)),
                    },
                )
            },
            (EnsureStage::Creating, ImeEvent::Outcome(error)) => match error {
                Some(error) => Self::finished(Err("创建 TSF 配置管理器失败："@ + error)),
                None => (Self::at(EnsureStage::Reading), ImeTurn::Ask(ImeQuery::ReadActive)),
            },
            (EnsureStage::Reading, ImeEvent::Active { ok, id }) => if ok && id == wetype() {
                Self::finished(Ok(WeTypeActivation::AlreadyActive))
            } else {
                (
                    Self::at(EnsureStage::Activating),
                    ImeTurn::Ask(ImeQuery::Activate(wetype())),
                )
            },
            (EnsureStage::Activating, ImeEvent::Outcome(error)) => match error {
                Some(error) => Self::finished(Err("激活微信输入法会话失败："@ + error)),
                None => (
                    Self::at(EnsureStage::Settling),
                    ImeTurn::Ask(ImeQuery::Sleep { millis: SESSION_REBIND_SETTLE_MS }),
                ),
            },
            (EnsureStage::Settling, ImeEvent::Slept) => Self::finished(
                Ok(WeTypeActivation::Switched),
            ),
            _ => (self, ImeTurn::Ignored),
        }
    }

    /// The note on an event: on the active profile once that has been read, and neither
    /// on which one it is nor on the application in front.
    pub open spec fn note_on(self, event: ImeEventModel) -> Option<Note> {
        match (self.stage, event) {
            (EnsureStage::Reading, ImeEvent::Active { ok, id }) => Some(
                Note::ImeQueried {
                    ok,
                    active_is_wetype: ok && id == wetype(),
                    active_profile_present: id.clsid != 0,
                },
            ),
            _ => None,
        }
    }

    /// Begins the task: enter an apartment.
    pub fn begin() -> (begun: (EnsureWeType, ImeQuery))
        ensures
            begun.0 == EnsureWeType::at(EnsureStage::Initializing),
            begun.1 == ImeQuery::Initialize,
    {
        (EnsureWeType { stage: EnsureStage::Initializing }, ImeQuery::Initialize)
    }

    /// Takes one step: the note to log, if there is one, and what is done next.
    pub fn step(&mut self, event: HostImeEvent) -> (turn: (Option<Note>, EnsureTurn))
        ensures
            (*final(self), ensure_turn_of(turn.1)) == old(self).after(event@),
            turn.0 == old(self).note_on(event@),
    {
        match (self.stage, event) {
            (EnsureStage::Initializing, ImeEvent::Initialized(status)) => if status >= 0 {
                self.stage = EnsureStage::Creating;
                (None, ImeTurn::Ask(ImeQuery::CreateManager))
            } else {
                self.stage = EnsureStage::Done;
                (
                    None,
                    ImeTurn::Finish {
                        leave_apartment: false,
                        result: Err(apartment_error_text(status)),
                    },
                )
            },
            (EnsureStage::Creating, ImeEvent::Outcome(error)) => match error {
                Some(error) => (
                    None,
                    self.finish(Err(join2("创建 TSF 配置管理器失败：", error.as_str()))),
                ),
                None => {
                    self.stage = EnsureStage::Reading;
                    (None, ImeTurn::Ask(ImeQuery::ReadActive))
                },
            },
            (EnsureStage::Reading, ImeEvent::Active { ok, id }) => {
                let active_is_wetype = ok && id == wetype_id();
                let note = Note::ImeQueried {
                    ok,
                    active_is_wetype,
                    active_profile_present: id.clsid != 0,
                };
                if active_is_wetype {
                    (Some(note), self.finish(Ok(WeTypeActivation::AlreadyActive)))
                } else {
                    self.stage = EnsureStage::Activating;
                    (Some(note), ImeTurn::Ask(ImeQuery::Activate(wetype_id())))
                }
            },
            (EnsureStage::Activating, ImeEvent::Outcome(error)) => match error {
                Some(error) => (
                    None,
                    self.finish(Err(join2("激活微信输入法会话失败：", error.as_str()))),
                ),
                None => {
                    self.stage = EnsureStage::Settling;
                    (
                        None,
                        ImeTurn::Ask(ImeQuery::Sleep { millis: SESSION_REBIND_SETTLE_MS }),
                    )
                },
            },
            (EnsureStage::Settling, ImeEvent::Slept) => (
                None,
                self.finish(Ok(WeTypeActivation::Switched)),
            ),
            _ => (None, ImeTurn::Ignored),
        }
    }

    fn finish(&mut self, result: Result<WeTypeActivation, String>) -> (turn: EnsureTurn)
        ensures
            (*final(self), ensure_turn_of(turn)) == Self::finished(fallible(result)),
    {
        self.stage = EnsureStage::Done;
        ImeTurn::Finish { leave_apartment: true, result }
    }
}

/// A profile that WeType can be left for: an enabled input processor of another class.
pub open spec fn is_alternative(profile: Profile) -> bool {
    profile.profile_type == PROFILE_TYPE_INPUT_PROCESSOR && profile.id.clsid != WETYPE_CLSID
        && profile.flags & PROFILE_FLAG_ENABLED != 0
}

/// The first profile of a batch that WeType can be left for.
pub open spec fn first_alternative(batch: Seq<Profile>) -> Option<ProfileId>
    decreases batch.len(),
{
    if batch.len() == 0 {
        None
    } else if is_alternative(batch[0]) {
        Some(batch[0].id)
    } else {
        first_alternative(batch.skip(1))
    }
}

/// The first profile of a batch that WeType can be left for.
pub fn find_alternative(batch: &Vec<Profile>) -> (found: Option<ProfileId>)
    ensures
        found == first_alternative(batch@),
{
    let mut i: usize = 0;
    assert(batch@.skip(0) =~= batch@);
    while i < batch.len()
        invariant
            i <= batch.len(),
            first_alternative(batch@) == first_alternative(batch@.skip(i as int)),
        decreases batch.len() - i,
    {
        let profile = batch[i];
        assert(batch@.skip(i as int)[0] == profile);
        if profile.profile_type == PROFILE_TYPE_INPUT_PROCESSOR && profile.id.clsid
            != WETYPE_CLSID && profile.flags & PROFILE_FLAG_ENABLED != 0 {
            return Some(profile.id);
        }
        assert(batch@.skip(i as int).skip(1) =~= batch@.skip(i + 1));
        i = i + 1;
    }
    None
}

/// How far a switch of profiles has come.
#[derive(Debug, Clone, Copy, PartialEq, Eq, Structural)]
pub enum CycleStage {
    Initializing,
    Creating,
    Enumerating,
    Fetching,
    Leaving(ProfileId),
    Settling(ProfileId),
    Returning(ProfileId),
    Done,
}

/// Switching to another input method and back to WeType, which wakes WeType.
#[derive(Debug, Clone, Copy, PartialEq, Eq, Structural)]
pub struct CycleProfile {
    pub stage: CycleStage,
}

pub type CycleTurnModel = ImeTurn<Result<Seq<char>, Seq<char>>>;

pub type CycleTurn = ImeTurn<Result<String, String>>;

/// The contents of a turn.
pub open spec fn cycle_turn_of(turn: CycleTurn) -> CycleTurnModel {
    match turn {
        ImeTurn::Ignored => ImeTurn::Ignored,
        ImeTurn::Ask(query) => ImeTurn::Ask(query),
        ImeTurn::Finish { leave_apartment, result } => ImeTurn::Finish {
            leave_apartment,
            result: described(result),
        },
    }
}

/// The first 32 bits of an identifier.
pub open spec fn leading_word(id: u128) -> u32 {
    (id / 0x1_0000_0000_0000_0000_0000_0000) as u32
}

/// What a switch of profiles did, for the log.
pub open spec fn cycle_text(alternative: ProfileId) -> Seq<char> {
    "switched via clsid="@ + hex_word_text(leading_word(alternative.clsid))
        + " and back to WeType"@
}

impl CycleProfile {
    /// The task in another stage.
    pub open spec fn at(stage: CycleStage) -> CycleProfile {
        CycleProfile { stage }
    }

    /// The end of the task in the apartment.
    pub open spec fn finished(result: Result<Seq<char>, Seq<char>>) -> (
        CycleProfile,
        CycleTurnModel,
    ) {
        (Self::at(CycleStage::Done), ImeTurn::Finish { leave_apartment: true, result })
    }

    /// One step of the task.
    pub open spec fn after(self, event: ImeEventModel) -> (CycleProfile, CycleTurnModel) {
        match (self.stage, event) {
            (CycleStage::Initializing, ImeEvent::Initialized(status)) => if status >= 0 {
                (Self::at(CycleStage::Creating), ImeTurn::Ask(ImeQuery::CreateManager))
            } else {
                (
                    Self::at(CycleStage::Done),
                    ImeTurn::Finish {
                        leave_apartment: false,
                        result: Err(apartment_error(status)),
                    },
                )
            },
            (CycleStage::Creating, ImeEvent::Outcome(error)) => match error {
                Some(error) => Self::finished(Err("创建 TSF 配置管理器失败："@ + error)),
                None => (Self::at(CycleStage::Enumerating), ImeTurn::Ask(ImeQuery::Enumerate)),
            },
            (CycleStage::Enumerating, ImeEvent::Outcome(error)) => match error {
                Some(error) => Self::finished(Err("枚举输入法配置失败："@ + error)),
                None => (Self::at(CycleStage::Fetching), ImeTurn::Ask(ImeQuery::Fetch)),
            },
            (CycleStage::Fetching, ImeEvent::Fetched(batch)) => match batch {
                Some(batch) => match first_alternative(batch) {
                    Some(id) => (
                        Self::at(CycleStage::Leaving(id)),
                        ImeTurn::Ask(ImeQuery::Activate(id)),
                    ),
                    None => if batch.len() >= PROFILE_BATCH {
                        (self, ImeTurn::Ask(ImeQuery::Fetch))
                    } else {
                        Self::finished(Err("无可用作切换的其他输入法配置"@))
                    },
                },
                None => Self::finished(Err("无可用作切换的其他输入法配置"@)),
            },
            (CycleStage::Leaving(id), ImeEvent::Outcome(error)) => match error {
                Some(error) => Self::finished(Err("切换到临时输入法失败："@ + error)),
                None => (
                    Self::at(CycleStage::Settling(id)),
                    ImeTurn::Ask(ImeQuery::Sleep { millis: SESSION_REBIND_SETTLE_MS }),
                ),
            },
            (CycleStage::Settling(id), ImeEvent::Slept) => (
                Self::at(CycleStage::Returning(id)),
                ImeTurn::Ask(ImeQuery::Activate(wetype())),
            ),
            (CycleStage::Returning(id), ImeEvent::Outcome(error)) => match error {
                Some(error) => Self::finished(Err("切回微信输入法失败："@ + error)),
                None => Self::finished(Ok(cycle_text(id))),
            },
            _ => (self, ImeTurn::Ignored),
        }
    }

    /// Begins the task: enter an apartment.
    pub fn begin() -> (begun: (CycleProfile, ImeQuery))
        ensures
            begun.0 == CycleProfile::at(CycleStage::Initializing),
            begun.1 == ImeQuery::Initialize,
    {
        (CycleProfile { stage: CycleStage::Initializing }, ImeQuery::Initialize)
    }

    /// Takes one step.
    pub fn step(&mut self, event: HostImeEvent) -> (turn: CycleTurn)
        ensures
            (*final(self), cycle_turn_of(turn)) == old(self).after(event@),
    {
        match (self.stage, event) {
            (CycleStage::Initializing, ImeEvent::Initialized(status)) => if status >= 0 {
                self.ask(CycleStage::Creating, ImeQuery::CreateManager)
            } else {
                self.stage = CycleStage::Done;
                ImeTurn::Finish {
                    leave_apartment: false,
                    result: Err(apartment_error_text(status)),
                }
            },
            (CycleStage::Creating, ImeEvent::Outcome(error)) => match error {
                Some(error) => self.fail("创建 TSF 配置管理器失败：", error),
                None => self.ask(CycleStage::Enumerating, ImeQuery::Enumerate),
            },
            (CycleStage::Enumerating, ImeEvent::Outcome(error)) => match error {
                Some(error) => self.fail("枚举输入法配置失败：", error),
                None => self.ask(CycleStage::Fetching, ImeQuery::Fetch),
            },
            (CycleStage::Fetching, ImeEvent::Fetched(batch)) => match batch {
                Some(batch) => match find_alternative(&batch) {
                    Some(id) => self.ask(CycleStage::Leaving(id), ImeQuery::Activate(id)),
                    None => if batch.len() >= PROFILE_BATCH {
                        self.ask(CycleStage::Fetching, ImeQuery::Fetch)
                    } else {
                        self.finish(Err("无可用作切换的其他输入法配置".to_owned()))
                    },
                },
                None => self.finish(Err("无可用作切换的其他输入法配置".to_owned())),
            },
            (CycleStage::Leaving(id), ImeEvent::Outcome(error)) => match error {
                Some(error) => self.fail("切换到临时输入法失败：", error),
                None => self.ask(
                    CycleStage::Settling(id),
                    ImeQuery::Sleep { millis: SESSION_REBIND_SETTLE_MS },
                ),
            },
            (CycleStage::Settling(id), ImeEvent::Slept) => self.ask(
                CycleStage::Returning(id),
                ImeQuery::Activate(wetype_id()),
            ),
            (CycleStage::Returning(id), ImeEvent::Outcome(error)) => match error {
                Some(error) => self.fail("切回微信输入法失败：", error),
                None => {
                    let word: u32 = (id.clsid / 0x1_0000_0000_0000_0000_0000_0000) as u32;
                    let digits = hex_word(word);
                    self.finish(
                        Ok(join3("switched via clsid=", digits.as_str(), " and back to WeType")),
                    )
                },
            },
            _ => ImeTurn::Ignored,
        }
    }

    fn ask(&mut self, stage: CycleStage, query: ImeQuery) -> (turn: CycleTurn)
        ensures
            *final(self) == CycleProfile::at(stage),
            cycle_turn_of(turn) == CycleTurnModel::Ask(query),
    {
        self.stage = stage;
        ImeTurn::Ask(query)
    }

    fn finish(&mut self, result: Result<String, String>) -> (turn: CycleTurn)
        ensures
            (*final(self), cycle_turn_of(turn)) == Self::finished(described(result)),
    {
        self.stage = CycleStage::Done;
        ImeTurn::Finish { leave_apartment: true, result }
    }

    fn fail(&mut self, what: &str, error: String) -> (turn: CycleTurn)
        ensures
            (*final(self), cycle_turn_of(turn)) == Self::finished(Err(what@ + error@)),
    {
        self.finish(Err(join2(what, error.as_str())))
    }
}

/// The apartment is left exactly where it was entered.
pub proof fn apartments_are_left(task: CycleProfile, ensure: EnsureWeType, event: ImeEventModel)
    ensures
        task.after(event).1 matches ImeTurn::Finish { leave_apartment, .. } ==> leave_apartment
            == !(task.stage is Initializing),
        ensure.after(event).1 matches ImeTurn::Finish { leave_apartment, .. } ==> leave_apartment
            == !(ensure.stage is Initializing),
{
}

/// A switch of profiles reports success only after it has come back to WeType, and it
/// never leaves for WeType itself or for a profile that is not offered.
pub proof fn switches_come_back(task: CycleProfile, event: ImeEventModel)
    ensures
        task.after(event).1 matches ImeTurn::Finish { result: Ok(_), .. } ==> task.stage
            is Returning && event == ImeEventModel::Outcome(None),
        task.after(event).0.stage is Returning ==> task.stage is Returning || task.after(event).1
            == CycleTurnModel::Ask(ImeQuery::Activate(wetype())),
        task.after(event).0.stage is Leaving && !(task.stage is Leaving) ==> {
            &&& event matches ImeEvent::Fetched(Some(batch))
            &&& first_alternative(batch) matches Some(id)
            &&& id.clsid != WETYPE_CLSID
            &&& task.after(event).1 == CycleTurnModel::Ask(ImeQuery::Activate(id))
        },
{
    if let ImeEvent::Fetched(Some(batch)) = event {
        alternatives_are_others(batch);
    }
}

proof fn alternatives_are_others(batch: Seq<Profile>)
    ensures
        first_alternative(batch) matches Some(id) ==> id.clsid != WETYPE_CLSID,
    decreases batch.len(),
{
    if batch.len() > 0 && !is_alternative(batch[0]) {
        alternatives_are_others(batch.skip(1));
    }
}

/// Where WeType is active already, nothing is switched and nothing is waited for.
pub proof fn active_wetype_costs_nothing(task: EnsureWeType)
    requires
        task.stage is Reading,
    ensures
        task.after(ImeEventModel::Active { ok: true, id: wetype() }).1 == (EnsureTurnModel::Finish {
            leave_apartment: true,
            result: Ok(WeTypeActivation::AlreadyActive),
        }),
{
}

/// A reading of the active profile ends the task exactly where it succeeded and shows
/// WeType's class and WeType's profile. Every other reading leads to a switch to WeType: a
/// failed one, one of another input method, and one of another profile of the same class.
pub proof fn only_active_wetype_is_left_alone(task: EnsureWeType, ok: bool, id: ProfileId)
    requires
        task.stage is Reading,
    ensures
        ({
            let (next, turn) = task.after(ImeEventModel::Active { ok, id });
            let active = ok && id.clsid == 0x86598fb966a2463eb9c2aeb906d477ad && id.profile
                == 0x607fdf85fcc84dbda36541296f980c9c;
            &&& active <==> turn == (EnsureTurnModel::Finish {
                leave_apartment: true,
                result: Ok(WeTypeActivation::AlreadyActive),
            })
            &&& active <==> next.stage is Done
            &&& active <==> !(next.stage is Activating)
            &&& !active <==> turn == EnsureTurnModel::Ask(
                ImeQuery::Activate(
                    ProfileId {
                        clsid: 0x86598fb966a2463eb9c2aeb906d477ad,
                        profile: 0x607fdf85fcc84dbda36541296f980c9c,
                    },
                ),
            )
            &&& task.note_on(ImeEventModel::Active { ok, id }) == Some(
                Note::ImeQueried {
                    ok,
                    active_is_wetype: active,
                    active_profile_present: id.clsid != 0,
                },
            )
        }),
{
}

/// Success is reported in two ways only: WeType was found active, or it was switched to
/// without an error and fifty milliseconds have passed since.
pub proof fn activations_succeed_in_two_ways(task: EnsureWeType, event: ImeEventModel)
    ensures
        ({
            let (next, turn) = task.after(event);
            &&& turn matches ImeTurn::Finish { result: Ok(outcome), .. } ==> {
                ||| outcome is AlreadyActive && task.stage is Reading
                ||| outcome is Switched && task.stage is Settling && event is Slept
            }
            &&& task.stage is Settling && event is Slept ==> turn == (EnsureTurnModel::Finish {
                leave_apartment: true,
                result: Ok(WeTypeActivation::Switched),
            })
            &&& next.stage is Settling && !(task.stage is Settling) ==> {
                &&& task.stage is Activating
                &&& event == ImeEventModel::Outcome(None)
                &&& turn == EnsureTurnModel::Ask(ImeQuery::Sleep { millis: 50 })
            }
            &&& next.stage is Activating && !(task.stage is Activating) ==> task.stage is Reading
            &&& !(task.stage is Reading) ==> task.note_on(event) is None
        }),
{
}

/// The task enters an apartment, makes the manager, reads and switches, in this order. Each
/// step that fails ends the task with its own error, and an answer that is not waited for
/// changes nothing.
pub proof fn activations_go_in_order(
    task: EnsureWeType,
    status: i32,
    error: Option<Seq<char>>,
    event: ImeEventModel,
)
    ensures
        task.stage is Initializing ==> ({
            let (next, turn) = task.after(ImeEventModel::Initialized(status));
            if status < 0 {
                next.stage is Done && turn == (EnsureTurnModel::Finish {
                    leave_apartment: false,
                    result: Err(apartment_error(status)),
                })
            } else {
                next.stage is Creating && turn == EnsureTurnModel::Ask(ImeQuery::CreateManager)
            }
        }),
        task.stage is Creating ==> ({
            let (next, turn) = task.after(ImeEventModel::Outcome(error));
            match error {
                None => next.stage is Reading && turn == EnsureTurnModel::Ask(
                    ImeQuery::ReadActive,
                ),
                Some(error) => next.stage is Done && turn == (EnsureTurnModel::Finish {
                    leave_apartment: true,
                    result: Err("创建 TSF 配置管理器失败："@ + error),
                }),
            }
        }),
        task.stage is Activating ==> ({
            let (next, turn) = task.after(ImeEventModel::Outcome(error));
            match error {
                None => next.stage is Settling && turn == EnsureTurnModel::Ask(
                    ImeQuery::Sleep { millis: 50 },
                ),
                Some(error) => next.stage is Done && turn == (EnsureTurnModel::Finish {
                    leave_apartment: true,
                    result: Err("激活微信输入法会话失败："@ + error),
                }),
            }
        }),
        task.after(event).1 is Ignored <==> !(match task.stage {
            EnsureStage::Initializing => event is Initialized,
            EnsureStage::Creating | EnsureStage::Activating => event is Outcome,
            EnsureStage::Reading => event is Active,
            EnsureStage::Settling => event is Slept,
            EnsureStage::Done => false,
        }),
        task.after(event).1 is Ignored ==> task.after(event).0 == task,
{
}

/// WeType can be left for the profile: an input processor, enabled, and not of WeType's
/// class.
pub open spec fn can_be_left_for(profile: Profile) -> bool {
    &&& profile.profile_type == 1
    &&& profile.id.clsid != 0x86598fb966a2463eb9c2aeb906d477ad
    &&& profile.flags & 2 != 0
}

/// Of a batch, the profile that WeType can be left for and that stands before all others
/// of that kind is chosen, and none where there is no such profile.
pub proof fn first_alternatives_are_chosen(batch: Seq<Profile>)
    ensures
        match first_alternative(batch) {
            Some(id) => exists|i: int|
                {
                    &&& 0 <= i < batch.len()
                    &&& (#[trigger] batch[i]).id == id
                    &&& can_be_left_for(batch[i])
                    &&& forall|j: int| 0 <= j < i ==> !can_be_left_for(#[trigger] batch[j])
                },
            None => forall|i: int| 0 <= i < batch.len() ==> !can_be_left_for(#[trigger] batch[i]),
        },
    decreases batch.len(),
{
    if batch.len() > 0 {
        if can_be_left_for(batch[0]) {
            assert(first_alternative(batch) == Some(batch[0].id));
        } else {
            let rest = batch.skip(1);
            first_alternatives_are_chosen(rest);
            if first_alternative(batch) is Some {
                let id = first_alternative(batch)->0;
                let k = choose|k: int|
                    {
                        &&& 0 <= k < rest.len()
                        &&& (#[trigger] rest[k]).id == id
                        &&& can_be_left_for(rest[k])
                        &&& forall|j: int| 0 <= j < k ==> !can_be_left_for(#[trigger] rest[j])
                    };
                assert(batch[k + 1] == rest[k]);
                assert forall|j: int| 0 <= j < k + 1 implies !can_be_left_for(
                    #[trigger] batch[j],
                ) by {
                    if j > 0 {
                        assert(rest[j - 1] == batch[j]);
                    }
                }
            } else {
                assert forall|i: int| 0 <= i < batch.len() implies !can_be_left_for(
                    #[trigger] batch[i],
                ) by {
                    if i > 0 {
                        assert(rest[i - 1] == batch[i]);
                    }
                }
            }
        }
    }
}

/// Profiles are fetched on exactly while a full batch of sixteen offers nothing to leave
/// for. A batch that offers something is followed by a switch to it; a smaller one that
/// does not, or none at all, ends the task.
pub proof fn batches_are_searched_to_the_end(task: CycleProfile, batch: Option<Seq<Profile>>)
    requires
        task.stage is Fetching,
    ensures
        ({
            let (next, turn) = task.after(ImeEventModel::Fetched(batch));
            let offered = batch is Some && exists|i: int|
                0 <= i < batch->0.len() && can_be_left_for(#[trigger] batch->0[i]);
            if offered {
                &&& turn matches ImeTurn::Ask(ImeQuery::Activate(id))
                &&& next.stage == CycleStage::Leaving(id)
                &&& exists|i: int|
                    {
                        &&& 0 <= i < batch->0.len()
                        &&& (#[trigger] batch->0[i]).id == id
                        &&& can_be_left_for(batch->0[i])
                        &&& forall|j: int| 0 <= j < i ==> !can_be_left_for(#[trigger] batch->0[j])
                    }
            } else if batch is Some && batch->0.len() >= 16 {
                next == task && turn == CycleTurnModel::Ask(ImeQuery::Fetch)
            } else {
                next.stage is Done && turn == (CycleTurnModel::Finish {
                    leave_apartment: true,
                    result: Err("无可用作切换的其他输入法配置"@),
                })
            }
        }),
{
    if let Some(batch) = batch {
        first_alternatives_are_chosen(batch);
    }
}

/// A switch away waits fifty milliseconds and comes back to WeType; its report names the
/// class that it went to. A step that fails ends the task with its own error.
pub proof fn switches_go_in_order(
    task: CycleProfile,
    status: i32,
    error: Option<Seq<char>>,
    id: ProfileId,
    event: ImeEventModel,
)
    ensures
        task.stage is Initializing ==> ({
            let (next, turn) = task.after(ImeEventModel::Initialized(status));
            if status < 0 {
                next.stage is Done && turn == (CycleTurnModel::Finish {
                    leave_apartment: false,
                    result: Err(apartment_error(status)),
                })
            } else {
                next.stage is Creating && turn == CycleTurnModel::Ask(ImeQuery::CreateManager)
            }
        }),
        task.stage is Creating ==> ({
            let (next, turn) = task.after(ImeEventModel::Outcome(error));
            match error {
                None => next.stage is Enumerating && turn == CycleTurnModel::Ask(
                    ImeQuery::Enumerate,
                ),
                Some(error) => next.stage is Done && turn == (CycleTurnModel::Finish {
                    leave_apartment: true,
                    result: Err("创建 TSF 配置管理器失败："@ + error),
                }),
            }
        }),
        task.stage is Enumerating ==> ({
            let (next, turn) = task.after(ImeEventModel::Outcome(error));
            match error {
                None => next.stage is Fetching && turn == CycleTurnModel::Ask(ImeQuery::Fetch),
                Some(error) => next.stage is Done && turn == (CycleTurnModel::Finish {
                    leave_apartment: true,
                    result: Err("枚举输入法配置失败："@ + error),
                }),
            }
        }),
        task.stage == CycleStage::Leaving(id) ==> ({
            let (next, turn) = task.after(ImeEventModel::Outcome(error));
            match error {
                None => next.stage == CycleStage::Settling(id) && turn == CycleTurnModel::Ask(
                    ImeQuery::Sleep { millis: 50 },
                ),
                Some(error) => next.stage is Done && turn == (CycleTurnModel::Finish {
                    leave_apartment: true,
                    result: Err("切换到临时输入法失败："@ + error),
                }),
            }
        }),
        task.stage == CycleStage::Settling(id) ==> ({
            let (next, turn) = task.after(ImeEventModel::Slept);
            &&& next.stage == CycleStage::Returning(id)
            &&& turn == CycleTurnModel::Ask(
                ImeQuery::Activate(
                    ProfileId {
                        clsid: 0x86598fb966a2463eb9c2aeb906d477ad,
                        profile: 0x607fdf85fcc84dbda36541296f980c9c,
                    },
                ),
            )
        }),
        task.stage == CycleStage::Returning(id) ==> ({
            let (next, turn) = task.after(ImeEventModel::Outcome(error));
            match error {
                None => next.stage is Done && turn == (CycleTurnModel::Finish {
                    leave_apartment: true,
                    result: Ok(
                        "switched via clsid="@ + hex_word_text(
                            (id.clsid / 0x1_0000_0000_0000_0000_0000_0000) as u32,
                        ) + " and back to WeType"@,
                    ),
                }),
                Some(error) => next.stage is Done && turn == (CycleTurnModel::Finish {
                    leave_apartment: true,
                    result: Err("切回微信输入法失败："@ + error),
                }),
            }
        }),
        task.after(event).1 is Ignored <==> !(match task.stage {
            CycleStage::Initializing => event is Initialized,
            CycleStage::Creating
            | CycleStage::Enumerating
            | CycleStage::Leaving(_)
            | CycleStage::Returning(_) => event is Outcome,
            CycleStage::Fetching => event is Fetched,
            CycleStage::Settling(_) => event is Slept,
            CycleStage::Done => false,
        }),
        task.after(event).1 is Ignored ==> task.after(event).0 == task,
{
}

/// The error of entering the apartment shows the eight hexadecimal digits of the status,
/// negative ones as their complement.
pub proof fn apartment_errors_show_the_status(status: i32)
    ensures
        apartment_error(status) == "CoInitializeEx(STA) 失败：HRESULT(0x"@ + hex_word_text(
            status_word(status),
        ) + ")"@,
        hex_word_text(status_word(status)).len() == 8,
        numeral_value(hex_word_text(status_word(status)), 16) == if status < 0 {
            status + 0x1_0000_0000
        } else {
            status as int
        },
{
    hex_words_mean_their_word(status_word(status));
}

/// The name of a process is the end of its path, holds no separator, and follows one
/// unless it is the whole path.
pub proof fn process_names_hide_the_directories(path: Seq<char>)
    ensures
        ({
            let name = file_name_text(path);
            &&& name.is_suffix_of(path)
            &&& forall|i: int|
                0 <= i < name.len() ==> (#[trigger] name[i]) != '\\' && name[i] != '/'
            &&& name.len() < path.len() ==> {
                let before = path[path.len() - name.len() - 1];
                before == '\\' || before == '/'
            }
        }),
    decreases path.len(),
{
    let name = file_name_text(path);
    if path.len() > 0 && !is_separator(path.last()) {
        let front = path.drop_last();
        process_names_hide_the_directories(front);
        let rest = file_name_text(front);
        assert(name =~= rest.push(path.last()));
        assert(rest =~= front.subrange(front.len() - rest.len(), front.len() as int));
        assert(name =~= path.subrange(path.len() - name.len(), path.len() as int)) by {
            assert forall|i: int| 0 <= i < name.len() implies name[i] == path.subrange(
                path.len() - name.len(),
                path.len() as int,
            )[i] by {
                if i < rest.len() {
                    assert(rest[i] == front.subrange(
                        front.len() - rest.len(),
                        front.len() as int,
                    )[i]);
                }
            }
        }
    }
}

} // verus!
