//! The start of a process that is to be traced.

use vstd::prelude::*;
use vstd::string::StrSliceExecFns;

use crate::args;

verus! {

/// Why a process could not be started.
#[derive(Clone, Copy, Debug, PartialEq, Eq, Structural)]
pub enum TraceeError {
    /// The process could not stop itself.
    RaiseStop,
    /// The layout of the address space could not be fixed.
    Personality,
    /// There is nothing to run.
    NoCommand,
    /// The path of the program is not text.
    InvalidBinaryPath,
}

impl TraceeError {
    /// The error, as it is shown.
    pub open spec fn message_view(self) -> Seq<char> {
        match self {
            TraceeError::RaiseStop => "Unable to raise SIGSTOP"@,
            TraceeError::Personality => "Unable to set ADDR_NO_RANDOMIZE"@,
            TraceeError::NoCommand => "No command"@,
            TraceeError::InvalidBinaryPath => "Invalid binary path"@,
        }
    }

    /// Says what went wrong.
    pub fn message(&self) -> (message: &'static str)
        ensures
            message@ == self.message_view(),
    {
        match self {
            TraceeError::RaiseStop => "Unable to raise SIGSTOP",
            TraceeError::Personality => "Unable to set ADDR_NO_RANDOMIZE",
            TraceeError::NoCommand => "No command",
            TraceeError::InvalidBinaryPath => "Invalid binary path",
        }
    }
}

/// The canonical form of the path of a program.
pub enum CanonicalPath {
    /// There is none.
    Unknown,
    /// It is not text.
    NotText,
    Path(String),
}

/// A change of the environment of a process.
#[derive(Debug, PartialEq)]
pub enum EnvChange {
    /// A variable is set.
    Assign { key: String, value: String },
    /// A variable is removed.
    Remove { key: String },
}

/// A change of the environment, as text.
pub enum EnvView {
    Assign { key: Seq<char>, value: Seq<char> },
    Remove { key: Seq<char> },
}

impl View for EnvChange {
    type V = EnvView;

    open spec fn view(&self) -> EnvView {
        match self {
            EnvChange::Assign { key, value } => EnvView::Assign { key: key@, value: value@ },
            EnvChange::Remove { key } => EnvView::Remove { key: key@ },
        }
    }
}

/// The number of characters before the first `=`.
pub open spec fn key_len(token: Seq<char>) -> int
    decreases token.len(),
{
    if token.len() == 0 || token[0] == '=' {
        0
    } else {
        1 + key_len(token.drop_first())
    }
}

/// What a token asks for: what stands before its first `=` is a variable that is set to the
/// rest, or removed where there is no `=`.
pub open spec fn env_change(token: Seq<char>) -> EnvView {
    if key_len(token) < token.len() {
        EnvView::Assign { key: token.take(key_len(token)), value: token.skip(key_len(token) + 1) }
    } else {
        EnvView::Remove { key: token }
    }
}

/// There is no `=` before the first one, and there is one after the key if anything is.
pub proof fn lemma_key_len(token: Seq<char>)
    ensures
        0 <= key_len(token) <= token.len(),
        forall|i: int| 0 <= i < key_len(token) ==> token[i] != '=',
        key_len(token) < token.len() ==> token[key_len(token)] == '=',
    decreases token.len(),
{
    if token.len() > 0 && token[0] != '=' {
        let rest = token.drop_first();
        lemma_key_len(rest);
        assert forall|i: int| 0 <= i < key_len(token) implies token[i] != '=' by {
            if i > 0 {
                assert(rest[i - 1] == token[i]);
            }
        }
        if key_len(token) < token.len() {
            assert(rest[key_len(rest)] == token[key_len(token)]);
        }
    }
}

/// Reads a change of the environment.
pub fn parse_env_token(token: &String) -> (change: EnvChange)
    ensures
        change@ == env_change(token@),
{
    let text = token.as_str();
    let len: usize = text.unicode_len();
    let mut i: usize = 0;
    proof {
        lemma_key_len(token@);
    }
    while i < len && text.get_char(i) != '='
        invariant
            text@ == token@,
            len == token@.len(),
            0 <= i <= key_len(token@) <= len,
            forall|j: int| 0 <= j < key_len(token@) ==> token@[j] != '=',
            key_len(token@) < token@.len() ==> token@[key_len(token@)] == '=',
        decreases len - i,
    {
        i += 1;
    }
    if i < len {
        let key = text.substring_char(0, i).to_owned();
        let value = text.substring_char(i + 1, len).to_owned();
        assert(key@ =~= token@.take(key_len(token@)));
        assert(value@ =~= token@.skip(key_len(token@) + 1));
        EnvChange::Assign { key, value }
    } else {
        EnvChange::Remove { key: token.clone() }
    }
}

/// How far the start of a process has come.
#[derive(Clone, Copy, Debug, PartialEq, Eq, Structural)]
pub enum Stage {
    /// It asks to be traced.
    Tracing,
    /// It looks whether it is to stop itself.
    CheckingStop,
    /// It stops itself, for its tracer to catch up.
    Stopping,
    /// It fixes the layout of its address space.
    FixingAddresses,
    /// It looks for the program.
    Resolving,
    /// It looks for the user that the program is to run as.
    FindingUser,
    /// It becomes the program.
    Starting,
    /// It failed, or the program could not be run.
    Over,
}

/// What is asked for to start a process.
#[derive(Clone, Copy, Debug, PartialEq, Eq, Structural)]
pub enum TraceeAction {
    /// Let the parent trace this process.
    Traceme,
    /// Look whether stopping is switched off.
    CheckStop,
    /// Stop this process.
    RaiseStop,
    /// Switch off the randomisation of addresses.
    FixAddresses,
    /// Find the canonical form of the path of the program.
    Canonicalize,
    /// Find the user.
    FindUser,
    /// Become the program.
    Exec,
    /// Give up.
    Fail(TraceeError),
    /// Give up, with the error that came of what was asked for last.
    Propagate,
    /// There is nothing left to do.
    Finish,
}

/// What comes of what was asked for.
pub enum TraceeEvent {
    Done,
    Failed,
    /// Stopping is switched off, or not.
    StopDisabled(bool),
    Canonical(CanonicalPath),
    /// The number of the user, if there is one of that name.
    User(Option<u32>),
}

/// A process that is being started.
pub struct Tracee {
    command: Vec<String>,
    envs: Vec<String>,
    username: Option<String>,
    stage: Stage,
    binary: String,
    uid: Option<u32>,
}

/// A process that is being started, as text.
#[verifier::ext_equal]
pub struct TraceeState {
    /// The program and its arguments.
    pub command: Seq<Seq<char>>,
    /// The changes of the environment.
    pub envs: Seq<Seq<char>>,
    /// The user that the program is to run as.
    pub username: Option<Seq<char>>,
    pub stage: Stage,
    /// The path of the program.
    pub binary: Seq<char>,
    pub uid: Option<u32>,
}

impl View for Tracee {
    type V = TraceeState;

    closed spec fn view(&self) -> TraceeState {
        TraceeState {
            command: args::texts(self.command@),
            envs: args::texts(self.envs@),
            username: match self.username {
                Some(username) => Some(username@),
                None => None,
            },
            stage: self.stage,
            binary: self.binary@,
            uid: self.uid,
        }
    }
}

/// How to run the program.
pub struct TraceePlan {
    pub binary: String,
    pub args: Vec<String>,
    pub env: Vec<EnvChange>,
    pub uid: Option<u32>,
}

/// The event answers what was asked for last.
pub open spec fn is_tracee_answer(stage: Stage, event: TraceeEvent) -> bool {
    match event {
        TraceeEvent::Done => stage is Tracing || stage is Stopping || stage is FixingAddresses,
        TraceeEvent::Failed => stage is Tracing || stage is Stopping || stage is FixingAddresses
            || stage is Starting,
        TraceeEvent::StopDisabled(_) => stage is CheckingStop,
        TraceeEvent::Canonical(_) => stage is Resolving,
        TraceeEvent::User(_) => stage is FindingUser,
    }
}

/// What an event makes of the start of a process, and what is asked for next.
pub open spec fn tracee_next(tracee: TraceeState, event: TraceeEvent) -> (
    TraceeState,
    TraceeAction,
) {
    let over = |error: TraceeError|
        (TraceeState { stage: Stage::Over, ..tracee }, TraceeAction::Fail(error));
    match event {
        TraceeEvent::Done => match tracee.stage {
            Stage::Tracing => (
                TraceeState { stage: Stage::CheckingStop, ..tracee },
                TraceeAction::CheckStop,
            ),
            Stage::Stopping => (
                TraceeState { stage: Stage::FixingAddresses, ..tracee },
                TraceeAction::FixAddresses,
            ),
            _ => if tracee.command.len() == 0 {
                over(TraceeError::NoCommand)
            } else {
                (
                    TraceeState { stage: Stage::Resolving, binary: tracee.command[0], ..tracee },
                    TraceeAction::Canonicalize,
                )
            },
        },
        TraceeEvent::Failed => match tracee.stage {
            Stage::Stopping => over(TraceeError::RaiseStop),
            Stage::FixingAddresses => over(TraceeError::Personality),
            Stage::Starting => (
                TraceeState { stage: Stage::Over, ..tracee },
                TraceeAction::Finish,
            ),
            _ => (TraceeState { stage: Stage::Over, ..tracee }, TraceeAction::Propagate),
        },
        TraceeEvent::StopDisabled(disabled) => if disabled {
            (
                TraceeState { stage: Stage::FixingAddresses, ..tracee },
                TraceeAction::FixAddresses,
            )
        } else {
            (TraceeState { stage: Stage::Stopping, ..tracee }, TraceeAction::RaiseStop)
        },
        TraceeEvent::Canonical(CanonicalPath::NotText) => over(TraceeError::InvalidBinaryPath),
        TraceeEvent::Canonical(canonical) => {
            let found = TraceeState {
                binary: match canonical {
                    CanonicalPath::Path(path) => path@,
                    _ => tracee.binary,
                },
                ..tracee
            };
            if tracee.username is Some {
                (TraceeState { stage: Stage::FindingUser, ..found }, TraceeAction::FindUser)
            } else {
                (TraceeState { stage: Stage::Starting, ..found }, TraceeAction::Exec)
            }
        },
        TraceeEvent::User(uid) => (
            TraceeState { stage: Stage::Starting, uid, ..tracee },
            TraceeAction::Exec,
        ),
    }
}

impl TraceeState {
    /// There is a program to run, once it is looked for.
    pub open spec fn is_valid(self) -> bool {
        self.stage is Resolving || self.stage is FindingUser || self.stage is Starting
            ==> self.command.len() > 0
    }
}

/// How many steps at most are left to start a process.
pub open spec fn stages_left(stage: Stage) -> nat {
    match stage {
        Stage::Tracing => 7,
        Stage::CheckingStop => 6,
        Stage::Stopping => 5,
        Stage::FixingAddresses => 4,
        Stage::Resolving => 3,
        Stage::FindingUser => 2,
        Stage::Starting => 1,
        Stage::Over => 0,
    }
}

/// The start of a process comes to an end in a few steps, and a program is only ever run where
/// a command was given.
pub proof fn start_comes_to_an_end(tracee: TraceeState, event: TraceeEvent)
    requires
        tracee.is_valid(),
        is_tracee_answer(tracee.stage, event),
    ensures
        ({
            let (after, action) = tracee_next(tracee, event);
            &&& after.is_valid()
            &&& after.command == tracee.command
            &&& after.envs == tracee.envs
            &&& stages_left(after.stage) < stages_left(tracee.stage)
            &&& action is Exec <==> after.stage is Starting
        }),
{
}

/// A token is the key, followed by `=` and the value where a variable is set; and there is no
/// `=` in the key.
pub proof fn env_token_is_key_and_value(token: Seq<char>)
    ensures
        match env_change(token) {
            EnvView::Assign { key, value } => token == key + seq!['='] + value && !key.contains(
                '=',
            ),
            EnvView::Remove { key } => token == key && !key.contains('='),
        },
{
    lemma_key_len(token);
    let n = key_len(token);
    if n < token.len() {
        assert(token =~= token.take(n) + seq!['='] + token.skip(n + 1));
    }
}

/// Starts a command, in the environment and as the user of this process.
pub fn run_tracee(command: Vec<String>) -> (tracee: Tracee)
    ensures
        tracee@ == (TraceeState {
            command: args::texts(command@),
            envs: Seq::empty(),
            username: None,
            stage: Stage::Tracing,
            binary: Seq::empty(),
            uid: None,
        }),
        tracee@.is_valid(),
{
    let tracee = run_tracee_as(command, Vec::new(), None);
    assert(tracee@.envs =~= Seq::empty());
    tracee
}

/// Starts a command, with changes of the environment and as another user.
pub fn run_tracee_as(command: Vec<String>, envs: Vec<String>, username: Option<String>) -> (tracee:
    Tracee)
    ensures
        tracee@ == (TraceeState {
            command: args::texts(command@),
            envs: args::texts(envs@),
            username: match username {
                Some(username) => Some(username@),
                None => None,
            },
            stage: Stage::Tracing,
            binary: Seq::empty(),
            uid: None,
        }),
        tracee@.is_valid(),
{
    Tracee { command, envs, username, stage: Stage::Tracing, binary: String::new(), uid: None }
}

impl Tracee {
    /// How far the start has come.
    pub fn stage(&self) -> (stage: Stage)
        ensures
            stage == self@.stage,
    {
        self.stage
    }

    /// The path of the program.
    pub fn binary(&self) -> (binary: &String)
        ensures
            binary@ == self@.binary,
    {
        &self.binary
    }

    /// The user that the program is to run as.
    pub fn username(&self) -> (username: Option<&String>)
        ensures
            match username {
                Some(username) => self@.username == Some(username@),
                None => self@.username is None,
            },
    {
        match &self.username {
            Some(username) => Some(username),
            None => None,
        }
    }

    /// Takes the answer to what was asked for last, and says what is to be done next. The
    /// first thing to do is `TraceeAction::Traceme`.
    pub fn step(&mut self, event: TraceeEvent) -> (action: TraceeAction)
        requires
            is_tracee_answer(old(self)@.stage, event),
        ensures
            (final(self)@, action) == tracee_next(old(self)@, event),
    {
        match event {
            TraceeEvent::Done => match self.stage {
                Stage::Tracing => {
                    self.stage = Stage::CheckingStop;
                    TraceeAction::CheckStop
                },
                Stage::Stopping => {
                    self.stage = Stage::FixingAddresses;
                    TraceeAction::FixAddresses
                },
                _ => {
                    if self.command.len() == 0 {
                        self.stage = Stage::Over;
                        TraceeAction::Fail(TraceeError::NoCommand)
                    } else {
                        self.stage = Stage::Resolving;
                        self.binary = self.command[0].clone();
                        TraceeAction::Canonicalize
                    }
                },
            },
            TraceeEvent::Failed => {
                let action = match self.stage {
                    Stage::Stopping => TraceeAction::Fail(TraceeError::RaiseStop),
                    Stage::FixingAddresses => TraceeAction::Fail(TraceeError::Personality),
                    Stage::Starting => TraceeAction::Finish,
                    _ => TraceeAction::Propagate,
                };
                self.stage = Stage::Over;
                action
            },
            TraceeEvent::StopDisabled(disabled) => {
                if disabled {
                    self.stage = Stage::FixingAddresses;
                    TraceeAction::FixAddresses
                } else {
                    self.stage = Stage::Stopping;
                    TraceeAction::RaiseStop
                }
            },
            TraceeEvent::Canonical(canonical) => {
                match canonical {
                    CanonicalPath::NotText => {
                        self.stage = Stage::Over;
                        return TraceeAction::Fail(TraceeError::InvalidBinaryPath);
                    },
                    CanonicalPath::Path(path) => {
                        self.binary = path;
                    },
                    CanonicalPath::Unknown => {},
                }
                if self.username.is_some() {
                    self.stage = Stage::FindingUser;
                    TraceeAction::FindUser
                } else {
                    self.stage = Stage::Starting;
                    TraceeAction::Exec
                }
            },
            TraceeEvent::User(uid) => {
                self.uid = uid;
                self.stage = Stage::Starting;
                TraceeAction::Exec
            },
        }
    }

    /// Says how to run the program: with what follows it in the command as its arguments, and
    /// with the changes of the environment in their order.
    pub fn plan(&self) -> (plan: TraceePlan)
        requires
            self@.command.len() > 0,
        ensures
            plan.binary@ == self@.binary,
            args::texts(plan.args@) == self@.command.drop_first(),
            plan.env@.map_values(|change: EnvChange| change@) == self@.envs.map_values(
                |token: Seq<char>| env_change(token),
            ),
            plan.uid == self@.uid,
    {
        let mut arguments: Vec<String> = Vec::new();
        let mut i: usize = 1;
        while i < self.command.len()
            invariant
                1 <= i <= self.command.len(),
                args::texts(arguments@) == args::texts(self.command@).subrange(1, i as int),
            decreases self.command.len() - i,
        {
            let ghost before = arguments@;
            arguments.push(self.command[i].clone());
            assert(args::texts(arguments@) =~= args::texts(before).push(self.command@[i as int]@));
            assert(args::texts(arguments@) =~= args::texts(self.command@).subrange(1, i + 1));
            i += 1;
        }
        assert(args::texts(arguments@) =~= self@.command.drop_first());
        let mut env: Vec<EnvChange> = Vec::new();
        let mut j: usize = 0;
        while j < self.envs.len()
            invariant
                j <= self.envs.len(),
                env.len() == j,
                forall|k: int| 0 <= k < j ==> (#[trigger] env@[k])@ == env_change(self.envs@[k]@),
            decreases self.envs.len() - j,
        {
            env.push(parse_env_token(&self.envs[j]));
            j += 1;
        }
        assert(env@.map_values(|change: EnvChange| change@) =~= self@.envs.map_values(
            |token: Seq<char>| env_change(token),
        ));
        TraceePlan { binary: self.binary.clone(), args: arguments, env, uid: self.uid }
    }
}

/// A failure to start a process says what could not be done.
pub proof fn failures_say_what_could_not_be_done()
    ensures
        TraceeError::RaiseStop.message_view() == "Unable to raise SIGSTOP"@,
        TraceeError::Personality.message_view() == "Unable to set ADDR_NO_RANDOMIZE"@,
        TraceeError::NoCommand.message_view() == "No command"@,
        TraceeError::InvalidBinaryPath.message_view() == "Invalid binary path"@,
{
}

/// A change of the environment is seen as what its strings hold.
pub proof fn change_shows_its_strings(key: String, value: String)
    ensures
        (EnvChange::Assign { key, value })@ == (EnvView::Assign { key: key@, value: value@ }),
        (EnvChange::Remove { key })@ == (EnvView::Remove { key: key@ }),
{
}

/// A variable is set if and only if there is a `=` in the token: its name is what stands before
/// the first one, and its value all that stands behind it.
pub proof fn first_equals_sign_divides_a_token(token: Seq<char>, at: int)
    requires
        0 <= at < token.len(),
        token[at] == '=',
        forall|i: int| 0 <= i < at ==> token[i] != '=',
    ensures
        env_change(token) == (EnvView::Assign { key: token.take(at), value: token.skip(at + 1) }),
{
    lemma_key_len(token);
    let n = key_len(token);
    if n < at {
        assert(token[n] != '=');
    }
    if n > at {
        assert(token[at] != '=');
    }
}

/// A token without a `=` removes the variable that it names.
pub proof fn token_without_equals_sign_removes(token: Seq<char>)
    requires
        forall|i: int| 0 <= i < token.len() ==> token[i] != '=',
    ensures
        env_change(token) == (EnvView::Remove { key: token }),
{
    lemma_key_len(token);
}

/// What is kept while a process is started: only the stage, the program and the user change.
pub open spec fn keeps_request(after: TraceeState, before: TraceeState) -> bool {
    &&& after.command == before.command
    &&& after.envs == before.envs
    &&& after.username == before.username
}

/// A process asks to be traced; then it stops itself, unless that is switched off; then it fixes
/// its addresses. Where one of these fails it gives up, and says which.
pub proof fn process_prepares_to_be_traced(tracee: TraceeState)
    ensures
        tracee.stage is Tracing ==> {
            let (done, action) = tracee_next(tracee, TraceeEvent::Done);
            let (failed, error) = tracee_next(tracee, TraceeEvent::Failed);
            &&& is_tracee_answer(tracee.stage, TraceeEvent::Done)
            &&& is_tracee_answer(tracee.stage, TraceeEvent::Failed)
            &&& action == TraceeAction::CheckStop
            &&& done == (TraceeState { stage: Stage::CheckingStop, ..tracee })
            &&& error == TraceeAction::Propagate
            &&& failed == (TraceeState { stage: Stage::Over, ..tracee })
        },
        tracee.stage is CheckingStop ==> forall|disabled: bool|
            {
                let (done, action) = #[trigger] tracee_next(
                    tracee,
                    TraceeEvent::StopDisabled(disabled),
                );
                &&& is_tracee_answer(tracee.stage, TraceeEvent::StopDisabled(disabled))
                &&& disabled ==> action == TraceeAction::FixAddresses && done == (TraceeState {
                    stage: Stage::FixingAddresses,
                    ..tracee
                })
                &&& !disabled ==> action == TraceeAction::RaiseStop && done == (TraceeState {
                    stage: Stage::Stopping,
                    ..tracee
                })
            },
        tracee.stage is Stopping ==> {
            let (done, action) = tracee_next(tracee, TraceeEvent::Done);
            let (failed, error) = tracee_next(tracee, TraceeEvent::Failed);
            &&& is_tracee_answer(tracee.stage, TraceeEvent::Done)
            &&& is_tracee_answer(tracee.stage, TraceeEvent::Failed)
            &&& action == TraceeAction::FixAddresses
            &&& done == (TraceeState { stage: Stage::FixingAddresses, ..tracee })
            &&& error == TraceeAction::Fail(TraceeError::RaiseStop)
            &&& failed == (TraceeState { stage: Stage::Over, ..tracee })
        },
        tracee.stage is FixingAddresses ==> {
            let (failed, error) = tracee_next(tracee, TraceeEvent::Failed);
            &&& is_tracee_answer(tracee.stage, TraceeEvent::Done)
            &&& is_tracee_answer(tracee.stage, TraceeEvent::Failed)
            &&& error == TraceeAction::Fail(TraceeError::Personality)
            &&& failed == (TraceeState { stage: Stage::Over, ..tracee })
        },
{
}

/// The first word of the command is the program, and it is looked for; an empty command is given
/// up.
pub proof fn first_word_is_the_program(tracee: TraceeState)
    requires
        tracee.stage is FixingAddresses,
    ensures
        ({
            let (done, action) = tracee_next(tracee, TraceeEvent::Done);
            &&& keeps_request(done, tracee) && done.uid == tracee.uid
            &&& tracee.command.len() == 0 ==> action == TraceeAction::Fail(TraceeError::NoCommand)
                && done.stage is Over && done.binary == tracee.binary
            &&& tracee.command.len() > 0 ==> action == TraceeAction::Canonicalize && done.stage
                is Resolving && done.binary == tracee.command[0]
        }),
{
}

/// The program is run by its canonical path where there is one, and as it was given where there
/// is none; a path that is no text is given up. Before that the user is looked for, where one is
/// wanted.
pub proof fn program_is_run_by_its_canonical_path(tracee: TraceeState, path: String)
    requires
        tracee.stage is Resolving,
    ensures
        ({
            let (unknown, action) = tracee_next(
                tracee,
                TraceeEvent::Canonical(CanonicalPath::Unknown),
            );
            let (found, same) = tracee_next(
                tracee,
                TraceeEvent::Canonical(CanonicalPath::Path(path)),
            );
            let (over, error) = tracee_next(
                tracee,
                TraceeEvent::Canonical(CanonicalPath::NotText),
            );
            &&& is_tracee_answer(tracee.stage, TraceeEvent::Canonical(CanonicalPath::Unknown))
            &&& is_tracee_answer(tracee.stage, TraceeEvent::Canonical(CanonicalPath::Path(path)))
            &&& is_tracee_answer(tracee.stage, TraceeEvent::Canonical(CanonicalPath::NotText))
            &&& unknown == (TraceeState { stage: unknown.stage, ..tracee })
            &&& found == (TraceeState { stage: unknown.stage, binary: path@, ..tracee })
            &&& action == same
            &&& tracee.username is Some ==> action == TraceeAction::FindUser && unknown.stage
                is FindingUser
            &&& tracee.username is None ==> action == TraceeAction::Exec && unknown.stage
                is Starting
            &&& error == TraceeAction::Fail(TraceeError::InvalidBinaryPath)
            &&& over == (TraceeState { stage: Stage::Over, ..tracee })
        }),
{
}

/// The program is run as the user that was found, or as the user of this process where there is
/// none of that name; and where it cannot be run there is nothing left to do.
pub proof fn program_is_run_as_the_user_that_was_found(tracee: TraceeState, uid: Option<u32>)
    ensures
        tracee.stage is FindingUser ==> {
            let (done, action) = tracee_next(tracee, TraceeEvent::User(uid));
            &&& is_tracee_answer(tracee.stage, TraceeEvent::User(uid))
            &&& action == TraceeAction::Exec
            &&& done == (TraceeState { stage: Stage::Starting, uid, ..tracee })
        },
        tracee.stage is Starting ==> {
            let (done, action) = tracee_next(tracee, TraceeEvent::Failed);
            &&& is_tracee_answer(tracee.stage, TraceeEvent::Failed)
            &&& action == TraceeAction::Finish
            &&& done == (TraceeState { stage: Stage::Over, ..tracee })
        },
{
}

} // verus!
