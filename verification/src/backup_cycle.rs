//! One scheduled backup task, as a state machine: it waits for its schedule,
//! puts the server's saves on hold, asks for the list of files until the
//! server gives it, has them archived and resumes the saves.
use vstd::prelude::*;

use crate::config::{backup_dir, subfolder_of, BackupSchedule};
use crate::save_query::{
    output_matches, pair_view, query_pattern, regex_captures, sizes_ok, BackupOutput, QueryLine,
    SaveQueryParser,
};
use crate::text::contains_seq;

verus! {

/// Where a backup task stands.
#[derive(Clone, Copy, PartialEq, Eq, Structural, Debug)]
pub enum CycleState {
    /// Not started.
    Idle,
    /// Waiting for the schedule's next time.
    Waiting,
    /// Saves are on hold; waiting before asking for the file list.
    Polling,
    /// Saves are on hold; reading the server's answer to `save query`.
    Reading,
    /// Saves are on hold; the files are being archived.
    Archiving,
    /// The task has ended.
    Stopped,
}

/// What happened, as the task's driver reports it.
pub enum CycleEvent {
    /// The task starts.
    Started,
    /// The schedule's time has come; whether any player is online.
    WaitElapsed { players_online: bool },
    /// The delay before asking for the file list is over.
    PollDue,
    /// The server printed a line.
    Line(String),
    /// The console stream reported an error or dropped lines.
    StreamError,
    /// The console stream has ended.
    ChannelClosed,
    /// The archive was written (`ok`) or failed.
    ArchiveFinished { ok: bool },
}

/// What a console line means while the task reads, abstractly.
#[derive(Clone, Copy, PartialEq, Eq, Structural, Debug)]
pub enum LineKind {
    Files,
    BadSize,
    NotCompleted,
    Other,
}

/// An event, abstractly.
pub enum EventKind {
    Started,
    WaitElapsed(bool),
    PollDue,
    Line(LineKind),
    StreamError,
    ChannelClosed,
    ArchiveFinished(bool),
}

/// The kind of a console line, from the query pattern's matches in it.
pub open spec fn query_line_kind(caps: Seq<(Seq<char>, Seq<char>)>, line: Seq<char>) -> LineKind {
    if caps.len() > 0 {
        if sizes_ok(caps) {
            LineKind::Files
        } else {
            LineKind::BadSize
        }
    } else if contains_seq(line, "A previous save has not been completed"@) {
        LineKind::NotCompleted
    } else {
        LineKind::Other
    }
}

/// The state after an event; events that do not fit the state change
/// nothing.
pub open spec fn next_state(s: CycleState, e: EventKind) -> CycleState {
    match (s, e) {
        (CycleState::Idle, EventKind::Started) => CycleState::Waiting,
        (CycleState::Waiting, EventKind::WaitElapsed(players)) => if players {
            CycleState::Polling
        } else {
            CycleState::Waiting
        },
        (CycleState::Polling, EventKind::PollDue) => CycleState::Reading,
        (CycleState::Reading, EventKind::Line(k)) => match k {
            LineKind::Files => CycleState::Archiving,
            // excluded from `step` by its `requires`
            LineKind::BadSize => s,
            LineKind::NotCompleted => CycleState::Polling,
            LineKind::Other => CycleState::Reading,
        },
        (CycleState::Reading, EventKind::ChannelClosed) => CycleState::Stopped,
        (CycleState::Archiving, EventKind::ArchiveFinished(_)) => CycleState::Waiting,
        _ => s,
    }
}

pub open spec fn say_starting() -> Seq<char> {
    "say §g§l[bedrockd]§r Starting server backup..."@
}

pub open spec fn say_complete() -> Seq<char> {
    "say §g§l[bedrockd]§r Server backup complete!"@
}

pub open spec fn say_failed() -> Seq<char> {
    "say §c§l[bedrockd]§r Server backup failed!"@
}

pub open spec fn save_hold() -> Seq<char> {
    "save hold"@
}

pub open spec fn save_query() -> Seq<char> {
    "save query"@
}

pub open spec fn save_resume() -> Seq<char> {
    "save resume"@
}

/// The commands sent to the server on an event, in order.
pub open spec fn commands_of(s: CycleState, e: EventKind) -> Seq<Seq<char>> {
    match (s, e) {
        (CycleState::Waiting, EventKind::WaitElapsed(true)) => seq![say_starting(), save_hold()],
        (CycleState::Polling, EventKind::PollDue) => seq![save_query()],
        (CycleState::Archiving, EventKind::ArchiveFinished(ok)) => seq![
            save_resume(),
            if ok {
                say_complete()
            } else {
                say_failed()
            },
        ],
        _ => Seq::empty(),
    }
}

/// What the driver does next.
pub enum Action {
    /// Wait until the schedule's next time (`wait_seconds_now`), then report
    /// `WaitElapsed`.
    WaitSchedule,
    /// Sleep this many seconds, then report `PollDue`.
    Delay(u64),
    /// Read the next console line.
    ReadLine,
    /// Archive these files (adding the world's table files) into `dir`,
    /// keeping at most `limit` archives, then report `ArchiveFinished`.
    Archive { files: Vec<BackupOutput>, dir: String, limit: u16 },
    /// End the task.
    Stop,
    /// The event does not fit the task's state and was ignored: go on as
    /// before.
    Continue,
}

/// The event is one the state waits for.
pub open spec fn event_fits(s: CycleState, e: EventKind) -> bool {
    match (s, e) {
        (CycleState::Idle, EventKind::Started) => true,
        (CycleState::Waiting, EventKind::WaitElapsed(_)) => true,
        (CycleState::Polling, EventKind::PollDue) => true,
        (CycleState::Reading, EventKind::Line(_)) => true,
        (CycleState::Reading, EventKind::StreamError) => true,
        (CycleState::Reading, EventKind::ChannelClosed) => true,
        (CycleState::Archiving, EventKind::ArchiveFinished(_)) => true,
        _ => false,
    }
}

/// The action for a state reached after an event.
pub open spec fn action_fits(a: Action, s: CycleState) -> bool {
    match s {
        CycleState::Idle => a is WaitSchedule,
        CycleState::Waiting => a is WaitSchedule,
        CycleState::Polling => a matches Action::Delay(secs) && secs == 3,
        CycleState::Reading => a is ReadLine,
        CycleState::Archiving => a is Archive,
        CycleState::Stopped => a is Stop,
    }
}

/// The saves are on hold in this state.
pub open spec fn on_hold(s: CycleState) -> bool {
    s is Polling || s is Reading || s is Archiving
}

/// One scheduled backup task.
pub struct BackupCycle {
    schedule: BackupSchedule,
    backup_path: String,
    parser: SaveQueryParser,
    state: CycleState,
}

/// The result of a step: the commands to send, in order, and what to do next.
pub struct Step {
    pub commands: Vec<String>,
    pub action: Action,
}

/// A console line is no file list with a size that is no `usize` numeral
/// (which the server never prints, and on which reading the list panics).
pub open spec fn line_readable(pattern: Seq<char>, line: Seq<char>) -> bool {
    query_line_kind(regex_captures(pattern, line), line) != LineKind::BadSize
}

/// The event can be taken by `step`: while reading, a line must be readable.
pub open spec fn event_readable(c: BackupCycle, event: CycleEvent) -> bool {
    c.state_of() == CycleState::Reading ==> (event matches CycleEvent::Line(line) ==> line_readable(
        c.pattern_of(),
        line@,
    ))
}

/// What a step does: the state moves to `next_state`, the commands are
/// `commands_of`, the action fits the state reached, and an archive action
/// carries the files of the line's matches, the schedule's directory and its
/// limit.
pub open spec fn step_post(old: BackupCycle, event: CycleEvent, new: BackupCycle, r: Step) -> bool {
    &&& (new.schedule_of() == old.schedule_of())
    &&& (new.backup_path_of() == old.backup_path_of())
    &&& (new.pattern_of() == old.pattern_of())
    &&& (({
        let k = match event {
            CycleEvent::Started => EventKind::Started,
            CycleEvent::WaitElapsed { players_online } => EventKind::WaitElapsed(players_online),
            CycleEvent::PollDue => EventKind::PollDue,
            CycleEvent::Line(line) => EventKind::Line(
                query_line_kind(regex_captures(old.pattern_of(), line@), line@),
            ),
            CycleEvent::StreamError => EventKind::StreamError,
            CycleEvent::ChannelClosed => EventKind::ChannelClosed,
            CycleEvent::ArchiveFinished { ok } => EventKind::ArchiveFinished(ok),
        };
        &&& new.state_of() == next_state(old.state_of(), k)
        &&& r.commands@.map_values(|c: String| c@) == commands_of(old.state_of(), k)
        &&& event_fits(old.state_of(), k) ==> action_fits(r.action, new.state_of())
        &&& !event_fits(old.state_of(), k) ==> r.action is Continue
    }))
    &&& (r.action matches Action::Archive { files, dir, limit } ==> {
        &&& event matches CycleEvent::Line(line) && {
            let caps = regex_captures(old.pattern_of(), line@);
            &&& files@.len() == caps.len()
            &&& forall|i: int| 0 <= i < caps.len() ==> output_matches(#[trigger] files@[i], caps[i])
        }
        &&& dir@ == old.backup_path_of() + seq!['/'] + subfolder_of(old.schedule_of().frequency)
        &&& limit == old.schedule_of().limit
    })
}

impl BackupCycle {
    pub closed spec fn state_of(&self) -> CycleState {
        self.state
    }

    pub closed spec fn schedule_of(&self) -> BackupSchedule {
        self.schedule
    }

    pub closed spec fn backup_path_of(&self) -> Seq<char> {
        self.backup_path@
    }

    pub closed spec fn pattern_of(&self) -> Seq<char> {
        self.parser.pattern_of()
    }

    /// A task for a schedule that archives under `backup_path`.
    pub fn new(schedule: BackupSchedule, backup_path: String, parser: SaveQueryParser) -> (r: Self)
        ensures
            r.state_of() == CycleState::Idle,
            r.schedule_of() == schedule,
            r.backup_path_of() == backup_path@,
            r.pattern_of() == parser.pattern_of(),
    {
        BackupCycle { schedule, backup_path, parser, state: CycleState::Idle }
    }

    /// Where the task stands.
    pub fn state(&self) -> (s: CycleState)
        ensures
            s == self.state_of(),
    {
        self.state
    }

    /// The task's schedule.
    pub fn schedule(&self) -> (s: BackupSchedule)
        ensures
            s == self.schedule_of(),
    {
        self.schedule
    }

    fn line_kind(q: &QueryLine) -> (k: LineKind)
        ensures
            k == match q {
                QueryLine::Files(_) => LineKind::Files,
                QueryLine::BadSize => LineKind::BadSize,
                QueryLine::NotCompleted => LineKind::NotCompleted,
                QueryLine::Other => LineKind::Other,
            },
    {
        match q {
            QueryLine::Files(_) => LineKind::Files,
            QueryLine::BadSize => LineKind::BadSize,
            QueryLine::NotCompleted => LineKind::NotCompleted,
            QueryLine::Other => LineKind::Other,
        }
    }

    /// Whether a console line can be read: it is no file list with a size
    /// that is no `usize` numeral.
    pub fn line_is_readable(&self, line: &str) -> (b: bool)
        ensures
            b == line_readable(self.pattern_of(), line@),
    {
        let q = self.parser.classify(line);
        let k = Self::line_kind(&q);
        k != LineKind::BadSize
    }

    /// Takes one event as `step` does, where `step` can take it; `None`,
    /// with the task unchanged, for an unreadable line while reading (the
    /// driver panics there).
    pub fn step_checked(&mut self, event: CycleEvent) -> (r: Option<Step>)
        ensures
            r is None <==> !event_readable(*old(self), event),
            r is None ==> *final(self) == *old(self),
            r matches Some(st) ==> step_post(*old(self), event, *final(self), st),
    {
        let readable = match &event {
            CycleEvent::Line(line) => self.state != CycleState::Reading || self.line_is_readable(
                line.as_str(),
            ),
            _ => true,
        };
        if readable {
            Some(self.step(event))
        } else {
            None
        }
    }

    /// Takes one event: moves to `next_state`, says which commands to send
    /// (`commands_of`) and what to do next. A console line is read with the
    /// task's query pattern; where it lists the files, the action archives
    /// them into the schedule's directory under the schedule's limit.
    pub fn step(&mut self, event: CycleEvent) -> (r: Step)
        requires
            event_readable(*old(self), event),
        ensures
            step_post(*old(self), event, *final(self), r),
    {
        let mut commands: Vec<String> = Vec::new();
        let ghost cmd_view = |c: String| c@;
        match event {
            CycleEvent::Started => {
                if self.state == CycleState::Idle {
                    self.state = CycleState::Waiting;
                    assert(commands@.map_values(cmd_view) =~= Seq::<Seq<char>>::empty());
                    return Step { commands, action: Action::WaitSchedule };
                }
            },
            CycleEvent::WaitElapsed { players_online } => {
                if self.state == CycleState::Waiting {
                    if players_online {
                        self.state = CycleState::Polling;
                        commands.push("say §g§l[bedrockd]§r Starting server backup...".to_owned());
                        commands.push("save hold".to_owned());
                        assert(commands@.map_values(cmd_view) =~= seq![say_starting(), save_hold()]);
                        return Step { commands, action: Action::Delay(3) };
                    } else {
                        assert(commands@.map_values(cmd_view) =~= Seq::<Seq<char>>::empty());
                        return Step { commands, action: Action::WaitSchedule };
                    }
                }
            },
            CycleEvent::PollDue => {
                if self.state == CycleState::Polling {
                    self.state = CycleState::Reading;
                    commands.push("save query".to_owned());
                    assert(commands@.map_values(cmd_view) =~= seq![save_query()]);
                    return Step { commands, action: Action::ReadLine };
                }
            },
            CycleEvent::Line(line) => {
                if self.state == CycleState::Reading {
                    assert(commands@.map_values(cmd_view) =~= Seq::<Seq<char>>::empty());
                    let q = self.parser.classify(line.as_str());
                    let k = Self::line_kind(&q);
                    match q {
                        QueryLine::Files(files) => {
                            self.state = CycleState::Archiving;
                            let dir = backup_dir(self.backup_path.as_str(), self.schedule.frequency);
                            return Step {
                                commands,
                                action: Action::Archive { files, dir, limit: self.schedule.limit },
                            };
                        },
                        QueryLine::BadSize => {
                            // excluded by `requires`
                            proof {
                                assert(false);
                            }
                            return Step { commands, action: Action::Stop };
                        },
                        QueryLine::NotCompleted => {
                            self.state = CycleState::Polling;
                            return Step { commands, action: Action::Delay(3) };
                        },
                        QueryLine::Other => {
                            return Step { commands, action: Action::ReadLine };
                        },
                    }
                }
            },
            CycleEvent::StreamError => {
                if self.state == CycleState::Reading {
                    assert(commands@.map_values(cmd_view) =~= Seq::<Seq<char>>::empty());
                    return Step { commands, action: Action::ReadLine };
                }
            },
            CycleEvent::ChannelClosed => {
                if self.state == CycleState::Reading {
                    self.state = CycleState::Stopped;
                    assert(commands@.map_values(cmd_view) =~= Seq::<Seq<char>>::empty());
                    return Step { commands, action: Action::Stop };
                }
            },
            CycleEvent::ArchiveFinished { ok } => {
                if self.state == CycleState::Archiving {
                    self.state = CycleState::Waiting;
                    commands.push("save resume".to_owned());
                    if ok {
                        commands.push("say §g§l[bedrockd]§r Server backup complete!".to_owned());
                    } else {
                        commands.push("say §c§l[bedrockd]§r Server backup failed!".to_owned());
                    }
                    assert(commands@.map_values(cmd_view) =~= seq![
                        save_resume(),
                        if ok {
                            say_complete()
                        } else {
                            say_failed()
                        },
                    ]);
                    return Step { commands, action: Action::WaitSchedule };
                }
            },
        }
        assert(commands@.map_values(cmd_view) =~= Seq::<Seq<char>>::empty());
        Step { commands, action: Action::Continue }
    }
}

/// After an archive, written or not, the saves are resumed first thing and
/// the task waits for its next time.
pub proof fn law_resume_after_archive(ok: bool)
    ensures
        commands_of(CycleState::Archiving, EventKind::ArchiveFinished(ok))[0] == save_resume(),
        next_state(CycleState::Archiving, EventKind::ArchiveFinished(ok)) == CycleState::Waiting,
        !on_hold(next_state(CycleState::Archiving, EventKind::ArchiveFinished(ok))),
{
}

/// With nobody online, the schedule's time passes without a command and the
/// task waits again.
pub proof fn law_skip_without_players()
    ensures
        commands_of(CycleState::Waiting, EventKind::WaitElapsed(false)).len() == 0,
        next_state(CycleState::Waiting, EventKind::WaitElapsed(false)) == CycleState::Waiting,
{
}

/// The saves are on hold exactly from the `save hold` that starts a backup to
/// the `save resume` that ends it: an event puts them on hold only by
/// sending `save hold`, and releases them only by sending `save resume`. The
/// one exception is the end of the console stream while on hold: the task
/// stops and the saves stay on hold.
pub proof fn law_hold_balance(s: CycleState, e: EventKind)
    ensures
        (!on_hold(s) && on_hold(next_state(s, e))) ==> commands_of(s, e).contains(save_hold()),
        (on_hold(s) && !on_hold(next_state(s, e)) && next_state(s, e) != CycleState::Stopped)
            ==> commands_of(s, e).contains(save_resume()),
        commands_of(s, e).contains(save_hold()) ==> !on_hold(s) && on_hold(next_state(s, e)),
        commands_of(s, e).contains(save_resume()) ==> on_hold(s) && !on_hold(next_state(s, e)),
{
    reveal_strlit("save hold");
    reveal_strlit("save resume");
    reveal_strlit("save query");
    reveal_strlit("say §g§l[bedrockd]§r Starting server backup...");
    reveal_strlit("say §g§l[bedrockd]§r Server backup complete!");
    reveal_strlit("say §c§l[bedrockd]§r Server backup failed!");
    if (!on_hold(s) && on_hold(next_state(s, e))) {
        assert(commands_of(s, e)[1] == save_hold());
    }
    if (on_hold(s) && !on_hold(next_state(s, e)) && next_state(s, e) != CycleState::Stopped) {
        assert(commands_of(s, e)[0] == save_resume());
    }
    if commands_of(s, e).contains(save_hold()) {
        let i = choose|i: int| 0 <= i < commands_of(s, e).len() && commands_of(s, e)[i] == save_hold();
        assert(commands_of(s, e)[i][5] == 'h');
    }
    if commands_of(s, e).contains(save_resume()) {
        let i = choose|i: int| 0 <= i < commands_of(s, e).len() && commands_of(s, e)[i] == save_resume();
        assert(commands_of(s, e)[i][5] == 'r');
    }
}

} // verus!
