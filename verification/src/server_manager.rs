//! The timer-driven backup watcher: it watches the server's output for
//! the file list of a backup that a timer started, archives the files into a
//! single archive and resumes the saves.
use vstd::prelude::*;

use crate::config::Backup;
use crate::save_query::{
    output_matches, query_pattern, regex_captures, regex_valid, sizes_ok, BackupOutput, QueryLine,
    SaveQueryParser,
};

verus! {

/// Where the watcher stands.
#[derive(Clone, Copy, PartialEq, Eq, Structural, Debug)]
pub enum WatchState {
    Reading,
    Archiving,
    Stopped,
}

/// What the watcher's driver reports.
pub enum WatchEvent {
    /// The server printed a line.
    Line(String),
    /// The console stream carried an error.
    UpstreamError,
    /// The watcher fell behind and lines were dropped.
    Lagged(u64),
    /// The console stream has ended.
    Closed,
    /// The archive was written.
    ArchiveWritten,
}

/// What the driver does next.
pub enum WatchAction {
    /// Read the next line.
    ReadLine,
    /// Write these files into `archive.tar.gz` in the backup directory, then
    /// report `ArchiveWritten`.
    Archive(Vec<BackupOutput>),
    /// Send `save resume`, then read the next line.
    SendResume,
    /// End the watcher.
    Stop,
    /// The event does not fit (an archive is being written): keep waiting
    /// for the archive.
    AwaitArchive,
}

/// Watches the console for backups' file lists.
pub struct SaveWatcher {
    parser: SaveQueryParser,
    state: WatchState,
}

/// The two interval timers of the timer-driven backups: one that starts a
/// backup, one that spaces the commands.
#[derive(Clone, Copy, PartialEq, Eq, Structural, Debug)]
pub enum Ticker {
    Backup,
    Command,
}

/// The period of a timer, in seconds: a backup every 5 minutes, the query 5
/// seconds after the hold.
pub open spec fn period_of(t: Ticker) -> u64 {
    match t {
        Ticker::Backup => 300,
        Ticker::Command => 5,
    }
}

/// The period of a timer, in seconds.
pub fn ticker_period_secs(t: Ticker) -> (r: u64)
    ensures
        r == period_of(t),
{
    match t {
        Ticker::Backup => 300,
        Ticker::Command => 5,
    }
}

/// Where the backup timer stands. Both timers tick at once when made; the
/// first two stages take those ticks.
#[derive(Clone, Copy, PartialEq, Eq, Structural, Debug)]
pub enum TimerStage {
    StartCommand,
    StartBackup,
    Hold,
    Query,
}

/// The timer to wait for in a stage.
pub open spec fn stage_ticker(s: TimerStage) -> Ticker {
    match s {
        TimerStage::StartCommand => Ticker::Command,
        TimerStage::StartBackup => Ticker::Backup,
        TimerStage::Hold => Ticker::Backup,
        TimerStage::Query => Ticker::Command,
    }
}

/// The command sent after the tick of a stage, if any.
pub open spec fn stage_command(s: TimerStage) -> Option<Seq<char>> {
    match s {
        TimerStage::Hold => Some("save hold"@),
        TimerStage::Query => Some("save query"@),
        _ => None,
    }
}

/// The stage after a stage: after the start, hold and query in turn.
pub open spec fn next_stage(s: TimerStage) -> TimerStage {
    match s {
        TimerStage::StartCommand => TimerStage::StartBackup,
        TimerStage::StartBackup => TimerStage::Hold,
        TimerStage::Hold => TimerStage::Query,
        TimerStage::Query => TimerStage::Hold,
    }
}

/// What the timer task does next: wait for a tick of `ticker`, then send
/// `command`, if any.
pub struct TimerStep {
    pub ticker: Ticker,
    pub command: Option<String>,
}

/// The timer that starts backups: every 5 minutes `save hold`, then on the
/// next tick of the command timer `save query`.
pub struct BackupTimer {
    stage: TimerStage,
}

impl BackupTimer {
    pub closed spec fn stage_of(&self) -> TimerStage {
        self.stage
    }

    pub fn new() -> (r: Self)
        ensures
            r.stage_of() == TimerStage::StartCommand,
    {
        BackupTimer { stage: TimerStage::StartCommand }
    }

    /// The next wait and command, as the stage says; moves to the next stage.
    pub fn next(&mut self) -> (r: TimerStep)
        ensures
            r.ticker == stage_ticker(old(self).stage_of()),
            r.command is None <==> stage_command(old(self).stage_of()) is None,
            r.command matches Some(c) ==> stage_command(old(self).stage_of()) == Some(c@),
            final(self).stage_of() == next_stage(old(self).stage_of()),
    {
        let r = match self.stage {
            TimerStage::StartCommand => TimerStep { ticker: Ticker::Command, command: None },
            TimerStage::StartBackup => TimerStep { ticker: Ticker::Backup, command: None },
            TimerStage::Hold => TimerStep {
                ticker: Ticker::Backup,
                command: Some("save hold".to_owned()),
            },
            TimerStage::Query => TimerStep {
                ticker: Ticker::Command,
                command: Some("save query".to_owned()),
            },
        };
        self.stage = match self.stage {
            TimerStage::StartCommand => TimerStage::StartBackup,
            TimerStage::StartBackup => TimerStage::Hold,
            TimerStage::Hold => TimerStage::Query,
            TimerStage::Query => TimerStage::Hold,
        };
        r
    }
}

/// The timer's stage after `n` steps from the start.
pub open spec fn stage_after(n: nat) -> TimerStage
    decreases n,
{
    if n == 0 {
        TimerStage::StartCommand
    } else {
        next_stage(stage_after((n - 1) as nat))
    }
}

/// After the two starting ticks, the timer sends `save hold` on the backup
/// timer and `save query` on the command timer, in turn, for ever.
pub proof fn law_timer_alternates(n: nat)
    ensures
        n >= 2 && n % 2 == 0 ==> stage_after(n) == TimerStage::Hold,
        n >= 2 && n % 2 == 1 ==> stage_after(n) == TimerStage::Query,
        stage_command(stage_after(0)) is None && stage_command(stage_after(1)) is None,
    decreases n,
{
    if n > 2 {
        law_timer_alternates((n - 1) as nat);
    } else if n == 2 {
        assert(stage_after(1) == TimerStage::StartBackup);
    }
}

/// The level name the watcher looks for.
pub open spec fn watched_level() -> Seq<char> {
    "Bedrock level"@
}

/// The backup settings of the timer-driven backup watcher.
pub struct ServerManager {
    pub backup_config: Backup,
}

impl ServerManager {
    pub fn new(backup_config: Backup) -> (r: ServerManager)
        ensures
            r.backup_config == backup_config,
    {
        ServerManager { backup_config }
    }

    /// A watcher for the file lists of the world `Bedrock level`, its pattern
    /// in multi-line mode; `None` where the regex engine refuses it.
    pub fn backup_watcher(&self) -> (r: Option<SaveWatcher>)
        ensures
            r matches Some(w) ==> w.pattern_of() == query_pattern(watched_level(), true) && w.state_of() == WatchState::Reading,
            r is None <==> !regex_valid(query_pattern(watched_level(), true)),
    {
        match SaveQueryParser::new("Bedrock level", true) {
            Some(parser) => Some(SaveWatcher { parser, state: WatchState::Reading }),
            None => None,
        }
    }
}

/// A console line is no file list with a size that is no `usize` numeral
/// (on which reading the list panics).
pub open spec fn watch_line_readable(pattern: Seq<char>, line: Seq<char>) -> bool {
    let caps = regex_captures(pattern, line);
    caps.len() > 0 ==> sizes_ok(caps)
}

/// The event can be taken by `step`: while reading, a line must be readable.
pub open spec fn watch_event_readable(w: SaveWatcher, event: WatchEvent) -> bool {
    w.state_of() == WatchState::Reading ==> (event matches WatchEvent::Line(line)
        ==> watch_line_readable(w.pattern_of(), line@))
}

/// What a step does: while reading, a line that lists files has them
/// archived, the end of the stream stops the watcher, anything else is
/// skipped; once the archive is written the saves are resumed.
pub open spec fn watch_post(old: SaveWatcher, event: WatchEvent, new: SaveWatcher, r: WatchAction) -> bool {
    &&& (new.pattern_of() == old.pattern_of())
    &&& (old.state_of() == WatchState::Reading ==> match event {
        WatchEvent::Line(line) => {
            let caps = regex_captures(old.pattern_of(), line@);
            if caps.len() > 0 {
                &&& new.state_of() == WatchState::Archiving
                &&& (r matches WatchAction::Archive(files) && files@.len() == caps.len()
                    && forall|i: int| 0 <= i < caps.len() ==> output_matches(#[trigger] files@[i], caps[i]))
            } else {
                new.state_of() == WatchState::Reading && r is ReadLine
            }
        },
        WatchEvent::Closed => new.state_of() == WatchState::Stopped && r is Stop,
        _ => new.state_of() == WatchState::Reading && r is ReadLine,
    })
    &&& (old.state_of() == WatchState::Archiving ==> if event is ArchiveWritten {
        new.state_of() == WatchState::Reading && r is SendResume
    } else {
        new.state_of() == WatchState::Archiving && r is AwaitArchive
    })
    &&& (old.state_of() == WatchState::Stopped ==> new.state_of() == WatchState::Stopped && r is Stop)
}

/// The watcher archives every backup's file list, not only the first: from
/// reading, a line that lists files has them archived; once that archive is
/// written the saves are resumed and the watcher reads again, so the next
/// line that lists files has those archived too.
pub proof fn law_watcher_archives_every_list(
    w0: SaveWatcher,
    w1: SaveWatcher,
    w2: SaveWatcher,
    w3: SaveWatcher,
    first: String,
    next: String,
    r1: WatchAction,
    r2: WatchAction,
    r3: WatchAction,
)
    requires
        w0.state_of() == WatchState::Reading,
        regex_captures(w0.pattern_of(), first@).len() > 0,
        regex_captures(w0.pattern_of(), next@).len() > 0,
        watch_post(w0, WatchEvent::Line(first), w1, r1),
        watch_post(w1, WatchEvent::ArchiveWritten, w2, r2),
        watch_post(w2, WatchEvent::Line(next), w3, r3),
    ensures
        r1 matches WatchAction::Archive(files) && files@.len() == regex_captures(
            w0.pattern_of(),
            first@,
        ).len(),
        r2 is SendResume,
        w2.state_of() == WatchState::Reading,
        w2.pattern_of() == w0.pattern_of(),
        r3 matches WatchAction::Archive(files) && files@.len() == regex_captures(
            w0.pattern_of(),
            next@,
        ).len(),
        w3.state_of() == WatchState::Archiving,
{
}

/// Only the end of the console stream stops the watcher, and only while it
/// reads; once stopped it stays stopped. No other event, an archive written
/// included, ends it.
pub proof fn law_only_closed_stops(
    before: SaveWatcher,
    event: WatchEvent,
    after: SaveWatcher,
    r: WatchAction,
)
    requires
        watch_post(before, event, after, r),
    ensures
        before.state_of() != WatchState::Stopped && after.state_of() == WatchState::Stopped ==> (
        event is Closed && before.state_of() == WatchState::Reading),
        before.state_of() != WatchState::Stopped && !(event is Closed) ==> after.state_of()
            != WatchState::Stopped && !(r is Stop),
        before.state_of() == WatchState::Stopped ==> after.state_of() == WatchState::Stopped,
{
}

impl SaveWatcher {
    pub closed spec fn pattern_of(&self) -> Seq<char> {
        self.parser.pattern_of()
    }

    pub closed spec fn state_of(&self) -> WatchState {
        self.state
    }

    /// Whether a console line can be read: it is no file list with a size
    /// that is no `usize` numeral.
    pub fn line_is_readable(&self, line: &str) -> (b: bool)
        ensures
            b == watch_line_readable(self.pattern_of(), line@),
    {
        match self.parser.classify(line) {
            QueryLine::BadSize => false,
            _ => true,
        }
    }

    /// Takes one event as `step` does, where `step` can take it; `None`,
    /// with the watcher unchanged, for an unreadable line while reading (the
    /// driver panics there).
    pub fn step_checked(&mut self, event: WatchEvent) -> (r: Option<WatchAction>)
        ensures
            r is None <==> !watch_event_readable(*old(self), event),
            r is None ==> *final(self) == *old(self),
            r matches Some(a) ==> watch_post(*old(self), event, *final(self), a),
    {
        let readable = match &event {
            WatchEvent::Line(line) => self.state != WatchState::Reading || self.line_is_readable(
                line.as_str(),
            ),
            _ => true,
        };
        if readable {
            Some(self.step(event))
        } else {
            None
        }
    }

    /// Takes one event, as `watch_post` says.
    pub fn step(&mut self, event: WatchEvent) -> (r: WatchAction)
        requires
            watch_event_readable(*old(self), event),
        ensures
            watch_post(*old(self), event, *final(self), r),
    {
        match self.state {
            WatchState::Stopped => WatchAction::Stop,
            WatchState::Archiving => {
                match event {
                    WatchEvent::ArchiveWritten => {
                        self.state = WatchState::Reading;
                        WatchAction::SendResume
                    },
                    _ => WatchAction::AwaitArchive,
                }
            },
            WatchState::Reading => {
                match event {
                    WatchEvent::Line(line) => {
                        match self.parser.classify(line.as_str()) {
                            QueryLine::Files(files) => {
                                self.state = WatchState::Archiving;
                                WatchAction::Archive(files)
                            },
                            QueryLine::BadSize => {
                                // excluded by `requires`
                                proof {
                                    assert(false);
                                }
                                WatchAction::Stop
                            },
                            _ => WatchAction::ReadLine,
                        }
                    },
                    WatchEvent::Closed => {
                        self.state = WatchState::Stopped;
                        WatchAction::Stop
                    },
                    _ => WatchAction::ReadLine,
                }
            },
        }
    }
}

} // verus!
