//! The backup manager: the backup settings, the pattern that reads the
//! server's file list, and the tasks it starts.
use vstd::prelude::*;

use crate::backup_cycle::{BackupCycle, CycleState};
use crate::config::{backup_dir, enabled_of, subfolder_of, Backup, BackupFrequency, BackupSchedule};
use crate::save_query::{query_pattern, regex_valid, SaveQueryParser};

verus! {

/// The backup settings and the parser of the server's file list.
pub struct BackupManager {
    backup_config: Backup,
    parser: SaveQueryParser,
}

impl BackupManager {
    pub closed spec fn schedules_of(&self) -> Seq<BackupSchedule> {
        self.backup_config.schedule@
    }

    pub closed spec fn backup_path_of(&self) -> Seq<char> {
        self.backup_config.path@
    }

    pub closed spec fn pattern_of(&self) -> Seq<char> {
        self.parser.pattern_of()
    }

    /// A manager for these settings; its pattern finds the files of the
    /// world named by the settings' level name. `None` where the regex
    /// engine refuses that pattern.
    pub fn new(backup_config: Backup) -> (r: Option<Self>)
        ensures
            r matches Some(m) ==> m.schedules_of() == backup_config.schedule@
                && m.backup_path_of() == backup_config.path@ && m.pattern_of() == query_pattern(
                backup_config.level_name@,
                false,
            ),
            r is None <==> !regex_valid(query_pattern(backup_config.level_name@, false)),
    {
        match SaveQueryParser::new(backup_config.level_name.as_str(), false) {
            Some(parser) => Some(BackupManager { backup_config, parser }),
            None => None,
        }
    }

    /// The directory that holds the archives of a frequency.
    pub fn archive_dir(&self, frequency: BackupFrequency) -> (r: String)
        ensures
            r@ == self.backup_path_of() + seq!['/'] + subfolder_of(frequency),
    {
        backup_dir(self.backup_config.path.as_str(), frequency)
    }

    /// Takes the schedules out of the settings and makes a task of each
    /// enabled one, in order; the settings are left without schedules.
    pub fn create_scheduled_tasks(&mut self) -> (r: Vec<BackupCycle>)
        ensures
            final(self).schedules_of() == Seq::<BackupSchedule>::empty(),
            final(self).backup_path_of() == old(self).backup_path_of(),
            final(self).pattern_of() == old(self).pattern_of(),
            r@.len() == enabled_of(old(self).schedules_of()).len(),
            forall|i: int|
                0 <= i < r@.len() ==> {
                    &&& (#[trigger] r@[i]).schedule_of() == enabled_of(old(self).schedules_of())[i]
                    &&& r@[i].state_of() == CycleState::Idle
                    &&& r@[i].backup_path_of() == old(self).backup_path_of()
                    &&& r@[i].pattern_of() == old(self).pattern_of()
                },
    {
        let mut schedules: Vec<BackupSchedule> = Vec::new();
        std::mem::swap(&mut schedules, &mut self.backup_config.schedule);
        let enabled = crate::config::enabled_schedules(&schedules);
        let mut tasks: Vec<BackupCycle> = Vec::new();
        let mut i: usize = 0;
        while i < enabled.len()
            invariant
                i <= enabled@.len(),
                tasks@.len() == i,
                self.backup_config.path@ == old(self).backup_path_of(),
                self.parser.pattern_of() == old(self).pattern_of(),
                forall|k: int|
                    0 <= k < i ==> {
                        &&& (#[trigger] tasks@[k]).schedule_of() == enabled@[k]
                        &&& tasks@[k].state_of() == CycleState::Idle
                        &&& tasks@[k].backup_path_of() == old(self).backup_path_of()
                        &&& tasks@[k].pattern_of() == old(self).pattern_of()
                    },
            decreases enabled.len() - i,
        {
            let t = BackupCycle::new(
                enabled[i],
                self.backup_config.path.clone(),
                self.parser.clone(),
            );
            tasks.push(t);
            i = i + 1;
        }
        tasks
    }
}

} // verus!
