//! The daemon's configuration and its defaults.
use vstd::prelude::*;

verus! {

/// The gRPC management endpoint.
pub struct Grpc {
    pub enabled: bool,
    pub port: u16,
    pub reflection: bool,
}

impl Default for Grpc {
    fn default() -> (r: Self)
        ensures
            r.enabled,
            r.port == 10000,
            r.reflection,
    {
        Grpc { enabled: true, port: 10000, reflection: true }
    }
}

/// Where the Bedrock server is installed, and its executable's name.
pub struct Server {
    pub path: String,
    pub binary: String,
}

impl Default for Server {
    fn default() -> (r: Self)
        ensures
            r.binary@ == "bedrock_server"@,
            r.path@ == "/opt/minecraft"@,
    {
        Server { binary: "bedrock_server".to_owned(), path: "/opt/minecraft".to_owned() }
    }
}

/// How often a backup schedule fires.
#[derive(Clone, Copy, PartialEq, Eq, Structural, Debug)]
pub enum BackupFrequency {
    Minute,
    Hourly,
    Daily,
    Weekly,
}

/// One backup schedule. `value` is the number of minutes or hours between
/// backups (`Minute`, `Hourly`), the time of day as `HHMM` (`Daily`), or the
/// day of the week counted from Monday = 0 (`Weekly`); `limit` is the number
/// of archives kept (0: all).
#[derive(Clone, Copy, PartialEq, Eq, Structural, Debug)]
pub struct BackupSchedule {
    pub frequency: BackupFrequency,
    pub value: u16,
    pub limit: u16,
    pub enabled: bool,
}

/// The backup settings: where archives go, the world's level name and the
/// schedules.
#[derive(Clone)]
pub struct Backup {
    pub path: String,
    pub level_name: String,
    pub schedule: Vec<BackupSchedule>,
}

impl Default for Backup {
    fn default() -> (r: Self)
        ensures
            r.path@ == "/opt/minecraft/backup"@,
            r.level_name@ == "Bedrock level"@,
            r.schedule@ == seq![
                BackupSchedule {
                    frequency: BackupFrequency::Minute,
                    value: 5,
                    limit: 15,
                    enabled: true,
                },
            ],
    {
        let mut schedule = Vec::new();
        schedule.push(
            BackupSchedule { frequency: BackupFrequency::Minute, value: 5, limit: 15, enabled: true },
        );
        Backup {
            schedule,
            path: "/opt/minecraft/backup".to_owned(),
            level_name: "Bedrock level".to_owned(),
        }
    }
}

/// The whole configuration file.
pub struct Config {
    pub grpc: Grpc,
    pub server: Server,
    pub backup: Backup,
}

impl Default for Config {
    fn default() -> (r: Self)
        ensures
            r.grpc.enabled && r.grpc.port == 10000 && r.grpc.reflection,
            r.server.binary@ == "bedrock_server"@,
            r.server.path@ == "/opt/minecraft"@,
            r.backup.path@ == "/opt/minecraft/backup"@,
            r.backup.level_name@ == "Bedrock level"@,
            r.backup.schedule@ == seq![
                BackupSchedule {
                    frequency: BackupFrequency::Minute,
                    value: 5,
                    limit: 15,
                    enabled: true,
                },
            ],
    {
        Config { grpc: Grpc::default(), server: Server::default(), backup: Backup::default() }
    }
}

/// The subdirectory of the backup directory that holds a frequency's
/// archives.
pub open spec fn subfolder_of(frequency: BackupFrequency) -> Seq<char> {
    match frequency {
        BackupFrequency::Minute => seq!['m', 'i', 'n', 'u', 't', 'e'],
        BackupFrequency::Hourly => seq!['h', 'o', 'u', 'r', 'l', 'y'],
        BackupFrequency::Daily => seq!['d', 'a', 'i', 'l', 'y'],
        BackupFrequency::Weekly => seq!['w', 'e', 'e', 'k', 'l', 'y'],
    }
}

/// The name of the subdirectory that holds a frequency's archives.
pub fn backup_subfolder(frequency: BackupFrequency) -> (r: String)
    ensures
        r@ == subfolder_of(frequency),
{
    let r = match frequency {
        BackupFrequency::Minute => "minute".to_owned(),
        BackupFrequency::Hourly => "hourly".to_owned(),
        BackupFrequency::Daily => "daily".to_owned(),
        BackupFrequency::Weekly => "weekly".to_owned(),
    };
    proof {
        reveal_strlit("minute");
        reveal_strlit("hourly");
        reveal_strlit("daily");
        reveal_strlit("weekly");
        assert(r@ =~= subfolder_of(frequency));
    }
    r
}

/// The directory that holds a frequency's archives: `<backup path>/<subfolder>`.
pub fn backup_dir(backup_path: &str, frequency: BackupFrequency) -> (r: String)
    ensures
        r@ == backup_path@ + seq!['/'] + subfolder_of(frequency),
{
    let sub = backup_subfolder(frequency);
    let mut r = backup_path.to_owned();
    r.append("/");
    r.append(sub.as_str());
    proof {
        reveal_strlit("/");
        assert(r@ =~= backup_path@ + seq!['/'] + subfolder_of(frequency));
    }
    r
}

/// The schedules that are enabled, in order.
pub open spec fn enabled_of(schedules: Seq<BackupSchedule>) -> Seq<BackupSchedule> {
    schedules.filter(|s: BackupSchedule| s.enabled)
}

/// The schedules for which a backup task is started: the enabled ones, in
/// their order.
pub fn enabled_schedules(schedules: &Vec<BackupSchedule>) -> (r: Vec<BackupSchedule>)
    ensures
        r@ == enabled_of(schedules@),
{
    let mut r: Vec<BackupSchedule> = Vec::new();
    let mut i: usize = 0;
    while i < schedules.len()
        invariant
            i <= schedules@.len(),
            r@ == enabled_of(schedules@.take(i as int)),
        decreases schedules.len() - i,
    {
        let s = schedules[i];
        proof {
            reveal_with_fuel(Seq::filter, 1);
            assert(schedules@.take(i + 1).drop_last() =~= schedules@.take(i as int));
        }
        if s.enabled {
            r.push(s);
        }
        i = i + 1;
    }
    proof {
        assert(schedules@.take(schedules@.len() as int) =~= schedules@);
    }
    r
}

/// A backup task is started for a schedule exactly when its `enabled` flag
/// is set, whatever its frequency, value and limit, and the tasks keep the
/// schedules' order: no schedules start nothing; a schedule added at the end
/// is started after all the others if it is enabled and not at all if it is
/// not; a schedule is among those started iff it is listed and enabled; and
/// where every schedule is enabled, every one is started.
pub proof fn law_enabled_schedules(s: Seq<BackupSchedule>, x: BackupSchedule)
    ensures
        enabled_of(Seq::<BackupSchedule>::empty()) == Seq::<BackupSchedule>::empty(),
        x.enabled ==> enabled_of(s.push(x)) == enabled_of(s).push(x),
        !x.enabled ==> enabled_of(s.push(x)) == enabled_of(s),
        enabled_of(s).contains(x) <==> (s.contains(x) && x.enabled),
        (forall|i: int| 0 <= i < s.len() ==> (#[trigger] s[i]).enabled) ==> enabled_of(s) == s,
        enabled_of(s).len() <= s.len(),
    decreases s.len(),
{
    reveal_with_fuel(Seq::filter, 1);
    assert(s.push(x).drop_last() =~= s);
    broadcast use vstd::seq_lib::group_filter_ensures;
    if enabled_of(s).contains(x) {
        s.lemma_filter_contains_rev(|b: BackupSchedule| b.enabled, x);
        let k = choose|k: int| 0 <= k < enabled_of(s).len() && enabled_of(s)[k] == x;
        assert(enabled_of(s)[k].enabled);
    }
    if s.contains(x) && x.enabled {
        let k = choose|k: int| 0 <= k < s.len() && s[k] == x;
        assert(enabled_of(s).contains(s[k]));
    }
    if s.len() > 0 {
        law_enabled_schedules(s.drop_last(), s.last());
        assert(s.drop_last().push(s.last()) =~= s);
        if forall|i: int| 0 <= i < s.len() ==> (#[trigger] s[i]).enabled {
            assert(s.last().enabled);
            assert forall|i: int| 0 <= i < s.drop_last().len() implies (
            #[trigger] s.drop_last()[i]).enabled by {
                assert(s[i].enabled);
            }
        }
    } else {
        assert(s =~= Seq::<BackupSchedule>::empty());
    }
}

/// What opening the configuration file does with its contents.
#[derive(PartialEq, Eq, Structural, Debug)]
pub enum ConfigFileAction {
    /// The file is empty: the default configuration is written to it and used.
    WriteDefault,
    /// The file's contents are parsed as the configuration.
    Parse,
}

/// What to do with the configuration file's contents.
pub fn config_file_action(contents: &str) -> (r: ConfigFileAction)
    ensures
        r == (if contents@.len() == 0 {
            ConfigFileAction::WriteDefault
        } else {
            ConfigFileAction::Parse
        }),
{
    if contents.is_empty() {
        ConfigFileAction::WriteDefault
    } else {
        ConfigFileAction::Parse
    }
}

} // verus!
