use vstd::prelude::*;

verus! {

broadcast use vstd::string::group_string_axioms;

/// Root of the settings tree: one record per subsystem.
#[derive(Clone, Debug)]
pub struct Config {
    pub database: Database,
    pub scanner: ScannerConfig,
    pub masscan: Masscan,
    pub player_tracking: PlayerTracking,
    pub country_tracking: CountryTracking,
}

/// Connection parameters of the database that results are written to.
#[derive(Clone, Debug)]
pub struct Database {
    pub host: String,
    pub port: u16,
    pub table: String,
    pub user: String,
    pub password: String,
}

/// How the scanner repeats and which inclusive port range it covers.
#[derive(Clone, Copy, Debug)]
pub struct ScannerConfig {
    pub repeat: bool,
    pub scan_delay: u64,
    pub port_range_start: u16,
    pub port_range_end: u16,
}

/// Where the masscan configuration file lives.
#[derive(Clone, Debug)]
pub struct Masscan {
    pub config_file: String,
}

/// Which players are followed, if tracking is on.
#[derive(Clone, Debug)]
pub struct PlayerTracking {
    pub enabled: bool,
    pub players: Vec<String>,
}

/// Country lookup of scanned hosts.
#[derive(Clone, Debug)]
pub struct CountryTracking {
    pub enabled: bool,
    pub update_frequency: u64,
    pub ipinfo_token: String,
}

/// The built-in settings, field by field.
pub open spec fn is_default_config(c: Config) -> bool {
    &&& c.database.host@ == "localhost"@
    &&& c.database.port == 5432
    &&& c.database.table@ == "postgres"@
    &&& c.database.user@ == "postgres"@
    &&& c.database.password@ == "password"@
    &&& c.scanner.repeat
    &&& c.scanner.scan_delay == 60
    &&& c.scanner.port_range_start == 25565
    &&& c.scanner.port_range_end == 25565
    &&& c.masscan.config_file@ == "masscan.conf"@
    &&& !c.player_tracking.enabled
    &&& c.player_tracking.players@.len() == 0
    &&& !c.country_tracking.enabled
    &&& c.country_tracking.update_frequency == 48
    &&& c.country_tracking.ipinfo_token@ == ""@
}

/// A scanner range is usable when it does not run backwards.
pub open spec fn port_range_valid(s: ScannerConfig) -> bool {
    s.port_range_start <= s.port_range_end
}

/// Width of the range, `end - start`, raised to at least one.
pub open spec fn total_ports_of(start: int, end: int) -> int {
    if end - start < 1 {
        1
    } else {
        end - start
    }
}

impl Default for Config {
    fn default() -> (r: Config)
        ensures
            is_default_config(r),
    {
        Config {
            database: Database {
                host: "localhost".to_string(),
                port: 5432,
                table: "postgres".to_string(),
                user: "postgres".to_string(),
                password: "password".to_string(),
            },
            scanner: ScannerConfig {
                repeat: true,
                scan_delay: 60,
                port_range_start: 25565,
                port_range_end: 25565,
            },
            masscan: Masscan { config_file: "masscan.conf".to_string() },
            player_tracking: PlayerTracking { enabled: false, players: Vec::new() },
            country_tracking: CountryTracking {
                enabled: false,
                update_frequency: 48,
                ipinfo_token: "".to_string(),
            },
        }
    }
}

impl ScannerConfig {
    /// Whether `total_ports` may be asked of this range.
    pub fn has_valid_port_range(&self) -> (r: bool)
        ensures
            r == port_range_valid(*self),
    {
        self.port_range_start <= self.port_range_end
    }

    /// Number of ports the scanner reports for its range: `end - start`,
    /// but never less than one. A backwards range is a fatal startup error
    /// that the caller handles before asking.
    pub fn total_ports(&self) -> (r: u16)
        requires
            port_range_valid(*self),
        ensures
            r as int == total_ports_of(
                self.port_range_start as int,
                self.port_range_end as int,
            ),
            r >= 1,
    {
        let start = self.port_range_start;
        let end = self.port_range_end;
        let width: u16 = end - start;
        if width < 1 {
            1
        } else {
            width
        }
    }
}

} // verus!
