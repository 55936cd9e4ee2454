use vstd::prelude::*;

verus! {

/// Which robot the bridge serves, and where its REST API is.
pub struct Config {
    pub robot_id: String,
    pub robot_base: String,
}

/// What the saved settings file gave.
pub enum Stored {
    /// There is no readable file.
    Missing,
    /// The file could be read but does not hold settings.
    Malformed,
    /// The settings the file holds.
    Found(Config),
}

/// `value` when present, `fallback` otherwise.
pub open spec fn or_else(value: Option<String>, fallback: Seq<char>) -> Seq<char> {
    match value {
        Some(v) => v@,
        None => fallback,
    }
}

fn value_or(value: Option<String>, fallback: &str) -> (r: String)
    ensures
        r@ == or_else(value, fallback@),
{
    match value {
        Some(v) => v,
        None => fallback.to_owned(),
    }
}

impl Default for Config {
    fn default() -> (r: Config)
        ensures
            r.robot_id@ == "robot-1"@,
            r.robot_base@ == "http://192.168.0.57:31950"@,
    {
        Config::from_env(None, None)
    }
}

impl Config {
    /// Settings from the environment values `ROBOT_ID` and `ROBOT_BASE`, each
    /// falling back to its default when unset.
    pub fn from_env(robot_id: Option<String>, robot_base: Option<String>) -> (r: Config)
        ensures
            r.robot_id@ == or_else(robot_id, "robot-1"@),
            r.robot_base@ == or_else(robot_base, "http://192.168.0.57:31950"@),
    {
        Config {
            robot_id: value_or(robot_id, "robot-1"),
            robot_base: value_or(robot_base, "http://192.168.0.57:31950"),
        }
    }

    /// The settings to run with, and whether they must be written back to
    /// the settings file. Saved settings are used where the environment
    /// sets no value; without them the environment and the defaults decide,
    /// and a missing file is created.
    pub fn load(robot_id: Option<String>, robot_base: Option<String>, stored: Stored) -> (r: (
        Config,
        bool,
    ))
        ensures
            match stored {
                Stored::Found(saved) => r.0.robot_id@ == or_else(robot_id, saved.robot_id@)
                    && r.0.robot_base@ == or_else(robot_base, saved.robot_base@) && !r.1,
                _ => r.0.robot_id@ == or_else(robot_id, "robot-1"@) && r.0.robot_base@
                    == or_else(robot_base, "http://192.168.0.57:31950"@) && r.1 == (
                stored is Missing),
            },
    {
        match stored {
            Stored::Found(saved) => {
                let cfg = Config {
                    robot_id: value_or(robot_id, saved.robot_id.as_str()),
                    robot_base: value_or(robot_base, saved.robot_base.as_str()),
                };
                (cfg, false)
            },
            Stored::Malformed => (Config::from_env(robot_id, robot_base), false),
            Stored::Missing => (Config::from_env(robot_id, robot_base), true),
        }
    }
}

} // verus!
