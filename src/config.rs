use vstd::prelude::*;

verus! {

/// The value of a flag that the configuration leaves out and that is on by default.
pub fn default_true() -> (r: bool)
    ensures
        r,
{
    true
}

/// The kind of entry a rule targets when the configuration names none.
pub fn default_target() -> (r: Target)
    ensures
        r == Target::Files,
{
    Target::Files
}

/// The whole run: a dry-run flag, the log file, and the rules in order.
#[derive(Clone, Debug)]
pub struct Config {
    pub dry_run: bool,
    pub log_file: String,
    pub rules: Vec<Rule>,
}

/// One named rule: where to look, what to keep, and what to do with it.
#[derive(Clone, Debug)]
pub struct Rule {
    pub name: String,
    pub enabled: bool,
    pub locations: Vec<String>,
    pub recursive: bool,
    pub max_depth: Option<usize>,
    pub filters: Filters,
    pub action: Action,
}

/// The filter chain of a rule, as configured.
#[derive(Clone, Debug)]
pub struct Filters {
    pub target: Target,
    pub extensions: Option<Vec<String>>,
    pub not_extensions: Option<Vec<String>>,
    pub name: Option<NameFilterConfig>,
    pub regex: Option<String>,
    pub empty: Option<bool>,
}

#[derive(Clone, Copy, Debug, PartialEq, Eq, Structural)]
pub enum Target {
    Files,
    Dirs,
}

/// Prefixes, suffixes and substrings that an entry's name is held against.
#[derive(Clone, Debug)]
pub struct NameFilterConfig {
    pub case_sensitive: bool,
    pub match_any: bool,
    pub starts_with: Option<Vec<String>>,
    pub ends_with: Option<Vec<String>>,
    pub contains: Option<Vec<String>>,
}

/// The single action of a rule.
#[derive(Clone, Debug)]
pub enum Action {
    Move(MoveConfig),
    Copy(CopyConfig),
    Delete,
}

#[derive(Clone, Debug)]
pub struct MoveConfig {
    pub destination: String,
    pub over_ride: bool,
}

#[derive(Clone, Debug)]
pub struct CopyConfig {
    pub destination: String,
    pub over_ride: bool,
}

#[derive(Clone, Debug)]
pub struct CompressConfig {
    pub destination: String,
}

} // verus!
