use vstd::prelude::*;

use crate::errors::ConfigError;
use crate::glob::{glob_pattern_ok, PathMatcher};

verus! {

/// The command a rule runs: an executable name plus its arguments.
#[derive(Debug)]
pub struct Action {
    pub command: String,
    pub args: Vec<String>,
}

impl Action {
    /// Splits an ordered token list into executable and arguments; the first
    /// token is the executable. An empty list is a configuration error.
    pub fn from_tokens(tokens: Vec<String>) -> (r: Result<Action, ConfigError>)
        ensures
            r is Ok <==> tokens@.len() > 0,
            tokens@.len() == 0 ==> r == Err::<Action, ConfigError>(ConfigError::MissingCommand),
            r is Ok ==> r->Ok_0.command@ == tokens@[0]@,
            r is Ok ==> r->Ok_0.args@.len() == tokens@.len() - 1,
            r is Ok ==> forall|i: int|
                0 <= i < tokens@.len() - 1 ==> r->Ok_0.args@[i]@ == tokens@[i + 1]@,
    {
        if tokens.len() == 0 {
            Err(ConfigError::MissingCommand)
        } else {
            let mut rest = tokens;
            let command = rest.remove(0);
            Ok(Action { command, args: rest })
        }
    }
}

/// A raw rule as read from the configuration document, before validation.
pub struct RawRule {
    pub path: String,
    pub command: Vec<String>,
    pub working_directory: Option<String>,
    pub pattern: String,
}

/// The version value the configuration's format-version field must hold.
pub open spec fn version_ok(v: Seq<char>) -> bool {
    v == "0"@
}

/// A raw rule is valid when its command list is non-empty and its pattern
/// is a glob the matcher accepts.
pub open spec fn rule_ok(r: RawRule) -> bool {
    r.command@.len() > 0 && glob_pattern_ok(r.pattern@)
}

/// The configuration error an invalid raw rule is rejected with; the
/// command list is checked before the pattern.
pub open spec fn rule_error(r: RawRule) -> ConfigError {
    if r.command@.len() == 0 {
        ConfigError::MissingCommand
    } else {
        ConfigError::InvalidPattern
    }
}

/// The text of an optional string, for comparing option values that hold
/// equal text.
pub open spec fn opt_text(o: Option<String>) -> Option<Seq<char>> {
    match o {
        Some(s) => Some(s@),
        None => None,
    }
}

/// One validated watch rule: a watched path, a compiled pattern, a command,
/// and an optional working directory. Immutable after construction.
pub struct WatchRule {
    pub path: String,
    pub action: Action,
    pub working_directory: Option<String>,
    pub matcher: PathMatcher,
}

/// A validated rule carries exactly the data of the raw rule it was built
/// from: same path, the command list split into executable and arguments,
/// the same optional working directory, and a matcher compiled from the
/// same pattern text.
pub open spec fn rule_corresponds(w: WatchRule, r: RawRule) -> bool {
    &&& w.path@ == r.path@
    &&& r.command@.len() > 0
    &&& w.action.command@ == r.command@[0]@
    &&& w.action.args@.len() == r.command@.len() - 1
    &&& (forall|i: int|
        0 <= i < r.command@.len() - 1 ==> w.action.args@[i]@ == r.command@[i + 1]@)
    &&& opt_text(w.working_directory) == opt_text(r.working_directory)
    &&& w.matcher.pattern() == r.pattern@
}

impl WatchRule {
    /// Validates one rule: the command list must be non-empty and the
    /// pattern must compile. Both failures are configuration errors raised
    /// before any watching starts.
    pub fn new(
        path: String,
        command: Vec<String>,
        working_directory: Option<String>,
        pattern: String,
    ) -> (r: Result<WatchRule, ConfigError>)
        ensures
            r is Ok <==> (command@.len() > 0 && glob_pattern_ok(pattern@)),
            command@.len() == 0 ==> r == Err::<WatchRule, ConfigError>(
                ConfigError::MissingCommand,
            ),
            command@.len() > 0 && !glob_pattern_ok(pattern@) ==> r == Err::<
                WatchRule,
                ConfigError,
            >(ConfigError::InvalidPattern),
            r is Ok ==> r->Ok_0.path@ == path@,
            r is Ok ==> r->Ok_0.action.command@ == command@[0]@,
            r is Ok ==> r->Ok_0.action.args@.len() == command@.len() - 1,
            r is Ok ==> forall|i: int|
                0 <= i < command@.len() - 1 ==> r->Ok_0.action.args@[i]@ == command@[i + 1]@,
            r is Ok ==> opt_text(r->Ok_0.working_directory) == opt_text(working_directory),
            r is Ok ==> r->Ok_0.matcher.pattern() == pattern@,
    {
        let action = match Action::from_tokens(command) {
            Ok(a) => a,
            Err(e) => {
                return Err(e);
            },
        };
        let matcher = match PathMatcher::compile(pattern) {
            Ok(m) => m,
            Err(e) => {
                return Err(e);
            },
        };
        Ok(WatchRule { path, action, working_directory, matcher })
    }
}

/// Validates the whole configuration: the format-version field must hold
/// the recognized value, and every rule must be valid. Rules are checked in
/// order and the first invalid rule's error is returned.
pub fn build_rules(version: &String, rules: Vec<RawRule>) -> (r: Result<
    Vec<WatchRule>,
    ConfigError,
>)
    ensures
        !version_ok(version@) ==> r == Err::<Vec<WatchRule>, ConfigError>(
            ConfigError::UnsupportedVersion,
        ),
        version_ok(version@) ==> {
            &&& (r is Ok <==> (forall|i: int| 0 <= i < rules@.len() ==> rule_ok(rules@[i])))
            &&& (r is Ok ==> r->Ok_0@.len() == rules@.len())
            &&& (r is Ok ==> forall|i: int|
                0 <= i < rules@.len() ==> rule_corresponds(#[trigger] r->Ok_0@[i], rules@[i]))
            &&& (r is Err ==> exists|i: int|
                {
                    &&& 0 <= i < rules@.len()
                    &&& !rule_ok(#[trigger] rules@[i])
                    &&& (forall|j: int| 0 <= j < i ==> rule_ok(rules@[j]))
                    &&& r->Err_0 == rule_error(rules@[i])
                })
        },
{
    let expected: String = "0".to_owned();
    if !version.eq(&expected) {
        return Err(ConfigError::UnsupportedVersion);
    }
    let ghost all = rules@;
    let mut remaining = rules;
    let mut built: Vec<WatchRule> = Vec::new();
    while remaining.len() > 0
        invariant
            version_ok(version@),
            all == rules@,
            all.len() == built@.len() + remaining@.len(),
            forall|i: int| 0 <= i < built@.len() ==> rule_ok(#[trigger] all[i]),
            forall|i: int|
                0 <= i < built@.len() ==> rule_corresponds(#[trigger] built@[i], all[i]),
            forall|i: int|
                0 <= i < remaining@.len() ==> #[trigger] remaining@[i] == all[built@.len() + i],
        decreases remaining@.len(),
    {
        let raw = remaining.remove(0);
        let RawRule { path, command, working_directory, pattern } = raw;
        match WatchRule::new(path, command, working_directory, pattern) {
            Ok(w) => {
                built.push(w);
            },
            Err(e) => {
                return Err(e);
            },
        }
    }
    Ok(built)
}

} // verus!
