use vstd::prelude::*;
use crate::level::LevelFilter;
use crate::creator::Appender;

verus! {

/// The catch-all logger.
pub struct Root {
    pub level: LevelFilter,
    /// Names of the appenders that receive its records.
    pub appenders: Vec<String>,
}

/// A logger for one namespace.
pub struct Logger {
    pub name: String,
    pub level: LevelFilter,
    /// Names of the appenders that receive its records.
    pub appenders: Vec<String>,
    /// Whether its records also go to the appenders of its parent.
    pub additive: bool,
}

/// Why a set of appenders, a root and loggers do not form a configuration.
pub enum ConfigError {
    /// Two appenders have this name.
    DuplicateAppenderName(String),
    /// The root or a logger refers to this name, which no appender has.
    NonexistentAppender(String),
    /// Two loggers have this name.
    DuplicateLoggerName(String),
}

/// No two strings of `s` are equal.
pub open spec fn distinct(s: Seq<String>) -> bool {
    forall|i: int, j: int| 0 <= i < j < s.len() ==> s[i]@ != s[j]@
}

/// Some string of `s` equals `n`.
pub open spec fn has_name(s: Seq<String>, n: Seq<char>) -> bool {
    exists|i: int| 0 <= i < s.len() && s[i]@ == n
}

/// `n` occurs at least twice in `s`.
pub open spec fn repeated(s: Seq<String>, n: Seq<char>) -> bool {
    exists|i: int, j: int| 0 <= i < j < s.len() && s[i]@ == n && s[j]@ == n
}

/// Every string of `refs` is one of `names`.
pub open spec fn all_known(refs: Seq<String>, names: Seq<String>) -> bool {
    forall|i: int| 0 <= i < refs.len() ==> has_name(names, #[trigger] refs[i]@)
}

/// The names of a list of named appenders.
pub open spec fn appender_names(apps: Seq<(String, Appender)>) -> Seq<String> {
    apps.map_values(|p: (String, Appender)| p.0)
}

/// The names of a list of loggers.
pub open spec fn logger_names(loggers: Seq<Logger>) -> Seq<String> {
    loggers.map_values(|l: Logger| l.name)
}

/// `n` is referred to by the root or by one of the loggers.
pub open spec fn referenced(root: Root, loggers: Seq<Logger>, n: Seq<char>) -> bool {
    has_name(root.appenders@, n) || exists|k: int| 0 <= k < loggers.len() && has_name(#[trigger] loggers[k].appenders@, n)
}

/// The appender names are distinct, the logger names are distinct, and
/// every name that the root or a logger refers to is an appender's.
pub open spec fn valid_config(apps: Seq<(String, Appender)>, root: Root, loggers: Seq<Logger>) -> bool {
    &&& distinct(appender_names(apps))
    &&& distinct(logger_names(loggers))
    &&& all_known(root.appenders@, appender_names(apps))
    &&& forall|k: int| 0 <= k < loggers.len() ==> all_known(#[trigger] loggers[k].appenders@, appender_names(apps))
}

/// What an error says of the parts that were refused.
pub open spec fn explains(e: ConfigError, apps: Seq<(String, Appender)>, root: Root, loggers: Seq<Logger>) -> bool {
    match e {
        ConfigError::DuplicateAppenderName(n) => repeated(appender_names(apps), n@),
        ConfigError::NonexistentAppender(n) => referenced(root, loggers, n@) && !has_name(appender_names(apps), n@),
        ConfigError::DuplicateLoggerName(n) => repeated(logger_names(loggers), n@),
    }
}

/// A checked configuration: named appenders, the root and the loggers.
pub struct Config {
    appenders: Vec<(String, Appender)>,
    root: Root,
    loggers: Vec<Logger>,
}

/// The first string of `names` that an earlier one equals.
fn first_repeated(names: &Vec<String>) -> (r: Option<usize>)
    ensures
        match r {
            Some(j) => j < names@.len() && repeated(names@, names@[j as int]@),
            None => distinct(names@),
        },
{
    let mut j: usize = 0;
    while j < names.len()
        invariant
            j <= names@.len(),
            forall|a: int, b: int| 0 <= a < b < j ==> names@[a]@ != names@[b]@,
        decreases names@.len() - j,
    {
        let mut i: usize = 0;
        while i < j
            invariant
                i <= j < names@.len(),
                forall|a: int| 0 <= a < i ==> names@[a]@ != names@[j as int]@,
            decreases j - i,
        {
            if names[i] == names[j] {
                return Some(j);
            }
            i += 1;
        }
        j += 1;
    }
    None
}

/// Whether `name` is one of `names`.
fn contains_name(names: &Vec<String>, name: &String) -> (r: bool)
    ensures
        r == has_name(names@, name@),
{
    let mut i: usize = 0;
    while i < names.len()
        invariant
            i <= names@.len(),
            forall|a: int| 0 <= a < i ==> names@[a]@ != name@,
        decreases names@.len() - i,
    {
        if names[i] == *name {
            return true;
        }
        i += 1;
    }
    false
}

/// The first string of `refs` that is none of `names`.
fn first_unknown(refs: &Vec<String>, names: &Vec<String>) -> (r: Option<usize>)
    ensures
        match r {
            Some(i) => i < refs@.len() && !has_name(names@, refs@[i as int]@),
            None => all_known(refs@, names@),
        },
{
    let mut i: usize = 0;
    while i < refs.len()
        invariant
            i <= refs@.len(),
            forall|a: int| 0 <= a < i ==> has_name(names@, #[trigger] refs@[a]@),
        decreases refs@.len() - i,
    {
        if !contains_name(names, &refs[i]) {
            return Some(i);
        }
        i += 1;
    }
    None
}

impl Config {
    pub closed spec fn spec_appenders(&self) -> Seq<(String, Appender)> {
        self.appenders@
    }

    pub closed spec fn spec_root(&self) -> Root {
        self.root
    }

    pub closed spec fn spec_loggers(&self) -> Seq<Logger> {
        self.loggers@
    }

    /// The parts satisfy `valid_config`.
    pub closed spec fn wf(&self) -> bool {
        valid_config(self.appenders@, self.root, self.loggers@)
    }

    /// Checks that the parts fit together and makes them a configuration.
    pub fn new(appenders: Vec<(String, Appender)>, root: Root, loggers: Vec<Logger>) -> (r: Result<Config, ConfigError>)
        ensures
            r is Ok <==> valid_config(appenders@, root, loggers@),
            match r {
                Ok(c) => c.wf() && c.spec_appenders() == appenders@ && c.spec_root() == root
                    && c.spec_loggers() == loggers@,
                Err(e) => explains(e, appenders@, root, loggers@),
            },
    {
        let mut names: Vec<String> = Vec::new();
        let mut k: usize = 0;
        while k < appenders.len()
            invariant
                k <= appenders@.len(),
                names@ == appender_names(appenders@).subrange(0, k as int),
            decreases appenders@.len() - k,
        {
            names.push(appenders[k].0.clone());
            k += 1;
            assert(names@ =~= appender_names(appenders@).subrange(0, k as int));
        }
        assert(names@ =~= appender_names(appenders@));
        if let Some(j) = first_repeated(&names) {
            return Err(ConfigError::DuplicateAppenderName(names[j].clone()));
        }
        if let Some(i) = first_unknown(&root.appenders, &names) {
            return Err(ConfigError::NonexistentAppender(root.appenders[i].clone()));
        }
        let mut logger_list: Vec<String> = Vec::new();
        let mut k: usize = 0;
        while k < loggers.len()
            invariant
                k <= loggers@.len(),
                names@ == appender_names(appenders@),
                logger_list@ == logger_names(loggers@).subrange(0, k as int),
                forall|m: int| 0 <= m < k ==> all_known(#[trigger] loggers@[m].appenders@, names@),
            decreases loggers@.len() - k,
        {
            if let Some(i) = first_unknown(&loggers[k].appenders, &names) {
                assert(has_name(loggers@[k as int].appenders@, loggers@[k as int].appenders@[i as int]@));
                return Err(ConfigError::NonexistentAppender(loggers[k].appenders[i].clone()));
            }
            logger_list.push(loggers[k].name.clone());
            k += 1;
            assert(logger_list@ =~= logger_names(loggers@).subrange(0, k as int));
        }
        assert(logger_list@ =~= logger_names(loggers@));
        if let Some(j) = first_repeated(&logger_list) {
            return Err(ConfigError::DuplicateLoggerName(logger_list[j].clone()));
        }
        Ok(Config { appenders, root, loggers })
    }

    /// The named appenders, in the order given.
    pub fn appenders(&self) -> (r: &Vec<(String, Appender)>)
        ensures
            r@ == self.spec_appenders(),
    {
        &self.appenders
    }

    /// The root logger.
    pub fn root(&self) -> (r: &Root)
        ensures
            *r == self.spec_root(),
    {
        &self.root
    }

    /// The loggers, in the order given.
    pub fn loggers(&self) -> (r: &Vec<Logger>)
        ensures
            r@ == self.spec_loggers(),
    {
        &self.loggers
    }
}

} // verus!
