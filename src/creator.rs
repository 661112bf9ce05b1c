use vstd::prelude::*;
use vstd::string::StringExecFns;
use crate::value::{Value, Table, lookup};

verus! {

/// An appender as its configuration describes it, ready to be opened.
pub enum Appender {
    /// Writes records to the file at `path`.
    File { path: String, pattern: Option<String> },
    /// Writes records to standard output.
    Console { pattern: Option<String> },
}

/// Why an appender fragment could not be turned into an appender.
pub enum CreationError {
    /// No factory is registered for this kind.
    UnknownKind(String),
    /// A file appender fragment has no `path`.
    PathRequired,
    /// A file appender fragment has a `path` that is not a string.
    PathNotString,
    /// A fragment has a `pattern` that is not a string.
    PatternNotString,
    /// A factory of the embedding application refused the fragment.
    Refused(String),
}

/// The text that reports a kind with no registered factory.
pub open spec fn unknown_kind_message(kind: Seq<char>) -> Seq<char> {
    "No creator registered for appender kind \""@ + kind + "\""@
}

impl CreationError {
    /// The human readable text of the error.
    pub open spec fn spec_message(&self) -> Seq<char> {
        match self {
            CreationError::UnknownKind(kind) => unknown_kind_message(kind@),
            CreationError::PathRequired => "`path` is required"@,
            CreationError::PathNotString => "`path` must be a string"@,
            CreationError::PatternNotString => "`pattern` must be a string"@,
            CreationError::Refused(msg) => msg@,
        }
    }

    /// The human readable text of the error.
    pub fn message(&self) -> (r: String)
        ensures
            r@ == self.spec_message(),
    {
        match self {
            CreationError::UnknownKind(kind) => {
                let s = String::from_str("No creator registered for appender kind \"");
                let s = s.concat(kind.as_str());
                s.concat("\"")
            },
            CreationError::PathRequired => String::from_str("`path` is required"),
            CreationError::PathNotString => String::from_str("`path` must be a string"),
            CreationError::PatternNotString => String::from_str("`pattern` must be a string"),
            CreationError::Refused(msg) => msg.clone(),
        }
    }
}

/// A factory that validates an appender fragment and builds the appender.
pub trait CreateAppender {
    /// What the factory makes of the fragment `config`.
    spec fn creates(&self, config: Table) -> Result<Appender, CreationError>;

    /// Validates `config` and builds the appender it describes.
    fn create_appender(&self, config: &Table) -> (r: Result<Appender, CreationError>)
        ensures
            r == self.creates(*config),
    ;
}

/// The optional `pattern` setting of a fragment.
pub open spec fn pattern_setting(config: Table) -> Result<Option<String>, CreationError> {
    match lookup(config.entries@, "pattern"@) {
        None => Ok(None),
        Some(Value::String(p)) => Ok(Some(p)),
        Some(_) => Err(CreationError::PatternNotString),
    }
}

fn read_pattern(config: &Table) -> (r: Result<Option<String>, CreationError>)
    ensures
        r == pattern_setting(*config),
{
    match config.get("pattern") {
        None => Ok(None),
        Some(Value::String(p)) => Ok(Some(p.clone())),
        Some(_) => Err(CreationError::PatternNotString),
    }
}

/// The factory of file appenders: `path` is required, `pattern` optional,
/// and other keys are ignored.
pub struct FileAppenderCreator;

/// What a file appender fragment yields.
pub open spec fn file_appender_of(config: Table) -> Result<Appender, CreationError> {
    match lookup(config.entries@, "path"@) {
        None => Err(CreationError::PathRequired),
        Some(Value::String(path)) => match pattern_setting(config) {
            Ok(pattern) => Ok(Appender::File { path, pattern }),
            Err(e) => Err(e),
        },
        Some(_) => Err(CreationError::PathNotString),
    }
}

impl CreateAppender for FileAppenderCreator {
    open spec fn creates(&self, config: Table) -> Result<Appender, CreationError> {
        file_appender_of(config)
    }

    fn create_appender(&self, config: &Table) -> (r: Result<Appender, CreationError>) {
        let path = match config.get("path") {
            None => return Err(CreationError::PathRequired),
            Some(Value::String(path)) => path.clone(),
            Some(_) => return Err(CreationError::PathNotString),
        };
        match read_pattern(config) {
            Ok(pattern) => Ok(Appender::File { path, pattern }),
            Err(e) => Err(e),
        }
    }
}

/// The factory of console appenders: `pattern` is optional, and other keys
/// are ignored.
pub struct ConsoleAppenderCreator;

/// What a console appender fragment yields.
pub open spec fn console_appender_of(config: Table) -> Result<Appender, CreationError> {
    match pattern_setting(config) {
        Ok(pattern) => Ok(Appender::Console { pattern }),
        Err(e) => Err(e),
    }
}

impl CreateAppender for ConsoleAppenderCreator {
    open spec fn creates(&self, config: Table) -> Result<Appender, CreationError> {
        console_appender_of(config)
    }

    fn create_appender(&self, config: &Table) -> (r: Result<Appender, CreationError>) {
        match read_pattern(config) {
            Ok(pattern) => Ok(Appender::Console { pattern }),
            Err(e) => Err(e),
        }
    }
}

/// The factories that come with the library.
pub enum BuiltinCreator {
    File(FileAppenderCreator),
    Console(ConsoleAppenderCreator),
}

impl CreateAppender for BuiltinCreator {
    open spec fn creates(&self, config: Table) -> Result<Appender, CreationError> {
        match self {
            BuiltinCreator::File(c) => c.creates(config),
            BuiltinCreator::Console(c) => c.creates(config),
        }
    }

    fn create_appender(&self, config: &Table) -> (r: Result<Appender, CreationError>) {
        match self {
            BuiltinCreator::File(c) => c.create_appender(config),
            BuiltinCreator::Console(c) => c.create_appender(config),
        }
    }
}

/// The factory registered for each kind by `entries`, a later entry for a
/// kind taking the place of an earlier one.
pub open spec fn registry_of<F>(entries: Seq<(String, F)>) -> Map<Seq<char>, F>
    decreases entries.len(),
{
    if entries.len() == 0 {
        Map::empty()
    } else {
        registry_of(entries.drop_last()).insert(entries.last().0@, entries.last().1)
    }
}

/// The registry of appender factories, keyed by kind.
pub struct Creator<F> {
    appenders: Vec<(String, F)>,
}

impl<F: CreateAppender> Creator<F> {
    /// The factory registered for each kind.
    pub closed spec fn view(&self) -> Map<Seq<char>, F> {
        registry_of(self.appenders@)
    }

    /// What creating an appender of kind `kind` from `config` yields.
    pub open spec fn creates(&self, kind: String, config: Table) -> Result<Appender, CreationError> {
        if self@.contains_key(kind@) {
            self@[kind@].creates(config)
        } else {
            Err(CreationError::UnknownKind(kind))
        }
    }

    /// A registry with no factory.
    pub fn new() -> (r: Creator<F>)
        ensures
            r@ == Map::<Seq<char>, F>::empty(),
    {
        Creator { appenders: Vec::new() }
    }

    /// Registers `creator` for `kind`, replacing the factory registered for
    /// it before, if any.
    pub fn add_appender(&mut self, kind: &str, creator: F)
        ensures
            final(self)@ == old(self)@.insert(kind@, creator),
    {
        let ghost before = self.appenders@;
        self.appenders.push((String::from_str(kind), creator));
        assert(self.appenders@.drop_last() =~= before);
    }

    /// The factory registered for `kind`.
    pub fn factory(&self, kind: &str) -> (r: Option<&F>)
        ensures
            match r {
                Some(f) => self@.contains_key(kind@) && self@[kind@] == *f,
                None => !self@.contains_key(kind@),
            },
    {
        let wanted = String::from_str(kind);
        let mut i: usize = self.appenders.len();
        assert(self.appenders@.subrange(0, i as int) =~= self.appenders@);
        while i > 0
            invariant
                i <= self.appenders@.len(),
                wanted@ == kind@,
                self@.contains_key(kind@) == registry_of(self.appenders@.subrange(0, i as int)).contains_key(kind@),
                self@.contains_key(kind@) ==> self@[kind@] == registry_of(self.appenders@.subrange(0, i as int))[kind@],
            decreases i,
        {
            let ghost prefix = self.appenders@.subrange(0, i as int);
            assert(prefix.drop_last() =~= self.appenders@.subrange(0, i - 1));
            if self.appenders[i - 1].0 == wanted {
                return Some(&self.appenders[i - 1].1);
            }
            i -= 1;
        }
        assert(self.appenders@.subrange(0, 0) =~= Seq::<(String, F)>::empty());
        None
    }

    /// Builds the appender that the factory registered for `kind` makes of
    /// `config`; fails with `UnknownKind` where no factory is registered.
    pub fn create_appender(&self, kind: &str, config: &Table) -> (r: Result<Appender, CreationError>)
        ensures
            self@.contains_key(kind@) ==> r == self@[kind@].creates(*config),
            !self@.contains_key(kind@) ==> (r matches Err(CreationError::UnknownKind(k)) && k@ == kind@),
    {
        match self.factory(kind) {
            Some(f) => f.create_appender(config),
            None => Err(CreationError::UnknownKind(String::from_str(kind))),
        }
    }

    /// Builds the appender of kind `kind` that `config` describes.
    pub fn create_for_kind(&self, kind: &String, config: &Table) -> (r: Result<Appender, CreationError>)
        ensures
            r == self.creates(*kind, *config),
    {
        match self.factory(kind.as_str()) {
            Some(f) => f.create_appender(config),
            None => Err(CreationError::UnknownKind(kind.clone())),
        }
    }
}

impl Default for Creator<BuiltinCreator> {
    /// A registry with the file factory under "file" and the console
    /// factory under "console".
    fn default() -> (r: Creator<BuiltinCreator>)
        ensures
            r@ == Map::<Seq<char>, BuiltinCreator>::empty().insert(
                "file"@,
                BuiltinCreator::File(FileAppenderCreator),
            ).insert("console"@, BuiltinCreator::Console(ConsoleAppenderCreator)),
    {
        let mut creator = Creator::new();
        creator.add_appender("file", BuiltinCreator::File(FileAppenderCreator));
        creator.add_appender("console", BuiltinCreator::Console(ConsoleAppenderCreator));
        creator
    }
}

/// Asking for a kind that has no factory fails with an error whose message
/// holds the kind as it was asked for.
pub proof fn lemma_unregistered_kind<F: CreateAppender>(creator: Creator<F>, kind: String, config: Table)
    requires
        !creator@.contains_key(kind@),
    ensures
        creator.creates(kind, config) == Err::<Appender, CreationError>(CreationError::UnknownKind(kind)),
        exists|i: int|
            0 <= i && i + kind@.len() <= unknown_kind_message(kind@).len()
                && #[trigger] unknown_kind_message(kind@).subrange(i, i + kind@.len()) == kind@,
{
    let prefix = "No creator registered for appender kind \""@;
    let msg = unknown_kind_message(kind@);
    assert(msg.subrange(prefix.len() as int, (prefix.len() + kind@.len()) as int) =~= kind@);
}

/// A file fragment without `path` fails with "`path` is required", and one
/// whose `path` is not a string fails with "`path` must be a string",
/// whatever its other entries.
pub proof fn lemma_file_path_errors(config: Table)
    ensures
        lookup(config.entries@, "path"@) is None ==> FileAppenderCreator.creates(config) == Err::<Appender, CreationError>(CreationError::PathRequired)
            && CreationError::PathRequired.spec_message() == "`path` is required"@,
        (lookup(config.entries@, "path"@) matches Some(v) && !(v is String)) ==> FileAppenderCreator.creates(config) == Err::<Appender, CreationError>(CreationError::PathNotString)
            && CreationError::PathNotString.spec_message() == "`path` must be a string"@,
{
}

/// After a factory is registered for a kind, creating an appender of that
/// kind goes to that factory alone, and other kinds are served as before.
pub proof fn lemma_latest_registration_wins<F: CreateAppender>(
    before: Creator<F>,
    after: Creator<F>,
    kind: String,
    factory: F,
    other: String,
    config: Table,
)
    requires
        after@ == before@.insert(kind@, factory),
    ensures
        after.creates(kind, config) == factory.creates(config),
        other@ != kind@ ==> after.creates(other, config) == before.creates(other, config),
{
}

} // verus!
