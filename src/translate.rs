use vstd::prelude::*;
use crate::level::LevelFilter;
use crate::creator::{Appender, CreateAppender, CreationError, Creator};
use crate::config::{Config, ConfigError, Root, Logger, valid_config, explains};
use crate::value::Table;
use crate::raw::{RawConfig, RawRoot, RawLogger, RawAppender, extract, extracted, document_ok};

verus! {

/// A translated document: the configuration and how often to reload it.
pub struct TomlConfig {
    /// Seconds between reloads, if the document asks for them.
    pub refresh_rate: Option<u64>,
    pub config: Config,
}

/// Why a document could not be translated.
pub enum Error {
    /// The document does not have the expected shape; one message per problem.
    Parse(Vec<String>),
    /// An appender fragment could not be turned into an appender.
    Creation(CreationError),
    /// The appenders, root and loggers do not fit together.
    Config(ConfigError),
}

/// The appenders built from the first `n` fragments, or the first failure.
pub open spec fn created_upto<F: CreateAppender>(
    creator: Creator<F>,
    frags: Seq<(String, RawAppender)>,
    n: nat,
) -> Result<Seq<(String, Appender)>, CreationError>
    decreases n,
{
    if n == 0 {
        Ok(Seq::empty())
    } else {
        match created_upto(creator, frags, (n - 1) as nat) {
            Err(e) => Err(e),
            Ok(done) => match creator.creates(frags[n - 1].1.kind, frags[n - 1].1.config) {
                Err(e) => Err(e),
                Ok(a) => Ok(done.push((frags[n - 1].0, a))),
            },
        }
    }
}

/// The appenders built from all fragments, or the first failure.
pub open spec fn created<F: CreateAppender>(
    creator: Creator<F>,
    frags: Seq<(String, RawAppender)>,
) -> Result<Seq<(String, Appender)>, CreationError> {
    created_upto(creator, frags, frags.len())
}

/// The names that an optional list holds; none where it is absent.
pub open spec fn names_or_empty(names: Option<Vec<String>>) -> Seq<String> {
    match names {
        Some(v) => v@,
        None => Seq::empty(),
    }
}

/// `root` is the root that `raw` describes, with level Debug and no
/// appenders where the document has no root.
pub open spec fn root_assembled(raw: Option<RawRoot>, root: Root) -> bool {
    match raw {
        Some(r) => root.level == r.level && root.appenders@ == names_or_empty(r.appenders),
        None => root.level == LevelFilter::Debug && root.appenders@.len() == 0,
    }
}

/// `logger` is the logger that `raw` describes, additive unless it says
/// otherwise and with no appenders unless it names some.
pub open spec fn logger_assembled(raw: RawLogger, logger: Logger) -> bool {
    &&& logger.name == raw.name
    &&& logger.level == raw.level
    &&& logger.appenders@ == names_or_empty(raw.appenders)
    &&& logger.additive == match raw.additive {
        Some(b) => b,
        None => true,
    }
}

/// Each logger of `loggers` is assembled from the raw logger at its index.
pub open spec fn loggers_assembled(raws: Seq<RawLogger>, loggers: Seq<Logger>) -> bool {
    &&& loggers.len() == raws.len()
    &&& forall|i: int| 0 <= i < raws.len() ==> logger_assembled(#[trigger] raws[i], loggers[i])
}

/// `r` is what translating `raw` with `creator` yields: the first appender
/// fragment that fails ends the translation; otherwise the appenders, root
/// and loggers are checked together.
pub open spec fn translation<F: CreateAppender>(
    raw: RawConfig,
    creator: Creator<F>,
    r: Result<TomlConfig, Error>,
) -> bool {
    match created(creator, raw.appenders@) {
        Err(e) => r == Err::<TomlConfig, Error>(Error::Creation(e)),
        Ok(apps) => match r {
            Ok(t) => {
                &&& t.refresh_rate == raw.refresh_rate
                &&& t.config.wf()
                &&& t.config.spec_appenders() == apps
                &&& root_assembled(raw.root, t.config.spec_root())
                &&& loggers_assembled(raw.loggers@, t.config.spec_loggers())
            },
            Err(Error::Config(e)) => exists|root: Root, loggers: Seq<Logger>|
                #![trigger root_assembled(raw.root, root), loggers_assembled(raw.loggers@, loggers)]
                {
                    &&& root_assembled(raw.root, root)
                    &&& loggers_assembled(raw.loggers@, loggers)
                    &&& !valid_config(apps, root, loggers)
                    &&& explains(e, apps, root, loggers)
                },
            Err(_) => false,
        },
    }
}

/// Once a fragment has failed, the failure stands for every longer prefix.
proof fn lemma_failure_persists<F: CreateAppender>(
    creator: Creator<F>,
    frags: Seq<(String, RawAppender)>,
    n: nat,
    m: nat,
)
    requires
        n <= m,
        created_upto(creator, frags, n) is Err,
    ensures
        created_upto(creator, frags, m) == created_upto(creator, frags, n),
    decreases m - n,
{
    if n < m {
        lemma_failure_persists(creator, frags, n, (m - 1) as nat);
    }
}

/// A copy of a list of names.
fn copy_names(names: &Vec<String>) -> (r: Vec<String>)
    ensures
        r@ == names@,
{
    let mut out: Vec<String> = Vec::new();
    let mut i: usize = 0;
    while i < names.len()
        invariant
            i <= names@.len(),
            out@ == names@.subrange(0, i as int),
        decreases names@.len() - i,
    {
        out.push(names[i].clone());
        i += 1;
        assert(out@ =~= names@.subrange(0, i as int));
    }
    assert(out@ =~= names@);
    out
}

fn copy_optional_names(names: &Option<Vec<String>>) -> (r: Vec<String>)
    ensures
        r@ == names_or_empty(*names),
{
    match names {
        Some(v) => copy_names(v),
        None => Vec::new(),
    }
}

/// The root that the document describes.
fn assemble_root(raw: &Option<RawRoot>) -> (r: Root)
    ensures
        root_assembled(*raw, r),
{
    match raw {
        Some(rr) => Root { level: rr.level, appenders: copy_optional_names(&rr.appenders) },
        None => Root { level: LevelFilter::Debug, appenders: Vec::new() },
    }
}

/// The logger that a raw logger describes.
fn assemble_logger(raw: &RawLogger) -> (r: Logger)
    ensures
        logger_assembled(*raw, r),
{
    let additive = match raw.additive {
        Some(b) => b,
        None => true,
    };
    Logger {
        name: raw.name.clone(),
        level: raw.level,
        appenders: copy_optional_names(&raw.appenders),
        additive,
    }
}

/// Builds the appender of each fragment, in order, and checks the result
/// together with the root and loggers, defaults applied.
pub fn translate<F: CreateAppender>(raw: &RawConfig, creator: &Creator<F>) -> (r: Result<TomlConfig, Error>)
    ensures
        translation(*raw, *creator, r),
{
    let mut appenders: Vec<(String, Appender)> = Vec::new();
    let mut i: usize = 0;
    while i < raw.appenders.len()
        invariant
            i <= raw.appenders@.len(),
            created_upto(*creator, raw.appenders@, i as nat) == Ok::<Seq<(String, Appender)>, CreationError>(appenders@),
        decreases raw.appenders@.len() - i,
    {
        let frag = &raw.appenders[i];
        match creator.create_for_kind(&frag.1.kind, &frag.1.config) {
            Ok(a) => {
                appenders.push((frag.0.clone(), a));
            },
            Err(e) => {
                proof {
                    lemma_failure_persists(*creator, raw.appenders@, (i + 1) as nat, raw.appenders@.len());
                }
                return Err(Error::Creation(e));
            },
        }
        i += 1;
    }
    let root = assemble_root(&raw.root);
    let mut loggers: Vec<Logger> = Vec::new();
    let mut k: usize = 0;
    while k < raw.loggers.len()
        invariant
            k <= raw.loggers@.len(),
            loggers@.len() == k,
            forall|j: int| 0 <= j < k ==> logger_assembled(#[trigger] raw.loggers@[j], loggers@[j]),
        decreases raw.loggers@.len() - k,
    {
        loggers.push(assemble_logger(&raw.loggers[k]));
        k += 1;
    }
    let ghost root_copy = root;
    let ghost logger_seq = loggers@;
    match Config::new(appenders, root, loggers) {
        Ok(config) => Ok(TomlConfig { refresh_rate: raw.refresh_rate, config }),
        Err(e) => {
            assert(root_assembled(raw.root, root_copy) && loggers_assembled(raw.loggers@, logger_seq));
            Err(Error::Config(e))
        },
    }
}

/// Translates a parsed document: reads its settings, builds its appenders
/// with the factories of `creator`, and checks the result.
pub fn parse<F: CreateAppender>(doc: Table, creator: &Creator<F>) -> (r: Result<TomlConfig, Error>)
    ensures
        !document_ok(doc) ==> (r matches Err(Error::Parse(msgs)) && msgs@.len() > 0),
        document_ok(doc) ==> exists|raw: RawConfig| #[trigger] extracted(doc, raw) && translation(raw, *creator, r),
{
    match extract(doc) {
        Err(msgs) => Err(Error::Parse(msgs)),
        Ok(raw) => {
            let r = translate(&raw, creator);
            assert(extracted(doc, raw) && translation(raw, *creator, r));
            r
        },
    }
}

/// Every fragment yields one appender, under the fragment's name and in the
/// fragment's place, wherever all of them succeed.
pub proof fn lemma_created_names<F: CreateAppender>(
    creator: Creator<F>,
    frags: Seq<(String, RawAppender)>,
    n: nat,
)
    requires
        n <= frags.len(),
        created_upto(creator, frags, n) is Ok,
    ensures
        created_upto(creator, frags, n)->Ok_0.len() == n,
        forall|i: int| 0 <= i < n ==> (#[trigger] created_upto(creator, frags, n)->Ok_0[i]).0 == frags[i].0,
    decreases n,
{
    if n > 0 {
        lemma_created_names(creator, frags, (n - 1) as nat);
    }
}

/// A translation that succeeds holds one appender for each fragment of the
/// document, under its name and in document order.
pub proof fn lemma_one_appender_per_fragment<F: CreateAppender>(raw: RawConfig, creator: Creator<F>, t: TomlConfig)
    requires
        translation(raw, creator, Ok(t)),
    ensures
        t.config.spec_appenders().len() == raw.appenders@.len(),
        forall|i: int| 0 <= i < raw.appenders@.len() ==> (#[trigger] t.config.spec_appenders()[i]).0 == raw.appenders@[i].0,
{
    lemma_created_names(creator, raw.appenders@, raw.appenders@.len());
}

/// A logger that leaves out `additive` is additive, and one that leaves out
/// `appenders` refers to no appender.
pub proof fn lemma_logger_defaults(raw: RawLogger, logger: Logger)
    requires
        logger_assembled(raw, logger),
    ensures
        raw.additive is None ==> logger.additive,
        raw.appenders is None ==> logger.appenders@.len() == 0,
{
}

} // verus!
