use vstd::prelude::*;
use vstd::string::StringExecFns;
use crate::value::{Value, Table, lookup, lookup_from};
use crate::level::{LevelFilter, level_named, parse_level};

verus! {

/// An appender as the document writes it: its kind and the rest of its table.
pub struct RawAppender {
    pub kind: String,
    pub config: Table,
}

/// The root logger as the document writes it.
pub struct RawRoot {
    pub level: LevelFilter,
    pub appenders: Option<Vec<String>>,
}

/// A logger as the document writes it.
pub struct RawLogger {
    pub name: String,
    pub level: LevelFilter,
    pub appenders: Option<Vec<String>>,
    pub additive: Option<bool>,
}

/// The document's settings, before appenders are built and defaults applied.
pub struct RawConfig {
    /// Seconds between reloads of the document, if it asks for them.
    pub refresh_rate: Option<u64>,
    pub root: Option<RawRoot>,
    /// Appender fragments by name, in document order.
    pub appenders: Vec<(String, RawAppender)>,
    pub loggers: Vec<RawLogger>,
}

/// `entries` without those whose key is one of `keys`, in order.
pub open spec fn without_keys(entries: Seq<(String, Value)>, keys: Seq<Seq<char>>) -> Seq<(String, Value)>
    decreases entries.len(),
{
    if entries.len() == 0 {
        entries
    } else if keys.contains(entries.last().0@) {
        without_keys(entries.drop_last(), keys)
    } else {
        without_keys(entries.drop_last(), keys).push(entries.last())
    }
}

/// No two keys of `keys` are equal.
pub open spec fn distinct_keys(keys: Seq<String>) -> bool {
    forall|a: int, b: int| 0 <= a < b < keys.len() ==> keys[a]@ != keys[b]@
}

/// Where no entry before `i` has key `k`, looking `k` up starts at `i`.
proof fn lemma_lookup_skips(s: Seq<(String, Value)>, k: Seq<char>, i: int)
    requires
        0 <= i <= s.len(),
        forall|j: int| 0 <= j < i ==> s[j].0@ != k,
    ensures
        lookup(s, k) == lookup_from(s, k, i),
    decreases i,
{
    if i > 0 {
        lemma_lookup_skips(s, k, i - 1);
    }
}

/// Takes the table apart: the value of each key of `keys` and the entries
/// under other keys.
fn pick(t: Table, keys: &Vec<String>) -> (r: (Vec<Option<Value>>, Table))
    requires
        distinct_keys(keys@),
    ensures
        r.0@.len() == keys@.len(),
        forall|j: int| 0 <= j < keys@.len() ==> #[trigger] r.0@[j] == lookup(t.entries@, keys@[j]@),
        r.1.entries@ == without_keys(t.entries@, keys@.map_values(|k: String| k@)),
{
    let ghost all = t.entries@;
    let mut entries = t.entries;
    let mut found: Vec<Option<Value>> = Vec::new();
    let mut j: usize = 0;
    while j < keys.len()
        invariant
            j <= keys@.len(),
            found@.len() == j,
            forall|m: int| 0 <= m < j ==> found@[m] is None,
        decreases keys@.len() - j,
    {
        found.push(None);
        j += 1;
    }
    let mut rest: Vec<(String, Value)> = Vec::new();
    let mut i: usize = 0;
    let n = entries.len();
    while i < n
        invariant
            n == all.len(),
            i <= n,
            entries@ == all.subrange(i as int, n as int),
            found@.len() == keys@.len(),
            distinct_keys(keys@),
            forall|m: int| 0 <= m < keys@.len() ==> (#[trigger] found@[m] is None ==> forall|q: int| 0 <= q < i ==> all[q].0@ != keys@[m]@),
            forall|m: int| 0 <= m < keys@.len() ==> (#[trigger] found@[m] is Some ==> found@[m] == lookup(all, keys@[m]@)),
            rest@ == without_keys(all.subrange(0, i as int), keys@.map_values(|k: String| k@)),
        decreases n - i,
    {
        let (k, v) = entries.remove(0);
        assert(all[i as int] == (k, v));
        let mut m: usize = 0;
        let mut slot: Option<usize> = None;
        while m < keys.len()
            invariant
                m <= keys@.len(),
                match slot {
                    Some(x) => x < m && keys@[x as int]@ == k@,
                    None => forall|q: int| 0 <= q < m ==> keys@[q]@ != k@,
                },
            decreases keys@.len() - m,
        {
            if slot.is_none() && keys[m] == k {
                slot = Some(m);
            }
            m += 1;
        }
        assert(all.subrange(0, i + 1).drop_last() =~= all.subrange(0, i as int));
        proof {
            let kv = keys@.map_values(|k: String| k@);
            if slot is Some {
                assert(kv[slot->0 as int] == k@);
            } else {
                assert forall|q: int| 0 <= q < kv.len() implies kv[q] != k@ by {
                    assert(keys@[q]@ != k@);
                }
            }
        }
        match slot {
            Some(x) => {
                if found[x].is_none() {
                    proof {
                        lemma_lookup_skips(all, k@, i as int);
                    }
                    found.set(x, Some(v));
                }
            },
            None => {
                rest.push((k, v));
            },
        }
        i += 1;
    }
    proof {
        assert forall|m: int| 0 <= m < keys@.len() implies #[trigger] found@[m] == lookup(all, keys@[m]@) by {
            if found@[m] is None {
                lemma_lookup_skips(all, keys@[m]@, n as int);
            }
        }
        assert(all.subrange(0, n as int) =~= all);
    }
    (found, Table { entries: rest })
}

/// A `level` setting is absent or names a level.
pub open spec fn level_ok(v: Option<Value>) -> bool {
    match v {
        None => true,
        Some(Value::String(s)) => level_named(s@) is Some,
        Some(_) => false,
    }
}

/// The level that a `level` setting gives; Debug where it is absent.
pub open spec fn level_of(v: Option<Value>) -> LevelFilter {
    match v {
        Some(Value::String(s)) => match level_named(s@) {
            Some(l) => l,
            None => LevelFilter::Debug,
        },
        _ => LevelFilter::Debug,
    }
}

/// `names` are the strings that `items` hold, in order.
pub open spec fn strings_of(items: Seq<Value>, names: Seq<String>) -> bool {
    &&& names.len() == items.len()
    &&& forall|i: int| 0 <= i < items.len() ==> items[i] == Value::String(#[trigger] names[i])
}

/// An `appenders` list is absent or an array of strings.
pub open spec fn names_ok(v: Option<Value>) -> bool {
    match v {
        None => true,
        Some(Value::Array(items)) => forall|i: int| 0 <= i < items@.len() ==> #[trigger] items@[i] is String,
        Some(_) => false,
    }
}

/// `out` is what an `appenders` list holds.
pub open spec fn names_read(v: Option<Value>, out: Option<Vec<String>>) -> bool {
    match v {
        None => out is None,
        Some(Value::Array(items)) => match out {
            Some(o) => strings_of(items@, o@),
            None => false,
        },
        Some(_) => false,
    }
}

/// A `refresh_rate` is absent or a whole number of seconds.
pub open spec fn refresh_ok(v: Option<Value>) -> bool {
    match v {
        None => true,
        Some(Value::Integer(n)) => n >= 0,
        Some(_) => false,
    }
}

/// The seconds that a `refresh_rate` gives.
pub open spec fn refresh_of(v: Option<Value>) -> Option<u64> {
    match v {
        Some(Value::Integer(n)) => Some(n as u64),
        _ => None,
    }
}

/// A `root` is absent, or a table with a valid `level` and `appenders`.
pub open spec fn root_ok(v: Option<Value>) -> bool {
    match v {
        None => true,
        Some(Value::Table(t)) => level_ok(lookup(t.entries@, "level"@)) && names_ok(lookup(t.entries@, "appenders"@)),
        Some(_) => false,
    }
}

/// `out` is the root that a `root` setting describes.
pub open spec fn root_read(v: Option<Value>, out: Option<RawRoot>) -> bool {
    match v {
        None => out is None,
        Some(Value::Table(t)) => match out {
            Some(r) => r.level == level_of(lookup(t.entries@, "level"@)) && names_read(lookup(t.entries@, "appenders"@), r.appenders),
            None => false,
        },
        Some(_) => false,
    }
}

/// An appender fragment is a table whose `kind` is a string.
pub open spec fn fragment_ok(v: Value) -> bool {
    match v {
        Value::Table(t) => lookup(t.entries@, "kind"@) matches Some(Value::String(_)),
        _ => false,
    }
}

/// `out` holds the kind of a fragment and its other entries.
pub open spec fn fragment_read(v: Value, out: RawAppender) -> bool {
    match v {
        Value::Table(t) => {
            &&& lookup(t.entries@, "kind"@) == Some(Value::String(out.kind))
            &&& out.config.entries@ == without_keys(t.entries@, seq!["kind"@])
        },
        _ => false,
    }
}

/// `appenders` is absent, or a table of valid fragments.
pub open spec fn appenders_ok(v: Option<Value>) -> bool {
    match v {
        None => true,
        Some(Value::Table(t)) => forall|i: int| 0 <= i < t.entries@.len() ==> fragment_ok(#[trigger] t.entries@[i].1),
        Some(_) => false,
    }
}

/// `out` holds each fragment of `appenders` under its name, in order.
pub open spec fn appenders_read(v: Option<Value>, out: Seq<(String, RawAppender)>) -> bool {
    match v {
        None => out.len() == 0,
        Some(Value::Table(t)) => {
            &&& out.len() == t.entries@.len()
            &&& forall|i: int| 0 <= i < out.len() ==> (#[trigger] out[i]).0 == t.entries@[i].0 && fragment_read(t.entries@[i].1, out[i].1)
        },
        Some(_) => false,
    }
}

/// An `additive` setting is absent or a boolean.
pub open spec fn additive_ok(v: Option<Value>) -> bool {
    match v {
        None => true,
        Some(Value::Boolean(_)) => true,
        Some(_) => false,
    }
}

/// The flag that an `additive` setting gives.
pub open spec fn additive_of(v: Option<Value>) -> Option<bool> {
    match v {
        Some(Value::Boolean(b)) => Some(b),
        _ => None,
    }
}

/// A logger is a table with a string `name` and valid other settings.
pub open spec fn logger_ok(v: Value) -> bool {
    match v {
        Value::Table(t) => {
            &&& lookup(t.entries@, "name"@) matches Some(Value::String(_))
            &&& level_ok(lookup(t.entries@, "level"@))
            &&& names_ok(lookup(t.entries@, "appenders"@))
            &&& additive_ok(lookup(t.entries@, "additive"@))
        },
        _ => false,
    }
}

/// `out` is the logger that a logger table describes.
pub open spec fn logger_read(v: Value, out: RawLogger) -> bool {
    match v {
        Value::Table(t) => {
            &&& lookup(t.entries@, "name"@) == Some(Value::String(out.name))
            &&& out.level == level_of(lookup(t.entries@, "level"@))
            &&& names_read(lookup(t.entries@, "appenders"@), out.appenders)
            &&& out.additive == additive_of(lookup(t.entries@, "additive"@))
        },
        _ => false,
    }
}

/// `loggers` is absent, or an array of valid loggers.
pub open spec fn loggers_ok(v: Option<Value>) -> bool {
    match v {
        None => true,
        Some(Value::Array(items)) => forall|i: int| 0 <= i < items@.len() ==> logger_ok(#[trigger] items@[i]),
        Some(_) => false,
    }
}

/// `out` holds the loggers of `loggers`, in order.
pub open spec fn loggers_read(v: Option<Value>, out: Seq<RawLogger>) -> bool {
    match v {
        None => out.len() == 0,
        Some(Value::Array(items)) => {
            &&& out.len() == items@.len()
            &&& forall|i: int| 0 <= i < out.len() ==> logger_read(items@[i], #[trigger] out[i])
        },
        Some(_) => false,
    }
}

/// The document has the shape that `extract` reads.
pub open spec fn document_ok(doc: Table) -> bool {
    &&& refresh_ok(lookup(doc.entries@, "refresh_rate"@))
    &&& root_ok(lookup(doc.entries@, "root"@))
    &&& appenders_ok(lookup(doc.entries@, "appenders"@))
    &&& loggers_ok(lookup(doc.entries@, "loggers"@))
}

/// `raw` holds what the document says.
pub open spec fn extracted(doc: Table, raw: RawConfig) -> bool {
    &&& raw.refresh_rate == refresh_of(lookup(doc.entries@, "refresh_rate"@))
    &&& root_read(lookup(doc.entries@, "root"@), raw.root)
    &&& appenders_read(lookup(doc.entries@, "appenders"@), raw.appenders@)
    &&& loggers_read(lookup(doc.entries@, "loggers"@), raw.loggers@)
}

/// `after` is `before` where a reading succeeded, and longer where it failed.
pub open spec fn reported(before: Seq<String>, after: Seq<String>, ok: bool) -> bool {
    &&& ok ==> after == before
    &&& !ok ==> after.len() > before.len()
}

/// `context` followed by `text`.
fn message(context: &String, text: &str) -> (r: String)
    ensures
        r@ == context@ + text@,
{
    context.clone().concat(text)
}

fn read_level(v: Option<Value>, context: &String, errs: &mut Vec<String>) -> (r: Option<LevelFilter>)
    ensures
        r is Some <==> level_ok(v),
        r matches Some(l) ==> l == level_of(v),
        reported(old(errs)@, final(errs)@, level_ok(v)),
{
    match v {
        None => Some(LevelFilter::Debug),
        Some(Value::String(name)) => {
            let l = parse_level(name.as_str());
            if l.is_none() {
                errs.push(message(context, ": `level` is not one of off, error, warn, info, debug, trace"));
            }
            l
        },
        Some(_) => {
            errs.push(message(context, ": `level` must be a string"));
            None
        },
    }
}

fn read_names(v: Option<Value>, context: &String, errs: &mut Vec<String>) -> (r: Option<Option<Vec<String>>>)
    ensures
        r is Some <==> names_ok(v),
        r matches Some(o) ==> names_read(v, o),
        reported(old(errs)@, final(errs)@, names_ok(v)),
{
    match v {
        None => Some(None),
        Some(Value::Array(items)) => {
            let ghost all = items@;
            let mut items = items;
            let n = items.len();
            let mut names: Vec<String> = Vec::new();
            let mut i: usize = 0;
            while i < n
                invariant
                    n == all.len(),
                    i <= n,
                    items@ == all.subrange(i as int, n as int),
                    strings_of(all.subrange(0, i as int), names@),
                    *errs == *old(errs),
                    names_ok(v) <==> (forall|q: int| 0 <= q < all.len() ==> #[trigger] all[q] is String),
                    forall|o: Vec<String>| #[trigger] names_read(v, Some(o)) <==> strings_of(all, o@),
                decreases n - i,
            {
                let item = items.remove(0);
                assert(all[i as int] == item);
                match item {
                    Value::String(name) => names.push(name),
                    _ => {
                        assert(!(all[i as int] is String));
                        errs.push(message(context, ": `appenders` must be an array of strings"));
                        return None;
                    },
                }
                i += 1;
                assert(all.subrange(0, i as int).drop_last() =~= all.subrange(0, i - 1));
            }
            assert(all.subrange(0, n as int) =~= all);
            assert forall|q: int| 0 <= q < all.len() implies #[trigger] all[q] is String by {
                assert(all[q] == Value::String(names@[q]));
            }
            Some(Some(names))
        },
        Some(_) => {
            errs.push(message(context, ": `appenders` must be an array of strings"));
            None
        },
    }
}

/// `context` followed by `middle` and `text`.
fn message3(context: &str, middle: &String, text: &str) -> (r: String)
    ensures
        r@ == context@ + middle@ + text@,
{
    String::from_str(context).concat(middle.as_str()).concat(text)
}

fn read_refresh(v: Option<Value>, errs: &mut Vec<String>) -> (r: Option<Option<u64>>)
    ensures
        r is Some <==> refresh_ok(v),
        r matches Some(o) ==> o == refresh_of(v),
        reported(old(errs)@, final(errs)@, refresh_ok(v)),
{
    match v {
        None => Some(None),
        Some(Value::Integer(n)) => {
            if n >= 0 {
                Some(Some(n as u64))
            } else {
                errs.push(String::from_str("`refresh_rate` must not be negative"));
                None
            }
        },
        Some(_) => {
            errs.push(String::from_str("`refresh_rate` must be a whole number of seconds"));
            None
        },
    }
}

fn read_root(v: Option<Value>, errs: &mut Vec<String>) -> (r: Option<Option<RawRoot>>)
    ensures
        r is Some <==> root_ok(v),
        r matches Some(o) ==> root_read(v, o),
        reported(old(errs)@, final(errs)@, root_ok(v)),
{
    match v {
        None => Some(None),
        Some(Value::Table(t)) => {
            let ghost entries = t.entries@;
            let mut keys: Vec<String> = Vec::new();
            keys.push(String::from_str("level"));
            keys.push(String::from_str("appenders"));
            proof {
                reveal_strlit("level");
                assert("level"@.len() == 5);
                reveal_strlit("appenders");
                assert("appenders"@.len() == 9);
            }
            assert(distinct_keys(keys@));
            let (mut found, _rest) = pick(t, &keys);
            assert(found@[0] == lookup(entries, "level"@));
            assert(found@[1] == lookup(entries, "appenders"@));
            let level_v = found.remove(0);
            let names_v = found.remove(0);
            let context = String::from_str("root");
            let level = read_level(level_v, &context, errs);
            let names = read_names(names_v, &context, errs);
            match (level, names) {
                (Some(level), Some(appenders)) => Some(Some(RawRoot { level, appenders })),
                _ => None,
            }
        },
        Some(_) => {
            errs.push(String::from_str("`root` must be a table"));
            None
        },
    }
}

fn read_fragment(name: &String, v: Value, errs: &mut Vec<String>) -> (r: Option<RawAppender>)
    ensures
        r is Some <==> fragment_ok(v),
        r matches Some(a) ==> fragment_read(v, a),
        reported(old(errs)@, final(errs)@, fragment_ok(v)),
{
    match v {
        Value::Table(t) => {
            let ghost entries = t.entries@;
            let mut keys: Vec<String> = Vec::new();
            keys.push(String::from_str("kind"));
            assert(keys@.map_values(|k: String| k@) =~= seq!["kind"@]);
            let (mut found, config) = pick(t, &keys);
            assert(found@[0] == lookup(entries, "kind"@));
            match found.remove(0) {
                Some(Value::String(kind)) => Some(RawAppender { kind, config }),
                Some(_) => {
                    errs.push(message3("appender `", name, "`: `kind` must be a string"));
                    None
                },
                None => {
                    errs.push(message3("appender `", name, "`: `kind` is required"));
                    None
                },
            }
        },
        _ => {
            errs.push(message3("appender `", name, "` must be a table"));
            None
        },
    }
}

fn read_appenders(v: Option<Value>, errs: &mut Vec<String>) -> (r: Option<Vec<(String, RawAppender)>>)
    ensures
        r is Some <==> appenders_ok(v),
        r matches Some(o) ==> appenders_read(v, o@),
        reported(old(errs)@, final(errs)@, appenders_ok(v)),
{
    match v {
        None => Some(Vec::new()),
        Some(Value::Table(t)) => {
            let ghost all = t.entries@;
            let mut entries = t.entries;
            let n = entries.len();
            let mut out: Vec<(String, RawAppender)> = Vec::new();
            let mut ok = true;
            let mut i: usize = 0;
            while i < n
                invariant
                    n == all.len(),
                    i <= n,
                    entries@ == all.subrange(i as int, n as int),
                    ok == forall|q: int| 0 <= q < i ==> fragment_ok(#[trigger] all[q].1),
                    ok ==> out@.len() == i,
                    ok ==> forall|q: int| 0 <= q < i ==> (#[trigger] out@[q]).0 == all[q].0 && fragment_read(all[q].1, out@[q].1),
                    reported(old(errs)@, errs@, ok),
                    appenders_ok(v) <==> (forall|q: int| 0 <= q < all.len() ==> fragment_ok(#[trigger] all[q].1)),
                    forall|o: Seq<(String, RawAppender)>| #[trigger] appenders_read(v, o) <==> (o.len() == all.len()
                        && forall|q: int| 0 <= q < o.len() ==> (#[trigger] o[q]).0 == all[q].0 && fragment_read(all[q].1, o[q].1)),
                decreases n - i,
            {
                let (name, fv) = entries.remove(0);
                assert(all[i as int] == (name, fv));
                let context = name.clone();
                match read_fragment(&context, fv, errs) {
                    Some(a) => {
                        if ok {
                            out.push((name, a));
                        }
                    },
                    None => {
                        ok = false;
                    },
                }
                i += 1;
            }
            if ok {
                Some(out)
            } else {
                None
            }
        },
        Some(_) => {
            errs.push(String::from_str("`appenders` must be a table"));
            None
        },
    }
}

fn read_logger(v: Value, errs: &mut Vec<String>) -> (r: Option<RawLogger>)
    ensures
        r is Some <==> logger_ok(v),
        r matches Some(l) ==> logger_read(v, l),
        reported(old(errs)@, final(errs)@, logger_ok(v)),
{
    match v {
        Value::Table(t) => {
            let ghost entries = t.entries@;
            let mut keys: Vec<String> = Vec::new();
            keys.push(String::from_str("name"));
            keys.push(String::from_str("level"));
            keys.push(String::from_str("appenders"));
            keys.push(String::from_str("additive"));
            proof {
                reveal_strlit("name");
                assert("name"@.len() == 4);
                reveal_strlit("level");
                assert("level"@.len() == 5);
                reveal_strlit("appenders");
                assert("appenders"@.len() == 9);
                reveal_strlit("additive");
                assert("additive"@.len() == 8);
            }
            assert(distinct_keys(keys@));
            let (mut found, _rest) = pick(t, &keys);
            assert(found@[0] == lookup(entries, "name"@));
            assert(found@[1] == lookup(entries, "level"@));
            assert(found@[2] == lookup(entries, "appenders"@));
            assert(found@[3] == lookup(entries, "additive"@));
            let name_v = found.remove(0);
            let level_v = found.remove(0);
            let names_v = found.remove(0);
            let additive_v = found.remove(0);
            let (name, context) = match name_v {
                Some(Value::String(name)) => {
                    let context = message3("logger `", &name, "`");
                    (Some(name), context)
                },
                Some(_) => {
                    errs.push(String::from_str("a logger's `name` must be a string"));
                    (None, String::from_str("logger"))
                },
                None => {
                    errs.push(String::from_str("a logger's `name` is required"));
                    (None, String::from_str("logger"))
                },
            };
            let level = read_level(level_v, &context, errs);
            let names = read_names(names_v, &context, errs);
            let additive = match additive_v {
                None => Some(None),
                Some(Value::Boolean(b)) => Some(Some(b)),
                Some(_) => {
                    errs.push(message(&context, ": `additive` must be a boolean"));
                    None
                },
            };
            match (name, level, names, additive) {
                (Some(name), Some(level), Some(appenders), Some(additive)) => Some(RawLogger { name, level, appenders, additive }),
                _ => None,
            }
        },
        _ => {
            errs.push(String::from_str("each logger must be a table"));
            None
        },
    }
}

fn read_loggers(v: Option<Value>, errs: &mut Vec<String>) -> (r: Option<Vec<RawLogger>>)
    ensures
        r is Some <==> loggers_ok(v),
        r matches Some(o) ==> loggers_read(v, o@),
        reported(old(errs)@, final(errs)@, loggers_ok(v)),
{
    match v {
        None => Some(Vec::new()),
        Some(Value::Array(items)) => {
            let ghost all = items@;
            let mut items = items;
            let n = items.len();
            let mut out: Vec<RawLogger> = Vec::new();
            let mut ok = true;
            let mut i: usize = 0;
            while i < n
                invariant
                    n == all.len(),
                    i <= n,
                    items@ == all.subrange(i as int, n as int),
                    ok == forall|q: int| 0 <= q < i ==> logger_ok(#[trigger] all[q]),
                    ok ==> out@.len() == i,
                    ok ==> forall|q: int| 0 <= q < i ==> logger_read(all[q], #[trigger] out@[q]),
                    reported(old(errs)@, errs@, ok),
                    loggers_ok(v) <==> (forall|q: int| 0 <= q < all.len() ==> logger_ok(#[trigger] all[q])),
                    forall|o: Seq<RawLogger>| #[trigger] loggers_read(v, o) <==> (o.len() == all.len()
                        && forall|q: int| 0 <= q < o.len() ==> logger_read(all[q], #[trigger] o[q])),
                decreases n - i,
            {
                let item = items.remove(0);
                assert(all[i as int] == item);
                match read_logger(item, errs) {
                    Some(l) => {
                        if ok {
                            out.push(l);
                        }
                    },
                    None => {
                        ok = false;
                    },
                }
                i += 1;
            }
            if ok {
                Some(out)
            } else {
                None
            }
        },
        Some(_) => {
            errs.push(String::from_str("`loggers` must be an array of tables"));
            None
        },
    }
}

/// Reads the settings of a parsed document: `refresh_rate`, `root`,
/// `appenders` and `loggers`, each optional; other top-level keys are
/// ignored. Every problem found is reported, one message each.
pub fn extract(doc: Table) -> (r: Result<RawConfig, Vec<String>>)
    ensures
        r is Ok <==> document_ok(doc),
        match r {
            Ok(raw) => extracted(doc, raw),
            Err(msgs) => msgs@.len() > 0,
        },
{
    let ghost entries = doc.entries@;
    let mut keys: Vec<String> = Vec::new();
    keys.push(String::from_str("refresh_rate"));
    keys.push(String::from_str("root"));
    keys.push(String::from_str("appenders"));
    keys.push(String::from_str("loggers"));
    proof {
        reveal_strlit("refresh_rate");
        assert("refresh_rate"@.len() == 12);
        reveal_strlit("root");
        assert("root"@.len() == 4);
        reveal_strlit("appenders");
        assert("appenders"@.len() == 9);
        reveal_strlit("loggers");
        assert("loggers"@.len() == 7);
    }
    assert(distinct_keys(keys@));
    let (mut found, _rest) = pick(doc, &keys);
    assert(found@[0] == lookup(entries, "refresh_rate"@));
    assert(found@[1] == lookup(entries, "root"@));
    assert(found@[2] == lookup(entries, "appenders"@));
    assert(found@[3] == lookup(entries, "loggers"@));
    let refresh_v = found.remove(0);
    let root_v = found.remove(0);
    let appenders_v = found.remove(0);
    let loggers_v = found.remove(0);
    let mut errs: Vec<String> = Vec::new();
    let refresh_rate = read_refresh(refresh_v, &mut errs);
    let root = read_root(root_v, &mut errs);
    let appenders = read_appenders(appenders_v, &mut errs);
    let loggers = read_loggers(loggers_v, &mut errs);
    match (refresh_rate, root, appenders, loggers) {
        (Some(refresh_rate), Some(root), Some(appenders), Some(loggers)) => Ok(RawConfig { refresh_rate, root, appenders, loggers }),
        _ => Err(errs),
    }
}

} // verus!
