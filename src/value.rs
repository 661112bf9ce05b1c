use vstd::prelude::*;
use vstd::string::StringExecFns;

verus! {

/// A node of a parsed configuration document.
pub enum Value {
    String(String),
    Integer(i64),
    /// A floating point number, held as the bits of its IEEE 754 binary64 form.
    Float(u64),
    Boolean(bool),
    Datetime(String),
    Array(Vec<Value>),
    Table(Table),
}

/// A table of keyed values. Where a key occurs more than once, its first
/// entry is the one that counts.
pub struct Table {
    pub entries: Vec<(String, Value)>,
}

/// The value stored under `key` in `entries` at index `i` or later.
pub open spec fn lookup_from(entries: Seq<(String, Value)>, key: Seq<char>, i: int) -> Option<Value>
    decreases entries.len() - i,
{
    if i < 0 || i >= entries.len() {
        None
    } else if entries[i].0@ == key {
        Some(entries[i].1)
    } else {
        lookup_from(entries, key, i + 1)
    }
}

/// The value stored under `key`, if any.
pub open spec fn lookup(entries: Seq<(String, Value)>, key: Seq<char>) -> Option<Value> {
    lookup_from(entries, key, 0)
}

impl Table {
    /// The empty table.
    pub fn new() -> (r: Table)
        ensures
            r.entries@.len() == 0,
    {
        Table { entries: Vec::new() }
    }

    /// Adds `value` under `key`; an earlier entry for `key` keeps precedence.
    pub fn insert(&mut self, key: String, value: Value)
        ensures
            final(self).entries@ == old(self).entries@.push((key, value)),
    {
        self.entries.push((key, value));
    }

    /// The value stored under `key`.
    pub fn get(&self, key: &str) -> (r: Option<&Value>)
        ensures
            match r {
                Some(v) => lookup(self.entries@, key@) == Some(*v),
                None => lookup(self.entries@, key@) is None,
            },
    {
        let wanted = String::from_str(key);
        let mut i: usize = 0;
        while i < self.entries.len()
            invariant
                0 <= i <= self.entries@.len(),
                wanted@ == key@,
                lookup(self.entries@, key@) == lookup_from(self.entries@, key@, i as int),
            decreases self.entries@.len() - i,
        {
            if self.entries[i].0 == wanted {
                return Some(&self.entries[i].1);
            }
            i += 1;
        }
        None
    }
}

} // verus!
