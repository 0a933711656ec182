//! The arguments of a tool call, as plain values.
//!
//! A model's function call carries a JSON object. The library reads from it
//! only top-level fields that are strings, booleans or unsigned integers, plus
//! the compact JSON text of the whole value (shown for unknown tools); the
//! application converts the parsed JSON into this form.

use vstd::prelude::*;
use crate::text::{chars_of, seq_eq};

verus! {

/// One argument value, as far as the library reads it.
#[derive(Clone, Debug)]
pub enum ArgValue {
    Str(String),
    Bool(bool),
    UInt(u64),
    Other,
}

/// One `key: value` field of the argument object.
#[derive(Clone, Debug)]
pub struct ToolArg {
    pub key: String,
    pub value: ArgValue,
}

/// The arguments of a tool call.
#[derive(Clone, Debug)]
pub struct ToolArgs {
    /// The fields of the argument object, in order (empty when it is no object).
    pub entries: Vec<ToolArg>,
    /// The compact JSON text of the whole argument value.
    pub json: String,
}

/// The value of the first field named `key`, if any (JSON object lookup).
pub open spec fn lookup(es: Seq<ToolArg>, key: Seq<char>) -> Option<ArgValue>
    decreases es.len(),
{
    if es.len() == 0 {
        None
    } else if es[0].key@ == key {
        Some(es[0].value)
    } else {
        lookup(es.drop_first(), key)
    }
}

/// The string field `key`, or the empty string when it is absent or no string.
pub open spec fn str_arg(args: ToolArgs, key: Seq<char>) -> Seq<char> {
    match lookup(args.entries@, key) {
        Some(ArgValue::Str(s)) => s@,
        _ => Seq::empty(),
    }
}

/// The string field `key`, when present and a string.
pub open spec fn opt_str_arg(args: ToolArgs, key: Seq<char>) -> Option<Seq<char>> {
    match lookup(args.entries@, key) {
        Some(ArgValue::Str(s)) => Some(s@),
        _ => None,
    }
}

/// The boolean field `key`, or `default`.
pub open spec fn bool_arg(args: ToolArgs, key: Seq<char>, default: bool) -> bool {
    match lookup(args.entries@, key) {
        Some(ArgValue::Bool(b)) => b,
        _ => default,
    }
}

/// The unsigned integer field `key`, or `default`.
pub open spec fn u64_arg(args: ToolArgs, key: Seq<char>, default: u64) -> u64 {
    match lookup(args.entries@, key) {
        Some(ArgValue::UInt(n)) => n,
        _ => default,
    }
}

proof fn lemma_lookup_skip(es: Seq<ToolArg>, key: Seq<char>, i: int)
    requires
        0 <= i <= es.len(),
        forall|k: int| 0 <= k < i ==> (#[trigger] es[k]).key@ != key,
    ensures
        lookup(es, key) == lookup(es.skip(i), key),
    decreases i,
{
    if i == 0 {
        assert(es.skip(0) =~= es);
    } else {
        assert(es[0].key@ != key);
        assert forall|k: int| 0 <= k < i - 1 implies (#[trigger] es.drop_first()[k]).key@
            != key by {
            assert(es.drop_first()[k] == es[k + 1]);
        }
        lemma_lookup_skip(es.drop_first(), key, i - 1);
        assert(es.drop_first().skip(i - 1) =~= es.skip(i));
    }
}

impl ToolArgs {
    /// Position of the first field named `key`.
    fn position(&self, key: &str) -> (r: Option<usize>)
        ensures
            r is None ==> lookup(self.entries@, key@) is None,
            r matches Some(i) ==> i < self.entries@.len() && lookup(self.entries@, key@) == Some(
                self.entries@[i as int].value,
            ),
    {
        let kv = chars_of(key);
        let mut i: usize = 0;
        while i < self.entries.len()
            invariant
                i <= self.entries@.len(),
                kv@ == key@,
                forall|k: int| 0 <= k < i ==> (#[trigger] self.entries@[k]).key@ != key@,
            decreases self.entries@.len() - i,
        {
            let kc = chars_of(self.entries[i].key.as_str());
            if seq_eq(&kc, &kv) {
                proof {
                    lemma_lookup_skip(self.entries@, key@, i as int);
                }
                return Some(i);
            }
            i += 1;
        }
        proof {
            lemma_lookup_skip(self.entries@, key@, i as int);
        }
        None
    }

    /// The string field `key`, when present and a string (`get(key).and_then(as_str)`).
    pub fn opt_str(&self, key: &str) -> (r: Option<String>)
        ensures
            r matches Some(s) ==> opt_str_arg(*self, key@) == Some(s@),
            r is None ==> opt_str_arg(*self, key@) is None,
    {
        match self.position(key) {
            Some(i) => match &self.entries[i].value {
                ArgValue::Str(s) => Some(s.clone()),
                _ => None,
            },
            None => None,
        }
    }

    /// The string field `key`, or `""` (`get(key).and_then(as_str).unwrap_or("")`).
    pub fn str_or_empty(&self, key: &str) -> (r: String)
        ensures
            r@ == str_arg(*self, key@),
    {
        match self.opt_str(key) {
            Some(s) => s,
            None => String::new(),
        }
    }

    /// The boolean field `key`, or `default`.
    pub fn bool_or(&self, key: &str, default: bool) -> (r: bool)
        ensures
            r == bool_arg(*self, key@, default),
    {
        match self.position(key) {
            Some(i) => match &self.entries[i].value {
                ArgValue::Bool(b) => *b,
                _ => default,
            },
            None => default,
        }
    }

    /// The unsigned integer field `key`, or `default`.
    pub fn u64_or(&self, key: &str, default: u64) -> (r: u64)
        ensures
            r == u64_arg(*self, key@, default),
    {
        match self.position(key) {
            Some(i) => match &self.entries[i].value {
                ArgValue::UInt(n) => *n,
                _ => default,
            },
            None => default,
        }
    }
}

} // verus!
