//! The application error: a stable code, a user message, key/value details
//! and a retry hint.
use vstd::prelude::*;

use crate::text::{chars_eq_str, chars_of};

verus! {

/// Key/value details of an error. A later entry for a key overrides an
/// earlier one, as inserting into a map would.
#[derive(Debug, Clone)]
pub struct ErrorDetails {
    pub entries: Vec<(String, String)>,
}

/// The map that a list of entries stands for: later entries win.
pub open spec fn entries_map(s: Seq<(String, String)>) -> Map<Seq<char>, Seq<char>>
    decreases s.len(),
{
    if s.len() == 0 {
        Map::empty()
    } else {
        entries_map(s.drop_last()).insert(s.last().0@, s.last().1@)
    }
}

proof fn lemma_entries_map_prefix(s: Seq<(String, String)>, i: int, k: Seq<char>)
    requires
        0 <= i <= s.len(),
        forall|m: int| i <= m < s.len() ==> (#[trigger] s[m]).0@ != k,
    ensures
        entries_map(s).dom().contains(k) == entries_map(s.take(i)).dom().contains(k),
        entries_map(s)[k] == entries_map(s.take(i))[k],
    decreases s.len() - i,
{
    if i < s.len() {
        let t = s.drop_last();
        assert forall|m: int| i <= m < t.len() implies (#[trigger] t[m]).0@ != k by {
            assert(t[m] == s[m]);
        }
        lemma_entries_map_prefix(t, i, k);
        assert(t.take(i) =~= s.take(i));
        assert(s[s.len() - 1].0@ != k);
    } else {
        assert(s.take(i) =~= s);
    }
}

impl ErrorDetails {
    pub open spec fn map(&self) -> Map<Seq<char>, Seq<char>> {
        entries_map(self.entries@)
    }

    pub fn new() -> (d: Self)
        ensures
            d.map() == Map::<Seq<char>, Seq<char>>::empty(),
    {
        ErrorDetails { entries: Vec::new() }
    }

    /// An entry-by-entry copy.
    pub fn copy(&self) -> (d: Self)
        ensures
            d.entries@ == self.entries@,
            d.map() == self.map(),
    {
        let mut entries: Vec<(String, String)> = Vec::new();
        let mut i: usize = 0;
        while i < self.entries.len()
            invariant
                i <= self.entries@.len(),
                entries@ == self.entries@.take(i as int),
            decreases self.entries@.len() - i,
        {
            let (k, v) = &self.entries[i];
            entries.push((k.clone(), v.clone()));
            assert(self.entries@.take(i + 1) =~= self.entries@.take(i as int).push(self.entries@[i as int]));
            i = i + 1;
        }
        assert(self.entries@.take(self.entries@.len() as int) =~= self.entries@);
        ErrorDetails { entries }
    }

    /// The value recorded for `key`, if any.
    pub fn get(&self, key: &str) -> (r: Option<&String>)
        ensures
            r is Some == self.map().dom().contains(key@),
            r matches Some(v) ==> v@ == self.map()[key@],
    {
        let mut i: usize = self.entries.len();
        while i > 0
            invariant
                i <= self.entries@.len(),
                forall|m: int| i <= m < self.entries@.len() ==> (#[trigger] self.entries@[m]).0@
                    != key@,
            decreases i,
        {
            let k = chars_of(self.entries[i - 1].0.as_str());
            if chars_eq_str(k.as_slice(), key) {
                proof {
                    let s = self.entries@;
                    lemma_entries_map_prefix(s, i as int, key@);
                    assert(s.take(i as int).drop_last() =~= s.take(i - 1));
                    assert(s.take(i as int).last() == s[i - 1]);
                }
                return Some(&self.entries[i - 1].1);
            }
            i = i - 1;
        }
        proof {
            lemma_entries_map_prefix(self.entries@, 0, key@);
        }
        None
    }

    /// Records `value` for `key`.
    pub fn insert(&mut self, key: &str, value: &str)
        ensures
            final(self).map() == old(self).map().insert(key@, value@),
    {
        let k = key.to_owned();
        let v = value.to_owned();
        self.entries.push((k, v));
        proof {
            let s = self.entries@;
            assert(s.drop_last() =~= old(self).entries@);
        }
    }
}

/// An error returned by the services.
#[derive(Debug, Clone)]
pub struct AppError {
    pub code: String,
    pub message: String,
    pub details: Option<ErrorDetails>,
    /// Whether retrying may help; absent when the error does not say.
    pub retryable: Option<bool>,
}

pub type AppResult<T> = Result<T, AppError>;

impl AppError {
    /// All details of the error, as a map.
    pub open spec fn detail_map(&self) -> Map<Seq<char>, Seq<char>> {
        match self.details {
            Some(d) => d.map(),
            None => Map::empty(),
        }
    }

    /// Whether the error carries `value` under `key`.
    pub open spec fn has_detail(&self, key: Seq<char>, value: Seq<char>) -> bool {
        self.detail_map().dom().contains(key) && self.detail_map()[key] == value
    }

    pub fn new(code: &str, message: &str) -> (e: Self)
        ensures
            e.code@ == code@,
            e.message@ == message@,
            e.detail_map() == Map::<Seq<char>, Seq<char>>::empty(),
            e.retryable is None,
    {
        AppError { code: code.to_owned(), message: message.to_owned(), details: None, retryable: None }
    }

    /// An input validation error (code `VALIDATION_ERROR`).
    pub fn validation(message: &str) -> (e: Self)
        ensures
            e.code@ == "VALIDATION_ERROR"@,
            e.message@ == message@,
            e.detail_map() == Map::<Seq<char>, Seq<char>>::empty(),
            e.retryable is None,
    {
        Self::new("VALIDATION_ERROR", message)
    }

    /// The same error with `value` recorded under `key`.
    pub fn with_detail(self, key: &str, value: &str) -> (e: Self)
        ensures
            e.code == self.code,
            e.message == self.message,
            e.retryable == self.retryable,
            e.detail_map() == self.detail_map().insert(key@, value@),
    {
        let mut details = match self.details {
            Some(d) => d,
            None => ErrorDetails::new(),
        };
        details.insert(key, value);
        AppError { code: self.code, message: self.message, details: Some(details), retryable: self.retryable }
    }

    /// The same error with the retry hint set to `retryable`.
    pub fn retryable(self, retryable: bool) -> (e: Self)
        ensures
            e.code == self.code,
            e.message == self.message,
            e.details == self.details,
            e.retryable == Some(retryable),
    {
        AppError { retryable: Some(retryable), ..self }
    }
}


/// The detail keys used across the services are pairwise distinct.
pub proof fn lemma_detail_keys_distinct()
    ensures
        "field"@ != "shortcut"@,
        "field"@ != "reason"@,
        "shortcut"@ != "reason"@,
        "field"@ != "slot"@,
        "field"@ != "count"@,
        "slot"@ != "count"@,
        "field"@ != "id"@,
        "rollbackFailure"@ != "stateConsistency"@,
        "field"@ != "allowed"@,
        "field"@ != "command"@,
        "command"@ != "reason"@,
{
    reveal_strlit("field");
    reveal_strlit("shortcut");
    reveal_strlit("reason");
    reveal_strlit("slot");
    reveal_strlit("count");
    reveal_strlit("id");
    reveal_strlit("rollbackFailure");
    reveal_strlit("stateConsistency");
    reveal_strlit("allowed");
    reveal_strlit("command");
    assert("field"@.len() == 5);
    assert("shortcut"@.len() == 8);
    assert("reason"@.len() == 6);
    assert("slot"@.len() == 4);
    assert("count"@.len() == 5);
    assert("id"@.len() == 2);
    assert("allowed"@.len() == 7);
    assert("command"@.len() == 7);
    assert("field"@[0] == 'f');
    assert("count"@[0] == 'c');
    assert("rollbackFailure"@.len() == 15);
    assert("stateConsistency"@.len() == 16);
}

/// How an operation run off the main thread with a time limit ended: it
/// finished with its own result, its task ended abnormally (with the
/// reason), or the time ran out.
pub enum TaskOutcome<T> {
    Finished(AppResult<T>),
    Aborted(String),
    TimedOut,
}

} // verus!
