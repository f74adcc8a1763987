//! The issues fetched last, kept in memory.

use crate::bridge::Issue;
use crate::text::str_eq;
use vstd::prelude::*;

verus! {

/// The issues fetched last, in the order in which they came.
#[derive(Debug)]
pub struct IssueStore {
    issues: Vec<Issue>,
}

/// Position of the first issue at or after `from` whose key is `key`, or the
/// number of issues where there is none.
pub open spec fn issue_index_from(issues: Seq<Issue>, key: Seq<char>, from: int) -> int
    decreases issues.len() - from,
{
    if 0 <= from < issues.len() {
        if issues[from].key@ == key {
            from
        } else {
            issue_index_from(issues, key, from + 1)
        }
    } else {
        issues.len() as int
    }
}

impl IssueStore {
    /// The issues held.
    pub closed spec fn issues(self) -> Seq<Issue> {
        self.issues@
    }

    /// A store that holds nothing.
    pub fn new() -> (store: Self)
        ensures
            store.issues() == Seq::<Issue>::empty(),
    {
        IssueStore { issues: Vec::new() }
    }

    /// Replaces what is held.
    pub fn set(&mut self, items: Vec<Issue>)
        ensures
            final(self).issues() == items@,
    {
        self.issues = items;
    }

    /// What is held.
    pub fn snapshot(&self) -> (issues: &Vec<Issue>)
        ensures
            issues@ == self.issues(),
    {
        &self.issues
    }

    /// The first issue with the given key.
    pub fn find(&self, key: &str) -> (found: Option<&Issue>)
        ensures
            match found {
                Some(issue) => issue_index_from(self.issues(), key@, 0) < self.issues().len()
                    && *issue == self.issues()[issue_index_from(self.issues(), key@, 0)]
                    && issue.key@ == key@,
                None => issue_index_from(self.issues(), key@, 0) == self.issues().len(),
            },
    {
        let mut i: usize = 0;
        while i < self.issues.len()
            invariant
                i <= self.issues.len(),
                issue_index_from(self.issues@, key@, 0) == issue_index_from(
                    self.issues@,
                    key@,
                    i as int,
                ),
            decreases self.issues.len() - i,
        {
            if str_eq(self.issues[i].key.as_str(), key) {
                return Some(&self.issues[i]);
            }
            i += 1;
        }
        None
    }
}

} // verus!
