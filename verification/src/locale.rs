//! Localisation: a read-mostly table from message keys to translated
//! strings. Translation files are loaded by an external collaborator; the
//! shell only looks keys up.

use vstd::prelude::*;

verus! {

/// The first translation for `key` among `entries`, if any.
pub open spec fn lookup_rec(entries: Seq<(String, String)>, key: Seq<char>) -> Option<Seq<char>>
    decreases entries.len(),
{
    if entries.len() == 0 {
        None
    } else if entries[0].0@ == key {
        Some(entries[0].1@)
    } else {
        lookup_rec(entries.drop_first(), key)
    }
}

/// The loaded locale table.
#[derive(Debug, PartialEq, Eq)]
pub struct Locale {
    pub entries: Vec<(String, String)>,
}

impl Locale {
    /// The translation of `key`, if the table holds one.
    pub open spec fn spec_lookup(self, key: Seq<char>) -> Option<Seq<char>> {
        lookup_rec(self.entries@, key)
    }

    /// What `t` returns: the translation, or the key itself where the table
    /// has none.
    pub open spec fn spec_t(self, key: Seq<char>) -> Seq<char> {
        match self.spec_lookup(key) {
            Some(v) => v,
            None => key,
        }
    }

    pub fn new(entries: Vec<(String, String)>) -> (l: Locale)
        ensures
            l.entries == entries,
    {
        Locale { entries }
    }

    /// Translates a message key; a key the table does not hold is shown as
    /// itself.
    pub fn t(&self, key: &str) -> (r: String)
        ensures
            r@ == self.spec_t(key@),
    {
        let key_owned = key.to_owned();
        let n = self.entries.len();
        let mut i: usize = 0;
        assert(self.entries@.skip(0) =~= self.entries@);
        while i < n
            invariant
                n == self.entries@.len(),
                0 <= i <= n,
                key_owned@ == key@,
                lookup_rec(self.entries@, key@) == lookup_rec(
                    self.entries@.skip(i as int),
                    key@,
                ),
            decreases n - i,
        {
            assert(self.entries@.skip(i as int)[0] == self.entries@[i as int]);
            if self.entries[i].0 == key_owned {
                return self.entries[i].1.clone();
            }
            assert(self.entries@.skip(i as int).drop_first() =~= self.entries@.skip(i + 1));
            i += 1;
        }
        assert(self.entries@.skip(n as int) =~= Seq::<(String, String)>::empty());
        key_owned
    }
}

impl Clone for Locale {
    fn clone(&self) -> (res: Self)
        ensures
            res.entries@ =~= self.entries@,
    {
        let mut entries: Vec<(String, String)> = Vec::new();
        let n = self.entries.len();
        let mut i: usize = 0;
        while i < n
            invariant
                n == self.entries@.len(),
                0 <= i <= n,
                entries@ =~= self.entries@.take(i as int),
            decreases n - i,
        {
            entries.push((self.entries[i].0.clone(), self.entries[i].1.clone()));
            assert(entries@ =~= self.entries@.take(i + 1 as int));
            i += 1;
        }
        assert(self.entries@.take(n as int) =~= self.entries@);
        Locale { entries }
    }
}

} // verus!
