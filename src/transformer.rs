use vstd::prelude::*;

use crate::column::{Column, ColumnModel};
use crate::statement::views_of;

verus! {

/// A substitution rule for the values of one column of one table.
pub trait Transformer {
    /// The key of the column this rule applies to, `"<table>.<column>"`.
    /// A rule whose key is not stated has the empty key.
    open spec fn key(&self) -> Seq<char> {
        Seq::empty()
    }

    /// What the rule may turn a value into. A relation rather than a
    /// function, so that a rule may draw its replacement at random. A rule
    /// that does not state it may turn a value into anything of that name.
    open spec fn transforms_to(&self, before: ColumnModel, after: ColumnModel) -> bool {
        after.name() == before.name()
    }

    fn table_and_column_name(&self) -> (r: String)
        ensures
            r@ == self.key(),
    ;

    /// The replacement for a column value; it keeps the column's name.
    fn transform(&self, column: Column) -> (r: Column)
        ensures
            r@.name() == column@.name(),
            self.transforms_to(column@, r@),
    ;
}

/// The keys of a list of rules, by position.
pub open spec fn keys_of<T: Transformer>(transformers: Seq<T>) -> Seq<Seq<char>> {
    transformers.map_values(|t: T| t.key())
}

/// The rule that leaves every value as it is, and applies to no column.
pub struct NoTransformer;

impl Transformer for NoTransformer {
    open spec fn key(&self) -> Seq<char> {
        Seq::empty()
    }

    open spec fn transforms_to(&self, before: ColumnModel, after: ColumnModel) -> bool {
        before == after
    }

    fn table_and_column_name(&self) -> (r: String)
        ensures
            r@ == self.key(),
    {
        String::new()
    }

    fn transform(&self, column: Column) -> (r: Column)
        ensures
            r@ == column@,
    {
        column
    }
}

/// The registry key of a column: table name, a period, column name.
pub open spec fn registry_key(table: Seq<char>, column: Seq<char>) -> Seq<char> {
    table + seq!['.'] + column
}

/// The position of the last key equal to `k`, so that a later rule for a key
/// replaces an earlier one.
pub open spec fn last_index_of(keys: Seq<Seq<char>>, k: Seq<char>) -> Option<int>
    decreases keys.len(),
{
    if keys.len() == 0 {
        None
    } else if keys.last() == k {
        Some(keys.len() - 1)
    } else {
        last_index_of(keys.drop_last(), k)
    }
}

/// The rule that applies to a key is the last one listed with that key, and
/// where no rule is listed with the key, none applies.
pub proof fn last_rule_applies<T: Transformer>(transformers: Seq<T>, k: Seq<char>)
    ensures
        match last_index_of(keys_of(transformers), k) {
            Some(j) => {
                &&& 0 <= j < transformers.len()
                &&& transformers[j].key() == k
                &&& forall|m: int| j < m < transformers.len() ==> #[trigger] transformers[m].key() != k
            },
            None => forall|m: int| 0 <= m < transformers.len() ==> #[trigger] transformers[m].key() != k,
        },
{
    lemma_last_index_of(keys_of(transformers), k);
    let keys = keys_of(transformers);
    assert forall|m: int| 0 <= m < transformers.len() implies #[trigger] transformers[m].key()
        == keys[m] by {}
}

proof fn lemma_last_index_of(keys: Seq<Seq<char>>, k: Seq<char>)
    ensures
        match last_index_of(keys, k) {
            Some(j) => {
                &&& 0 <= j < keys.len()
                &&& keys[j] == k
                &&& forall|m: int| j < m < keys.len() ==> #[trigger] keys[m] != k
            },
            None => forall|m: int| 0 <= m < keys.len() ==> #[trigger] keys[m] != k,
        },
    decreases keys.len(),
{
    if keys.len() > 0 && keys.last() != k {
        lemma_last_index_of(keys.drop_last(), k);
        assert forall|m: int| 0 <= m < keys.len() - 1 implies #[trigger] keys[m]
            == keys.drop_last()[m] by {}
    }
}

pub fn table_and_column_key(table: &String, column: &String) -> (r: String)
    ensures
        r@ == registry_key(table@, column@),
{
    let mut key = table.clone();
    key.append(".");
    key.append(column.as_str());
    proof {
        reveal_strlit(".");
    }
    key
}

/// The keys of a list of rules, by position in the list.
pub struct TransformerRegistry {
    keys: Vec<String>,
}

impl TransformerRegistry {
    pub closed spec fn keys(&self) -> Seq<Seq<char>> {
        views_of(self.keys@)
    }

    pub fn from_keys(keys: Vec<String>) -> (r: Self)
        ensures
            r.keys() == views_of(keys@),
    {
        TransformerRegistry { keys }
    }

    /// Reads the key of every rule, in order.
    pub fn build<T: Transformer>(transformers: &Vec<T>) -> (r: Self)
        ensures
            r.keys() == keys_of(transformers@),
    {
        let mut keys: Vec<String> = Vec::new();
        let mut i: usize = 0;
        while i < transformers.len()
            invariant
                i <= transformers@.len(),
                views_of(keys@) == keys_of(transformers@.take(i as int)),
            decreases transformers@.len() - i,
        {
            let key = transformers[i].table_and_column_name();
            assert(views_of(keys@.push(key)) =~= views_of(keys@) + seq![key@]);
            assert(keys_of(transformers@.take(i + 1)) =~= keys_of(transformers@.take(i as int))
                + seq![transformers@[i as int].key()]);
            keys.push(key);
            i = i + 1;
        }
        assert(transformers@.take(i as int) =~= transformers@);
        TransformerRegistry { keys }
    }

    /// Whether two rules share a key, so that one of them would never apply.
    pub fn has_duplicate_keys(&self) -> (r: bool)
        ensures
            r == exists|i: int, j: int|
                0 <= i < j < self.keys().len() && #[trigger] self.keys()[i]
                    == #[trigger] self.keys()[j],
    {
        let mut j: usize = 0;
        while j < self.keys.len()
            invariant
                j <= self.keys@.len(),
                forall|a: int, b: int|
                    0 <= a < b < j ==> #[trigger] self.keys()[a] != #[trigger] self.keys()[b],
            decreases self.keys@.len() - j,
        {
            let mut i: usize = 0;
            while i < j
                invariant
                    i <= j < self.keys@.len(),
                    forall|a: int, b: int|
                        0 <= a < b < j ==> #[trigger] self.keys()[a] != #[trigger] self.keys()[b],
                    forall|a: int| 0 <= a < i ==> #[trigger] self.keys()[a] != self.keys()[j as int],
                decreases j - i,
            {
                if self.keys[i] == self.keys[j] {
                    assert(self.keys()[i as int] == self.keys()[j as int]);
                    return true;
                }
                i = i + 1;
            }
            j = j + 1;
        }
        false
    }

    /// The position of the rule responsible for `key`: the last one declared
    /// for it.
    pub fn lookup(&self, key: &String) -> (r: Option<usize>)
        ensures
            r matches Some(j) ==> last_index_of(self.keys(), key@) == Some(j as int),
            r is None ==> last_index_of(self.keys(), key@) is None,
            r matches Some(j) ==> j < self.keys().len(),
    {
        let mut i: usize = self.keys.len();
        assert(self.keys().take(i as int) =~= self.keys());
        while i > 0
            invariant
                i <= self.keys@.len(),
                last_index_of(self.keys(), key@) == last_index_of(self.keys().take(i as int), key@),
            decreases i,
        {
            let ghost prefix = self.keys().take(i as int);
            assert(prefix.drop_last() =~= self.keys().take(i - 1));
            if self.keys[i - 1] == *key {
                return Some(i - 1);
            }
            i = i - 1;
        }
        None
    }
}

} // verus!
