//! Funding balances by sub-account name: at most one entry for a name, and
//! the entries in the order in which their names first came.

use crate::schemas::GetBalanceResponseDataDetails;
use crate::schemas::OkxResponseSchema;
use crate::text::str_eq;
use vstd::prelude::*;

verus! {

/// What the exchange answers when asked for a funding balance.
pub type FundingBalance = OkxResponseSchema<GetBalanceResponseDataDetails>;

/// Names with their balances, in order.
pub type Entries = Seq<(Seq<char>, FundingBalance)>;

/// No name stands twice.
pub open spec fn names_distinct(entries: Entries) -> bool {
    forall|i: int, j: int| 0 <= i < j < entries.len() ==> entries[i].0 != entries[j].0
}

/// Whether there is an entry for `name`.
pub open spec fn has_name(entries: Entries, name: Seq<char>) -> bool {
    exists|i: int| 0 <= i < entries.len() && #[trigger] entries[i].0 == name
}

/// Where the entry for `name` stands, if there is one.
pub open spec fn index_of(entries: Entries, name: Seq<char>) -> int {
    choose|i: int| 0 <= i < entries.len() && #[trigger] entries[i].0 == name
}

/// The balance under `name`.
pub open spec fn balance_of(entries: Entries, name: Seq<char>) -> Option<FundingBalance> {
    if has_name(entries, name) {
        Some(entries[index_of(entries, name)].1)
    } else {
        None
    }
}

/// `entries` with `balance` under `name`: in the place of the balance that
/// stood under that name, or else at the end.
pub open spec fn with_balance(
    entries: Entries,
    name: Seq<char>,
    balance: FundingBalance,
) -> Entries {
    if has_name(entries, name) {
        entries.update(index_of(entries, name), (name, balance))
    } else {
        entries.push((name, balance))
    }
}

/// Putting a balance under a name keeps the names distinct, and the balance
/// is then found under that name.
pub proof fn lemma_with_balance(entries: Entries, name: Seq<char>, balance: FundingBalance)
    requires
        names_distinct(entries),
    ensures
        names_distinct(with_balance(entries, name, balance)),
        balance_of(with_balance(entries, name, balance), name) == Some(balance),
        with_balance(entries, name, balance).len() == if has_name(entries, name) {
            entries.len()
        } else {
            entries.len() + 1
        },
        forall|other: Seq<char>|
            other != name ==> balance_of(with_balance(entries, name, balance), other)
                == #[trigger] balance_of(entries, other),
{
    let after = with_balance(entries, name, balance);
    let at = if has_name(entries, name) {
        index_of(entries, name)
    } else {
        entries.len() as int
    };
    assert(after[at] == (name, balance));
    assert(after.len() > at >= 0);
    assert forall|k: int| 0 <= k < after.len() && k != at implies after[k] == entries[k]
        && after[k].0 != name by {
        if has_name(entries, name) {
            assert(entries[at].0 == name);
        }
    }
    assert(has_name(after, name)) by {
        assert(after[at].0 == name);
    }
    assert(index_of(after, name) == at);
    assert forall|other: Seq<char>| other != name implies balance_of(after, other)
        == #[trigger] balance_of(entries, other) by {
        if has_name(entries, other) {
            let i = index_of(entries, other);
            assert(i != at);
            assert(after[i].0 == other);
            assert(has_name(after, other));
            let j = index_of(after, other);
            assert(j != at);
            assert(j == i);
        } else {
            if has_name(after, other) {
                let j = index_of(after, other);
                assert(j != at);
                assert(entries[j].0 == other);
            }
        }
    }
}

/// Funding balances of sub-accounts, by name.
#[derive(Debug)]
pub struct SubAccountBalances {
    entries: Vec<(String, FundingBalance)>,
}

/// The entries with their names as text.
pub open spec fn named(entries: Seq<(String, FundingBalance)>) -> Entries {
    entries.map_values(|e: (String, FundingBalance)| (e.0@, e.1))
}

impl View for SubAccountBalances {
    type V = Entries;

    closed spec fn view(&self) -> Entries {
        named(self.entries@)
    }
}

impl SubAccountBalances {
    #[verifier::type_invariant]
    closed spec fn names_are_distinct(self) -> bool {
        names_distinct(self@)
    }

    /// No balances.
    pub fn new() -> (balances: Self)
        ensures
            balances@ == Entries::empty(),
    {
        Self { entries: Vec::new() }
    }

    /// The number of sub-accounts with a balance.
    pub fn len(&self) -> (n: usize)
        ensures
            n == self@.len(),
            names_distinct(self@),
    {
        proof {
            use_type_invariant(self);
        }
        self.entries.len()
    }

    /// Where the entry for `name` stands.
    fn position(&self, name: &str) -> (at: Option<usize>)
        ensures
            names_distinct(self@),
            match at {
                Some(i) => has_name(self@, name@) && i == index_of(self@, name@) && i < self@.len(),
                None => !has_name(self@, name@),
            },
    {
        proof {
            use_type_invariant(self);
        }
        let mut i: usize = 0;
        while i < self.entries.len()
            invariant
                i <= self.entries@.len(),
                self@.len() == self.entries@.len(),
                names_distinct(self@),
                forall|k: int| 0 <= k < i ==> self@[k].0 != name@,
            decreases self.entries@.len() - i,
        {
            if str_eq(self.entries[i].0.as_str(), name) {
                assert(self@[i as int].0 == name@);
                return Some(i);
            }
            i += 1;
        }
        None
    }

    /// These balances with `balance` under `name`, in the place of what
    /// stood under that name before.
    pub fn insert(self, name: String, balance: FundingBalance) -> (after: Self)
        ensures
            after@ == with_balance(self@, name@, balance),
            names_distinct(after@),
    {
        proof {
            use_type_invariant(&self);
            lemma_with_balance(self@, name@, balance);
        }
        let at = self.position(name.as_str());
        let mut entries = self.entries;
        match at {
            Some(i) => {
                entries.set(i, (name, balance));
            },
            None => {
                entries.push((name, balance));
            },
        }
        assert(named(entries@) =~= with_balance(self@, name@, balance));
        Self { entries }
    }

    /// The balance under `name`.
    pub fn get(&self, name: &str) -> (balance: Option<&FundingBalance>)
        ensures
            match balance {
                Some(b) => balance_of(self@, name@) == Some(*b),
                None => balance_of(self@, name@) is None,
            },
    {
        match self.position(name) {
            Some(i) => Some(&self.entries[i].1),
            None => None,
        }
    }

    /// The `i`-th name and its balance, in the order in which the names
    /// first came.
    pub fn entry(&self, i: usize) -> (entry: Option<(&str, &FundingBalance)>)
        ensures
            names_distinct(self@),
            match entry {
                Some((name, balance)) => i < self@.len() && self@[i as int] == (name@, *balance),
                None => i >= self@.len(),
            },
    {
        proof {
            use_type_invariant(self);
        }
        if i < self.entries.len() {
            Some((self.entries[i].0.as_str(), &self.entries[i].1))
        } else {
            None
        }
    }
}

} // verus!
