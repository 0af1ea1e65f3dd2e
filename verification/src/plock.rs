//! The per-trig parameter-lock store. A lock is keyed by the same field and
//! enumerated-type identifiers that the kit and sound handlers use, so the
//! two can never drift apart. Each (trig, key) pair is a tri-state cell:
//! unset, or set with a value; clearing returns it to unset and is idempotent.

use vstd::prelude::*;
use vstd::pervasive::VecAdditionalExecFns;

use crate::fields::{KitEnumType, KitField, SoundEnumType, SoundField};
use crate::token::{bool01_token, num_token, Num, Token, TokenV};

verus! {

/// The key of one parameter lock: a kit or sound plain field, or a kit or
/// sound enumerated type.
#[derive(Debug, Copy, Clone, PartialEq, Eq, Structural)]
pub enum PlockKey {
    KitPlain(KitField),
    SoundPlain(SoundField),
    KitEnum(KitEnumType),
    SoundEnum(SoundEnumType),
}

/// The value a parameter lock holds.
#[derive(Debug, Clone)]
pub enum PlockVal {
    Num(Num),
    Flag(bool),
    Sym(String),
}

/// The mathematical shape of a lock value.
pub ghost enum PlockValV {
    Num(Num),
    Flag(bool),
    Sym(Seq<char>),
}

impl View for PlockVal {
    type V = PlockValV;

    open spec fn view(&self) -> PlockValV {
        match self {
            PlockVal::Num(n) => PlockValV::Num(*n),
            PlockVal::Flag(b) => PlockValV::Flag(*b),
            PlockVal::Sym(s) => PlockValV::Sym(s@),
        }
    }
}

/// The token a lock value echoes back on a read.
pub open spec fn plock_val_token(v: PlockValV) -> TokenV {
    match v {
        PlockValV::Num(n) => num_token(n),
        PlockValV::Flag(b) => bool01_token(b),
        PlockValV::Sym(s) => TokenV::Sym(s),
    }
}

/// The lock table of one trig, seen as a map from keys to values.
pub struct PlockTable {
    pub entries: Vec<(PlockKey, PlockVal)>,
}

/// The map an entry list denotes.
pub open spec fn plock_map_of(s: Seq<(PlockKey, PlockVal)>) -> Map<PlockKey, PlockValV>
    decreases s.len(),
{
    if s.len() == 0 {
        Map::empty()
    } else {
        plock_map_of(s.drop_last()).insert(s.last().0, s.last().1@)
    }
}

impl View for PlockTable {
    type V = Map<PlockKey, PlockValV>;

    open spec fn view(&self) -> Map<PlockKey, PlockValV> {
        plock_map_of(self.entries@)
    }
}

/// Entry lists never repeat a key.
pub open spec fn plock_entries_distinct(s: Seq<(PlockKey, PlockVal)>) -> bool {
    forall|i: int, j: int| 0 <= i < j < s.len() ==> s[i].0 != s[j].0
}

proof fn lemma_map_of_domain(s: Seq<(PlockKey, PlockVal)>, k: PlockKey)
    ensures
        plock_map_of(s).contains_key(k) <==> exists|i: int| 0 <= i < s.len() && s[i].0 == k,
    decreases s.len(),
{
    if s.len() > 0 {
        lemma_map_of_domain(s.drop_last(), k);
        if plock_map_of(s).contains_key(k) {
            if s.last().0 == k {
                assert(s[s.len() - 1].0 == k);
            } else {
                let i = choose|i: int| 0 <= i < s.drop_last().len() && s.drop_last()[i].0 == k;
                assert(s[i].0 == k);
            }
        }
        if exists|i: int| 0 <= i < s.len() && s[i].0 == k {
            let i = choose|i: int| 0 <= i < s.len() && s[i].0 == k;
            if i < s.len() - 1 {
                assert(s.drop_last()[i].0 == k);
            }
        }
    }
}

proof fn lemma_map_of_get(s: Seq<(PlockKey, PlockVal)>, i: int)
    requires
        plock_entries_distinct(s),
        0 <= i < s.len(),
    ensures
        plock_map_of(s).contains_key(s[i].0),
        plock_map_of(s)[s[i].0] == s[i].1@,
    decreases s.len(),
{
    lemma_map_of_domain(s, s[i].0);
    if i == s.len() - 1 {
    } else {
        assert(s.drop_last()[i] == s[i]);
        lemma_map_of_get(s.drop_last(), i);
        assert(s.last().0 != s[i].0);
    }
}

proof fn lemma_map_of_update(s: Seq<(PlockKey, PlockVal)>, i: int, v: PlockVal)
    requires
        plock_entries_distinct(s),
        0 <= i < s.len(),
    ensures
        plock_map_of(s.update(i, (s[i].0, v))) =~= plock_map_of(s).insert(s[i].0, v@),
    decreases s.len(),
{
    let k = s[i].0;
    let s2 = s.update(i, (k, v));
    if i == s.len() - 1 {
        assert(s2.drop_last() =~= s.drop_last());
        assert(s2.last() == (k, v));
    } else {
        assert(s2.drop_last() =~= s.drop_last().update(i, (k, v)));
        assert(s.drop_last()[i] == s[i]);
        lemma_map_of_update(s.drop_last(), i, v);
        assert(s2.last() == s.last());
        assert(s.last().0 != k);
        assert(plock_map_of(s2) =~= plock_map_of(s.drop_last()).insert(k, v@).insert(
            s.last().0,
            s.last().1@,
        ));
    }
}

proof fn lemma_map_of_remove(s: Seq<(PlockKey, PlockVal)>, i: int)
    requires
        plock_entries_distinct(s),
        0 <= i < s.len(),
    ensures
        plock_map_of(s.remove(i)) =~= plock_map_of(s).remove(s[i].0),
    decreases s.len(),
{
    let k = s[i].0;
    let s2 = s.remove(i);
    if i == s.len() - 1 {
        assert(s2 =~= s.drop_last());
        lemma_map_of_domain(s.drop_last(), k);
        assert(!plock_map_of(s.drop_last()).contains_key(k));
        assert(plock_map_of(s.drop_last()).remove(k) =~= plock_map_of(s.drop_last()));
    } else {
        assert(s2.drop_last() =~= s.drop_last().remove(i));
        assert(s.drop_last()[i] == s[i]);
        lemma_map_of_remove(s.drop_last(), i);
        assert(s2.last() == s.last());
        assert(s.last().0 != k);
    }
}

impl PlockTable {
    /// Entry keys are pairwise distinct.
    pub open spec fn wf(&self) -> bool {
        plock_entries_distinct(self.entries@)
    }

    /// An empty lock table: every key is unset.
    pub fn empty() -> (r: PlockTable)
        ensures
            r.wf(),
            r@ =~= Map::<PlockKey, PlockValV>::empty(),
    {
        PlockTable { entries: Vec::new() }
    }

    /// Finds the position holding the key, if any.
    fn position(&self, k: PlockKey) -> (r: Option<usize>)
        requires
            self.wf(),
        ensures
            match r {
                Some(i) => i < self.entries@.len() && self.entries@[i as int].0 == k
                    && self@.contains_key(k),
                None => !self@.contains_key(k),
            },
    {
        let n = self.entries.len();
        let mut i: usize = 0;
        while i < n
            invariant
                0 <= i <= n == self.entries@.len(),
                self.wf(),
                forall|j: int| 0 <= j < i ==> self.entries@[j].0 != k,
            decreases n - i,
        {
            if self.entries[i].0 == k {
                proof {
                    lemma_map_of_get(self.entries@, i as int);
                }
                return Some(i);
            }
            i = i + 1;
        }
        proof {
            lemma_map_of_domain(self.entries@, k);
        }
        None
    }

    /// Reads the lock under the key as the token it echoes, or reports it
    /// unset. An unset lock is a normal outcome, never an error.
    pub fn read(&self, k: PlockKey) -> (r: Option<Token>)
        requires
            self.wf(),
        ensures
            match r {
                Some(t) => self@.contains_key(k) && t@ == plock_val_token(self@[k]),
                None => !self@.contains_key(k),
            },
    {
        match self.position(k) {
            Some(i) => {
                proof {
                    lemma_map_of_get(self.entries@, i as int);
                }
                let v = &self.entries[i].1;
                Some(
                    match v {
                        PlockVal::Num(n) => crate::token::num_to_token(*n),
                        PlockVal::Flag(b) => crate::token::bool01_to_token(*b),
                        PlockVal::Sym(s) => Token::Sym(s.clone()),
                    },
                )
            },
            None => None,
        }
    }

    /// Sets the lock under the key, overwriting any earlier value.
    pub fn write(&mut self, k: PlockKey, v: PlockVal)
        requires
            old(self).wf(),
        ensures
            final(self).wf(),
            final(self)@ =~= old(self)@.insert(k, v@),
    {
        let ghost s0 = self.entries@;
        match self.position(k) {
            Some(i) => {
                proof {
                    lemma_map_of_update(s0, i as int, v);
                }
                self.entries.set(i, (k, v));
                proof {
                    assert forall|a: int, b: int|
                        0 <= a < b < self.entries@.len() implies self.entries@[a].0
                        != self.entries@[b].0 by {
                        assert(s0[a].0 != s0[b].0);
                    }
                }
            },
            None => {
                proof {
                    lemma_map_of_domain(s0, k);
                }
                self.entries.push((k, v));
                proof {
                    assert(self.entries@.drop_last() =~= s0);
                    assert forall|a: int, b: int|
                        0 <= a < b < self.entries@.len() implies self.entries@[a].0
                        != self.entries@[b].0 by {
                        if b < self.entries@.len() - 1 {
                            assert(s0[a].0 != s0[b].0);
                        } else {
                            assert(s0[a].0 != k);
                        }
                    }
                }
            },
        }
    }

    /// Clears the lock under the key; clearing an unset lock changes nothing.
    pub fn clear(&mut self, k: PlockKey)
        requires
            old(self).wf(),
        ensures
            final(self).wf(),
            final(self)@ =~= old(self)@.remove(k),
    {
        let ghost s0 = self.entries@;
        match self.position(k) {
            Some(i) => {
                proof {
                    lemma_map_of_remove(s0, i as int);
                }
                self.entries.remove(i);
                proof {
                    assert forall|a: int, b: int|
                        0 <= a < b < self.entries@.len() implies self.entries@[a].0
                        != self.entries@[b].0 by {
                        let a0 = if a < i as int {
                            a
                        } else {
                            a + 1
                        };
                        let b0 = if b < i as int {
                            b
                        } else {
                            b + 1
                        };
                        assert(self.entries@[a] == s0[a0] && self.entries@[b] == s0[b0]);
                        assert(s0[a0].0 != s0[b0].0);
                    }
                }
            },
            None => {
                proof {
                    lemma_map_of_domain(s0, k);
                    assert(final(self)@ =~= old(self)@.remove(k));
                }
            },
        }
    }
}

} // verus!
