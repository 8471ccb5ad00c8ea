//! The restriction store: one deduplicated set of restricted identities per
//! chat, modelled as a sequence of (source id, login) pairs in stored order.

use vstd::prelude::*;
use std::collections::HashMap;
use crate::text::str_eq;

verus! {

broadcast use vstd::std_specs::hash::group_hash_axioms;

/// One restricted external source: the numeric id of the chat or channel and
/// the human-readable handle kept for display.
#[derive(Debug, PartialEq, Eq)]
pub struct RestrictedIdentity {
    pub source_id: i64,
    pub login: String,
}

impl RestrictedIdentity {
    /// A fresh identity holding the same id and the same login characters.
    pub fn duplicate(&self) -> (r: Self)
        ensures
            ident_model(r) == ident_model(*self),
    {
        RestrictedIdentity { source_id: self.source_id, login: self.login.clone() }
    }
}

/// The mathematical picture of one identity: the pair of its id and the
/// characters of its login.
pub open spec fn ident_model(r: RestrictedIdentity) -> (i64, Seq<char>) {
    (r.source_id, r.login@)
}

/// The picture of a whole stored set, in stored order.
pub open spec fn idents_model(s: Seq<RestrictedIdentity>) -> Seq<(i64, Seq<char>)> {
    s.map_values(|r: RestrictedIdentity| ident_model(r))
}

/// Whether the set holds this exact (id, login) pair.
pub open spec fn contains_pair(s: Seq<(i64, Seq<char>)>, id: i64, login: Seq<char>) -> bool {
    exists|j: int| 0 <= j < s.len() && s[j] == (id, login)
}

/// Whether some entry of the set carries this source id, under any login.
pub open spec fn contains_source(s: Seq<(i64, Seq<char>)>, id: i64) -> bool {
    exists|j: int| 0 <= j < s.len() && s[j].0 == id
}

/// Value-based set add: appended only when the exact pair is absent.
pub open spec fn add_pair(s: Seq<(i64, Seq<char>)>, id: i64, login: Seq<char>) -> Seq<
    (i64, Seq<char>),
> {
    if contains_pair(s, id, login) {
        s
    } else {
        s.push((id, login))
    }
}

/// The set with every entry carrying this login removed, order of the rest kept.
pub open spec fn without_login(s: Seq<(i64, Seq<char>)>, login: Seq<char>) -> Seq<
    (i64, Seq<char>),
>
    decreases s.len(),
{
    if s.len() == 0 {
        s
    } else {
        let rest = without_login(s.drop_last(), login);
        if s.last().1 == login {
            rest
        } else {
            rest.push(s.last())
        }
    }
}

/// The logins of the set, in stored order.
pub open spec fn logins_of(s: Seq<(i64, Seq<char>)>) -> Seq<Seq<char>> {
    s.map_values(|p: (i64, Seq<char>)| p.1)
}

/// How many entries of a listing are exactly this login.
pub open spec fn login_count(logins: Seq<Seq<char>>, login: Seq<char>) -> nat
    decreases logins.len(),
{
    if logins.len() == 0 {
        0
    } else {
        login_count(logins.drop_last(), login) + if logins.last() == login {
            1nat
        } else {
            0nat
        }
    }
}

/// Per-chat restriction sets, keyed by chat id. A chat without a record and a
/// chat with an empty record present the same face to every query.
pub struct RestrictionStore {
    records: HashMap<i64, Vec<RestrictedIdentity>>,
}

impl RestrictionStore {
    /// The restriction set of one chat; empty when the chat has no record.
    pub closed spec fn chat_model(self, chat: i64) -> Seq<(i64, Seq<char>)> {
        if self.records@.contains_key(chat) {
            idents_model(self.records@[chat]@)
        } else {
            Seq::empty()
        }
    }

    /// Whether the chat has a stored record at all (not observable through
    /// queries: a present-but-empty record answers like an absent one).
    pub closed spec fn has_record(self, chat: i64) -> bool {
        self.records@.contains_key(chat)
    }

    pub fn new() -> (s: Self)
        ensures
            forall|c: i64| #[trigger] s.chat_model(c) == Seq::<(i64, Seq<char>)>::empty(),
            forall|c: i64| !(#[trigger] s.has_record(c)),
    {
        RestrictionStore { records: HashMap::new() }
    }

    /// True iff some identity of the chat's set carries this source id.
    pub fn is_chat_restricted(&self, chat_id: i64, id: i64) -> (r: bool)
        ensures
            r == contains_source(self.chat_model(chat_id), id),
    {
        match self.records.get(&chat_id) {
            Some(v) => idents_contain_source(v, id),
            None => false,
        }
    }

    /// The logins of the chat's set, in stored order; empty when the chat has
    /// no record.
    pub fn restriction_list(&self, chat_id: i64) -> (r: Vec<String>)
        ensures
            r@.map_values(|s: String| s@) == logins_of(self.chat_model(chat_id)),
    {
        match self.records.get(&chat_id) {
            Some(v) => {
                let mut out: Vec<String> = Vec::new();
                let mut i: usize = 0;
                while i < v.len()
                    invariant
                        i <= v@.len(),
                        out@.len() == i,
                        forall|j: int| 0 <= j < i ==> #[trigger] out@[j]@ == v@[j].login@,
                    decreases v@.len() - i,
                {
                    out.push(v[i].login.clone());
                    i += 1;
                }
                proof {
                    assert(out@.map_values(|s: String| s@) =~= logins_of(idents_model(v@)));
                }
                out
            },
            None => Vec::new(),
        }
    }

    /// The chat's full set of identities, in stored order.
    pub fn chat_entries(&self, chat_id: i64) -> (r: Vec<RestrictedIdentity>)
        ensures
            idents_model(r@) == self.chat_model(chat_id),
    {
        match self.records.get(&chat_id) {
            Some(v) => {
                let mut out: Vec<RestrictedIdentity> = Vec::new();
                let mut i: usize = 0;
                while i < v.len()
                    invariant
                        i <= v@.len(),
                        out@.len() == i,
                        forall|j: int|
                            0 <= j < i ==> #[trigger] ident_model(out@[j]) == ident_model(v@[j]),
                    decreases v@.len() - i,
                {
                    out.push(v[i].duplicate());
                    i += 1;
                }
                proof {
                    assert(idents_model(out@) =~= idents_model(v@));
                }
                out
            },
            None => Vec::new(),
        }
    }

    /// Value-based set add with upsert: the pair joins the chat's set unless
    /// the exact (id, login) pair is already there; a chat record appears on
    /// first add.
    pub fn add_to_restrictions(&mut self, chat_id: i64, user_id: i64, login: &str)
        ensures
            final(self).chat_model(chat_id) == add_pair(
                old(self).chat_model(chat_id),
                user_id,
                login@,
            ),
            forall|c: i64|
                c != chat_id ==> #[trigger] final(self).chat_model(c) == old(self).chat_model(c),
            final(self).has_record(chat_id),
            forall|c: i64|
                c != chat_id ==> #[trigger] final(self).has_record(c) == old(self).has_record(c),
    {
        let mut set: Vec<RestrictedIdentity> = match self.records.remove(&chat_id) {
            Some(v) => v,
            None => Vec::new(),
        };
        let found = idents_contain_pair(&set, user_id, login);
        if !found {
            set.push(RestrictedIdentity { source_id: user_id, login: login.to_owned() });
            proof {
                assert(idents_model(set@) =~= add_pair(
                    old(self).chat_model(chat_id),
                    user_id,
                    login@,
                ));
            }
        }
        self.records.insert(chat_id, set);
    }

    /// Removes every identity of the chat's set whose login matches, whatever
    /// its id; a no-op when nothing matches or the chat has no record.
    pub fn remove_from_restrictions(&mut self, chat_id: i64, login: &str)
        ensures
            final(self).chat_model(chat_id) == without_login(
                old(self).chat_model(chat_id),
                login@,
            ),
            forall|c: i64|
                c != chat_id ==> #[trigger] final(self).chat_model(c) == old(self).chat_model(c),
            final(self).has_record(chat_id) == old(self).has_record(chat_id),
            forall|c: i64|
                c != chat_id ==> #[trigger] final(self).has_record(c) == old(self).has_record(c),
    {
        match self.records.remove(&chat_id) {
            Some(v) => {
                let filtered = retain_without_login(v, login);
                self.records.insert(chat_id, filtered);
            },
            None => {},
        }
    }
}

/// Linear scan for an exact (id, login) pair over one chat's identities.
fn idents_contain_pair(v: &Vec<RestrictedIdentity>, id: i64, login: &str) -> (r: bool)
    ensures
        r == contains_pair(idents_model(v@), id, login@),
{
    let mut i: usize = 0;
    while i < v.len()
        invariant
            i <= v@.len(),
            forall|j: int| 0 <= j < i ==> #[trigger] idents_model(v@)[j] != (id, login@),
        decreases v@.len() - i,
    {
        if v[i].source_id == id && str_eq(v[i].login.as_str(), login) {
            assert(idents_model(v@)[i as int] == (id, login@));
            return true;
        }
        assert(idents_model(v@)[i as int] != (id, login@));
        i += 1;
    }
    false
}

/// Keeps, in order, exactly the identities whose login differs.
fn retain_without_login(v: Vec<RestrictedIdentity>, login: &str) -> (r: Vec<RestrictedIdentity>)
    ensures
        idents_model(r@) == without_login(idents_model(v@), login@),
{
    let mut out: Vec<RestrictedIdentity> = Vec::new();
    let mut i: usize = 0;
    while i < v.len()
        invariant
            i <= v@.len(),
            idents_model(out@) == without_login(idents_model(v@.take(i as int)), login@),
        decreases v@.len() - i,
    {
        proof {
            assert(v@.take(i + 1 as int).drop_last() =~= v@.take(i as int));
            assert(idents_model(v@.take(i + 1 as int)).drop_last() =~= idents_model(
                v@.take(i as int),
            ));
        }
        if !str_eq(v[i].login.as_str(), login) {
            out.push(v[i].duplicate());
            proof {
                assert(idents_model(out@) =~= without_login(
                    idents_model(v@.take(i + 1 as int)),
                    login@,
                ));
            }
        } else {
            proof {
                assert(idents_model(v@.take(i + 1 as int)).last().1 == login@);
            }
        }
        i += 1;
    }
    proof {
        assert(v@.take(v@.len() as int) =~= v@);
    }
    out
}

/// Linear scan for a source id over one chat's stored identities.
fn idents_contain_source(v: &Vec<RestrictedIdentity>, id: i64) -> (r: bool)
    ensures
        r == contains_source(idents_model(v@), id),
{
    let mut i: usize = 0;
    while i < v.len()
        invariant
            i <= v@.len(),
            forall|j: int| 0 <= j < i ==> v@[j].source_id != id,
        decreases v@.len() - i,
    {
        if v[i].source_id == id {
            assert(idents_model(v@)[i as int].0 == id);
            return true;
        }
        i += 1;
    }
    assert(forall|j: int| 0 <= j < idents_model(v@).len() ==> idents_model(v@)[j].0 != id);
    false
}

/// A chat with no stored record answers every query empty: it lists no login
/// and restricts no source.
pub proof fn lemma_no_record_empty(s: RestrictionStore, chat: i64, id: i64)
    requires
        !s.has_record(chat),
    ensures
        s.chat_model(chat) == Seq::<(i64, Seq<char>)>::empty(),
        logins_of(s.chat_model(chat)) == Seq::<Seq<char>>::empty(),
        !contains_source(s.chat_model(chat), id),
{
    assert(logins_of(s.chat_model(chat)) =~= Seq::<Seq<char>>::empty());
}

/// Once an identity is added, its source id is restricted.
pub proof fn lemma_added_source_restricted(s: Seq<(i64, Seq<char>)>, id: i64, login: Seq<char>)
    ensures
        contains_source(add_pair(s, id, login), id),
{
    if contains_pair(s, id, login) {
        let j = choose|j: int| 0 <= j < s.len() && s[j] == (id, login);
        assert(add_pair(s, id, login)[j].0 == id);
    } else {
        assert(add_pair(s, id, login)[s.len() as int].0 == id);
    }
}

/// Adding the same (id, login) pair a second time changes nothing, so the
/// set's cardinality stays as it was.
pub proof fn lemma_add_idempotent(s: Seq<(i64, Seq<char>)>, id: i64, login: Seq<char>)
    ensures
        add_pair(add_pair(s, id, login), id, login) == add_pair(s, id, login),
        add_pair(add_pair(s, id, login), id, login).len() == add_pair(s, id, login).len(),
{
    let once = add_pair(s, id, login);
    if contains_pair(s, id, login) {
        assert(contains_pair(once, id, login));
    } else {
        assert(once[s.len() as int] == (id, login));
        assert(contains_pair(once, id, login));
    }
}

/// Removing a login removes every entry carrying it, keeps every entry with
/// another login, and is a no-op when no entry matches.
pub proof fn lemma_remove_by_login(s: Seq<(i64, Seq<char>)>, login: Seq<char>)
    ensures
        forall|j: int|
            0 <= j < without_login(s, login).len() ==> (#[trigger] without_login(s, login)[j]).1
                != login,
        forall|j: int|
            0 <= j < s.len() && (#[trigger] s[j]).1 != login ==> without_login(s, login).contains(
                s[j],
            ),
        (forall|j: int| 0 <= j < s.len() ==> (#[trigger] s[j]).1 != login) ==> without_login(
            s,
            login,
        ) == s,
    decreases s.len(),
{
    if s.len() > 0 {
        lemma_remove_by_login(s.drop_last(), login);
        let rest = without_login(s.drop_last(), login);
        if s.last().1 != login {
            assert forall|j: int|
                0 <= j < s.len() && (#[trigger] s[j]).1 != login implies without_login(
                s,
                login,
            ).contains(s[j]) by {
                if j < s.len() - 1 {
                    assert(s.drop_last()[j] == s[j]);
                    let k = choose|k: int| 0 <= k < rest.len() && rest[k] == s[j];
                    assert(rest.push(s.last())[k] == s[j]);
                } else {
                    assert(rest.push(s.last())[rest.len() as int] == s[j]);
                }
            }
            if forall|j: int| 0 <= j < s.len() ==> (#[trigger] s[j]).1 != login {
                assert(forall|j: int|
                    0 <= j < s.drop_last().len() ==> (#[trigger] s.drop_last()[j]).1 != login);
                assert(rest.push(s.last()) =~= s);
            }
        } else {
            assert forall|j: int|
                0 <= j < s.len() && (#[trigger] s[j]).1 != login implies without_login(
                s,
                login,
            ).contains(s[j]) by {
                assert(s.drop_last()[j] == s[j]);
            }
        }
    }
}

/// In a set whose listing counts a login zero times, no entry carries it.
proof fn lemma_count_zero_not_carried(s: Seq<(i64, Seq<char>)>, login: Seq<char>)
    requires
        login_count(logins_of(s), login) == 0,
    ensures
        forall|j: int| 0 <= j < s.len() ==> (#[trigger] s[j]).1 != login,
    decreases s.len(),
{
    if s.len() > 0 {
        assert(logins_of(s).drop_last() =~= logins_of(s.drop_last()));
        assert(logins_of(s).last() == s.last().1);
        lemma_count_zero_not_carried(s.drop_last(), login);
        assert forall|j: int| 0 <= j < s.len() implies (#[trigger] s[j]).1 != login by {
            if j < s.len() - 1 {
                assert(s.drop_last()[j] == s[j]);
            }
        }
    }
}

/// Round trip: a login absent from a chat's set is listed exactly once after
/// an identity carrying it is added.
pub proof fn lemma_add_lists_login_once(s: Seq<(i64, Seq<char>)>, id: i64, login: Seq<char>)
    requires
        login_count(logins_of(s), login) == 0,
    ensures
        login_count(logins_of(add_pair(s, id, login)), login) == 1,
{
    lemma_count_zero_not_carried(s, login);
    assert(!contains_pair(s, id, login));
    let grown = s.push((id, login));
    assert(logins_of(grown).drop_last() =~= logins_of(s));
    assert(logins_of(grown).last() == login);
}

} // verus!
