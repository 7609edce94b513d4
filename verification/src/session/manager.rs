//! The registry of sessions: one session per guild, and for every user the
//! guilds in which they own the session.
use vstd::prelude::*;

use std::collections::HashMap;
use vstd::std_specs::iter::IteratorSpec;

verus! {

broadcast use vstd::std_specs::hash::group_hash_axioms;

/// The sessions by guild id, and the guilds owned by each user id.
///
/// `H` is the handle through which a session is reached.
pub struct SessionManager<H> {
    sessions: HashMap<u64, H>,
    owners: HashMap<u64, Vec<u64>>,
}

/// The registry as maps: sessions by guild, and owned guilds by user.
pub struct ManagerView<H> {
    pub sessions: Map<u64, H>,
    pub owners: Map<u64, Seq<u64>>,
}

/// `s` without any occurrence of `g`, order kept.
pub open spec fn without(s: Seq<u64>, g: u64) -> Seq<u64>
    decreases s.len(),
{
    if s.len() == 0 {
        seq![]
    } else if s.last() == g {
        without(s.drop_last(), g)
    } else {
        without(s.drop_last(), g).push(s.last())
    }
}

/// No user is recorded with an empty list of guilds.
pub open spec fn owners_wf(owners: Map<u64, Seq<u64>>) -> bool {
    forall|u: u64| #[trigger] owners.contains_key(u) ==> owners[u].len() > 0
}

/// The guilds owned by `owner` (none when the user is not recorded).
pub open spec fn owned_guilds(owners: Map<u64, Seq<u64>>, owner: u64) -> Seq<u64> {
    if owners.contains_key(owner) {
        owners[owner]
    } else {
        seq![]
    }
}

/// Ownership after `owner` is granted the session of `guild`.
pub open spec fn spec_assign_owner(owners: Map<u64, Seq<u64>>, guild: u64, owner: u64) -> Map<u64, Seq<u64>> {
    owners.insert(owner, owned_guilds(owners, owner).push(guild))
}

/// A user's guild list with `guild` taken out; the user is dropped when no guild
/// remains.
pub open spec fn drop_guild_of(owners: Map<u64, Seq<u64>>, guild: u64, owner: u64) -> Map<u64, Seq<u64>> {
    if owners.contains_key(owner) {
        if without(owners[owner], guild).len() == 0 {
            owners.remove(owner)
        } else {
            owners.insert(owner, without(owners[owner], guild))
        }
    } else {
        owners
    }
}

/// Ownership after `owner` gives up the session of `guild`.
pub open spec fn spec_remove_owner(owners: Map<u64, Seq<u64>>, guild: u64, owner: u64) -> Map<u64, Seq<u64>> {
    drop_guild_of(owners, guild, owner)
}

/// Ownership after the session of `guild` ends: no user owns it any more, and
/// users left without guilds are dropped.
pub open spec fn spec_remove_guild(owners: Map<u64, Seq<u64>>, guild: u64) -> Map<u64, Seq<u64>> {
    Map::new(
        |u: u64| owners.contains_key(u) && without(owners[u], guild).len() > 0,
        |u: u64| without(owners[u], guild),
    )
}

impl<H> View for SessionManager<H> {
    type V = ManagerView<H>;

    closed spec fn view(&self) -> ManagerView<H> {
        ManagerView {
            sessions: self.sessions@,
            owners: self.owners@.map_values(|v: Vec<u64>| v@),
        }
    }
}

proof fn lemma_without_len(s: Seq<u64>, g: u64)
    ensures
        without(s, g).len() <= s.len(),
        forall|i: int| 0 <= i < without(s, g).len() ==> without(s, g)[i] != g,
    decreases s.len(),
{
    if s.len() > 0 {
        lemma_without_len(s.drop_last(), g);
    }
}

/// `v` with every `g` taken out.
fn remove_all(v: &Vec<u64>, g: u64) -> (r: Vec<u64>)
    ensures
        r@ == without(v@, g),
{
    let mut r: Vec<u64> = Vec::new();
    for i in 0..v.len()
        invariant
            r@ == without(v@.take(i as int), g),
    {
        proof {
            assert(v@.take(i + 1).drop_last() =~= v@.take(i as int));
        }
        if v[i] != g {
            r.push(v[i]);
        }
    }
    proof {
        assert(v@.take(v@.len() as int) =~= v@);
    }
    r
}

impl<H> SessionManager<H> {
    /// Whether no user is recorded without guilds.
    pub closed spec fn wf(&self) -> bool {
        owners_wf(self@.owners)
    }

    /// An empty registry.
    pub fn new() -> (r: Self)
        ensures
            r.wf(),
            r@.sessions == Map::<u64, H>::empty(),
            r@.owners == Map::<u64, Seq<u64>>::empty(),
    {
        let r = SessionManager { sessions: HashMap::new(), owners: HashMap::new() };
        proof {
            assert(r@.owners =~= Map::<u64, Seq<u64>>::empty());
        }
        r
    }

    /// The session of a guild, if there is one.
    pub fn get_session(&self, guild_id: u64) -> (r: Option<&H>)
        ensures
            match r {
                Some(h) => self@.sessions.contains_key(guild_id) && *h == self@.sessions[guild_id],
                None => !self@.sessions.contains_key(guild_id),
            },
    {
        self.sessions.get(&guild_id)
    }

    /// Records the session of a guild, replacing any earlier one.
    pub fn insert_session(&mut self, guild_id: u64, handle: H)
        requires
            old(self).wf(),
        ensures
            final(self).wf(),
            final(self)@.sessions == old(self)@.sessions.insert(guild_id, handle),
            final(self)@.owners == old(self)@.owners,
    {
        self.sessions.insert(guild_id, handle);
    }

    /// The guilds in which a user owns the session (none when the user owns none).
    pub fn get_owner_guilds(&self, owner_id: u64) -> (r: Vec<u64>)
        ensures
            r@ == owned_guilds(self@.owners, owner_id),
    {
        match self.owners.get(&owner_id) {
            Some(guilds) => guilds.clone(),
            None => Vec::new(),
        }
    }

    /// Takes away a user's ownership of a guild's session.
    pub fn remove_owner(&mut self, guild_id: u64, owner_id: u64)
        requires
            old(self).wf(),
        ensures
            final(self).wf(),
            final(self)@.owners == spec_remove_owner(old(self)@.owners, guild_id, owner_id),
            final(self)@.sessions == old(self)@.sessions,
    {
        let ghost before = self@.owners;
        match self.owners.remove(&owner_id) {
            Some(guilds) => {
                let kept = remove_all(&guilds, guild_id);
                if kept.len() > 0 {
                    self.owners.insert(owner_id, kept);
                }
                proof {
                    assert(self@.owners =~= spec_remove_owner(before, guild_id, owner_id));
                }
            },
            None => {
                proof {
                    assert(self@.owners =~= before);
                }
            },
        }
    }

    /// Grants a user ownership of a guild's session.
    pub fn assign_owner(&mut self, guild_id: u64, owner_id: u64)
        requires
            old(self).wf(),
        ensures
            final(self).wf(),
            final(self)@.owners == spec_assign_owner(old(self)@.owners, guild_id, owner_id),
            final(self)@.sessions == old(self)@.sessions,
    {
        let ghost before = self@.owners;
        let mut guilds = match self.owners.remove(&owner_id) {
            Some(guilds) => guilds,
            None => Vec::new(),
        };
        guilds.push(guild_id);
        self.owners.insert(owner_id, guilds);
        proof {
            assert(self@.owners =~= spec_assign_owner(before, guild_id, owner_id));
        }
    }

    /// Removes the session of a guild, and everyone's ownership of it.
    pub fn remove_session(&mut self, guild_id: u64)
        requires
            old(self).wf(),
        ensures
            final(self).wf(),
            final(self)@.sessions == old(self)@.sessions.remove(guild_id),
            final(self)@.owners == spec_remove_guild(old(self)@.owners, guild_id),
    {
        self.sessions.remove(&guild_id);
        let ghost sessions_after = self@.sessions;
        let ghost before = self@.owners;
        let mut users: Vec<u64> = Vec::new();
        for u in it: self.owners.keys()
            invariant
                users@ == it.seq().take(it.index()).unref(),
                it.seq().unref().no_duplicates(),
                it.seq().unref().to_set() == self.owners@.dom(),
                it.index() == it.seq().len() ==> users@.no_duplicates() && users@.to_set() == self.owners@.dom(),
                self@.sessions == sessions_after,
                self@.owners == before,
        {
            users.push(*u);
            proof {
                assert(users@ =~= it.seq().take(it.index() + 1).unref());
                assert(it.index() + 1 == it.seq().len() ==> users@ =~= it.seq().unref());
            }
        }
        let ghost keys = users@;
        let mut i: usize = 0;
        while i < users.len()
            invariant
                users@ == keys,
                self@.sessions == sessions_after,
                keys.no_duplicates(),
                keys.to_set() == before.dom(),
                i <= keys.len(),
                forall|u: u64| #[trigger] self@.owners.contains_key(u) <==> (before.contains_key(u) && (keys.take(i as int).contains(u) ==> without(before[u], guild_id).len() > 0)),
                forall|u: u64| #[trigger] self@.owners.contains_key(u) ==> self@.owners[u] == if keys.take(i as int).contains(u) {
                    without(before[u], guild_id)
                } else {
                    before[u]
                },
            decreases keys.len() - i,
        {
            let u = users[i];
            proof {
                assert(keys.to_set().contains(u));
                let t0 = keys.take(i as int);
                assert(!t0.contains(u)) by {
                    if t0.contains(u) {
                        let j = choose|j: int| 0 <= j < t0.len() && t0[j] == u;
                        assert(keys[j] == keys[i as int]);
                    }
                }
            }
            let ghost prev = self@.owners;
            match self.owners.remove(&u) {
                Some(guilds) => {
                    proof {
                        assert(self@.owners =~= prev.remove(u));
                        assert(guilds@ == prev[u]);
                    }
                    let kept = remove_all(&guilds, guild_id);
                    if kept.len() > 0 {
                        self.owners.insert(u, kept);
                        proof {
                            assert(self@.owners =~= prev.insert(u, without(prev[u], guild_id)));
                        }
                    }
                },
                None => {
                    proof {
                        assert(self@.owners =~= prev);
                    }
                },
            }
            proof {
                let t1 = keys.take(i + 1);
                let t0 = keys.take(i as int);
                assert forall|w: u64| t1.contains(w) <==> (t0.contains(w) || w == u) by {
                    if t1.contains(w) {
                        let j = choose|j: int| 0 <= j < t1.len() && t1[j] == w;
                        if j < i {
                            assert(t0[j] == w);
                        }
                    }
                    if t0.contains(w) {
                        let j = choose|j: int| 0 <= j < t0.len() && t0[j] == w;
                        assert(t1[j] == w);
                    }
                    if w == u {
                        assert(t1[i as int] == w);
                    }
                }
                assert(prev.contains_key(u));
                assert(prev[u] == before[u]);
                assert forall|w: u64| #[trigger] self@.owners.contains_key(w) <==> (before.contains_key(w) && (t1.contains(w) ==> without(before[w], guild_id).len() > 0)) by {
                    if w != u {
                        assert(self@.owners.contains_key(w) == prev.contains_key(w));
                        assert(prev.contains_key(w) <==> (before.contains_key(w) && (t0.contains(w) ==> without(before[w], guild_id).len() > 0)));
                    }
                }
            }
            i = i + 1;
        }
        proof {
            assert(keys.take(keys.len() as int) =~= keys);
            assert forall|u: u64| before.contains_key(u) implies keys.contains(u) by {
                assert(keys.to_set().contains(u));
            }
            assert(self@.owners =~= spec_remove_guild(before, guild_id));
            assert forall|u: u64| #[trigger] self@.owners.contains_key(u) implies self@.owners[u].len() > 0 by {
            }
        }
    }

    /// All sessions, in no particular order.
    pub fn get_all_sessions(&self) -> (r: Vec<&H>)
        ensures
            r@.len() == self@.sessions.dom().len(),
            r@.unref().to_set() == self@.sessions.values(),
    {
        let mut r: Vec<&H> = Vec::new();
        for h in it: self.sessions.values()
            invariant
                r@ == it.seq().take(it.index()),
                it.seq().len() == self@.sessions.dom().len(),
                it.seq().unref().to_set() == self@.sessions.values(),
                it.index() == it.seq().len() ==> r@.len() == self@.sessions.dom().len() && r@.unref().to_set() == self@.sessions.values(),
        {
            r.push(h);
            proof {
                assert(r@ =~= it.seq().take(it.index() + 1));
                assert(it.index() + 1 == it.seq().len() ==> r@.unref() =~= it.seq().unref());
            }
        }
        r
    }

    /// Forgets all sessions and all ownership.
    pub fn clear(&mut self)
        ensures
            final(self).wf(),
            final(self)@.sessions == Map::<u64, H>::empty(),
            final(self)@.owners == Map::<u64, Seq<u64>>::empty(),
    {
        self.sessions.clear();
        self.owners.clear();
        proof {
            assert(self@.owners =~= Map::<u64, Seq<u64>>::empty());
        }
    }
}

/// After a user is granted a guild's session, that guild is among theirs.
pub proof fn lemma_assign_then_owned(owners: Map<u64, Seq<u64>>, guild: u64, owner: u64)
    ensures
        owned_guilds(spec_assign_owner(owners, guild, owner), owner).contains(guild),
        forall|u: u64| u != owner ==> owned_guilds(spec_assign_owner(owners, guild, owner), u) == owned_guilds(owners, u),
{
    let l = owned_guilds(owners, owner).push(guild);
    assert(l[l.len() - 1] == guild);
}

/// After a user gives up a guild's session, that guild is no longer theirs, and
/// nobody else's guilds change.
pub proof fn lemma_remove_owner_forgets(owners: Map<u64, Seq<u64>>, guild: u64, owner: u64)
    ensures
        !owned_guilds(spec_remove_owner(owners, guild, owner), owner).contains(guild),
        forall|u: u64| u != owner ==> owned_guilds(spec_remove_owner(owners, guild, owner), u) == owned_guilds(owners, u),
{
    if owners.contains_key(owner) {
        lemma_without_len(owners[owner], guild);
    }
}

/// After a guild's session ends, nobody owns that guild.
pub proof fn lemma_remove_guild_forgets(owners: Map<u64, Seq<u64>>, guild: u64, user: u64)
    ensures
        !owned_guilds(spec_remove_guild(owners, guild), user).contains(guild),
{
    if owners.contains_key(user) {
        lemma_without_len(owners[user], guild);
    }
}


/// Handing a session over: after the old owner gives it up and the new owner is
/// granted it, the new owner owns the guild, the old owner (if another user) no
/// longer does, and no user is left without guilds.
pub proof fn lemma_handover(owners: Map<u64, Seq<u64>>, guild: u64, old_owner: u64, new_owner: u64)
    requires
        owners_wf(owners),
    ensures
        owned_guilds(spec_assign_owner(spec_remove_owner(owners, guild, old_owner), guild, new_owner), new_owner).contains(guild),
        old_owner != new_owner ==> !owned_guilds(
            spec_assign_owner(spec_remove_owner(owners, guild, old_owner), guild, new_owner),
            old_owner,
        ).contains(guild),
        owners_wf(spec_assign_owner(spec_remove_owner(owners, guild, old_owner), guild, new_owner)),
{
    let removed = spec_remove_owner(owners, guild, old_owner);
    lemma_remove_owner_forgets(owners, guild, old_owner);
    lemma_assign_then_owned(removed, guild, new_owner);
    lemma_remove_owner_wf(owners, guild, old_owner);
    lemma_assign_owner_wf(removed, guild, new_owner);
}

/// Giving up a guild never leaves a user recorded without guilds.
pub proof fn lemma_remove_owner_wf(owners: Map<u64, Seq<u64>>, guild: u64, owner: u64)
    requires
        owners_wf(owners),
    ensures
        owners_wf(spec_remove_owner(owners, guild, owner)),
{
}

/// Being granted a guild never leaves a user recorded without guilds.
pub proof fn lemma_assign_owner_wf(owners: Map<u64, Seq<u64>>, guild: u64, owner: u64)
    requires
        owners_wf(owners),
    ensures
        owners_wf(spec_assign_owner(owners, guild, owner)),
{
}
} // verus!
