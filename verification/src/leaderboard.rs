//! The leaderboard: a list of (identity, cumulative score) entries, at most
//! one per identity. A score update adds to the identity's entry or inserts a
//! fresh one; entry order carries no meaning and no sorting is performed.

use vstd::prelude::*;
use crate::UserId;

verus! {

/// One leaderboard entry: an identity and its accumulated score.
#[derive(Clone, Copy, Debug, PartialEq, Eq)]
pub struct LeaderboardEntry {
    pub user_id: UserId,
    pub score: u64,
}

/// No identity appears in more than one entry.
pub open spec fn unique_identities(entries: Seq<LeaderboardEntry>) -> bool {
    forall|i: int, j: int|
        0 <= i < j < entries.len() ==> entries[i].user_id != entries[j].user_id
}

/// Whether the identity has an entry.
pub open spec fn has_entry(entries: Seq<LeaderboardEntry>, user: UserId) -> bool {
    exists|i: int| 0 <= i < entries.len() && entries[i].user_id == user
}

/// The position of the identity's entry; meaningful only where one exists and
/// identities are unique.
pub open spec fn entry_index(entries: Seq<LeaderboardEntry>, user: UserId) -> int {
    choose|i: int| 0 <= i < entries.len() && entries[i].user_id == user
}

/// The identity's accumulated score, if it has an entry.
pub open spec fn score_of(entries: Seq<LeaderboardEntry>, user: UserId) -> Option<u64> {
    if has_entry(entries, user) {
        Some(entries[entry_index(entries, user)].score)
    } else {
        None
    }
}

/// The score one update leaves behind: the delta lands on the existing score,
/// saturating rather than overflowing, or becomes the score of a fresh entry.
pub open spec fn bumped_score(prev: Option<u64>, delta: u64) -> u64 {
    match prev {
        Some(score) => score.saturating_add(delta),
        None => delta,
    }
}

/// In a board with unique identities, position `i` is exactly where its
/// identity's score is read from.
proof fn lemma_score_at(entries: Seq<LeaderboardEntry>, i: int)
    requires
        unique_identities(entries),
        0 <= i < entries.len(),
    ensures
        has_entry(entries, entries[i].user_id),
        entry_index(entries, entries[i].user_id) == i,
        score_of(entries, entries[i].user_id) == Some(entries[i].score),
{
    let user = entries[i].user_id;
    assert(has_entry(entries, user));
    let k = entry_index(entries, user);
    assert(0 <= k < entries.len() && entries[k].user_id == user);
    if k != i {
        if k < i {
            assert(entries[k].user_id != entries[i].user_id);
        } else {
            assert(entries[i].user_id != entries[k].user_id);
        }
    }
}

/// The unordered, uniquely-keyed score list.
pub struct Leaderboard {
    entries: Vec<LeaderboardEntry>,
}

impl View for Leaderboard {
    type V = Seq<LeaderboardEntry>;

    closed spec fn view(&self) -> Seq<LeaderboardEntry> {
        self.entries@
    }
}

impl Leaderboard {
    #[verifier::type_invariant]
    spec fn inv(self) -> bool {
        unique_identities(self.entries@)
    }

    /// An empty leaderboard.
    pub fn new() -> (l: Self)
        ensures
            l@ == Seq::<LeaderboardEntry>::empty(),
    {
        Leaderboard { entries: Vec::new() }
    }

    /// Adds `delta` to the identity's score, saturating rather than
    /// overflowing, or inserts a fresh entry carrying `delta`; always
    /// succeeds. The identity keeps exactly one entry, every other score is
    /// untouched, and the lookup is a linear scan of the list.
    pub fn update_score(&mut self, user: UserId, delta: u64)
        ensures
            unique_identities(final(self)@),
            score_of(final(self)@, user) == Some(bumped_score(score_of(old(self)@, user), delta)),
            forall|u: UserId| u != user ==> score_of(final(self)@, u) == score_of(old(self)@, u),
            final(self)@.len() == (if has_entry(old(self)@, user) {
                old(self)@.len()
            } else {
                old(self)@.len() + 1
            }),
    {
        proof {
            use_type_invariant(&*self);
        }
        let mut entries: Vec<LeaderboardEntry> = Vec::new();
        std::mem::swap(&mut entries, &mut self.entries);
        let ghost pre = entries@;
        let n = entries.len();
        let mut i: usize = 0;
        while i < n && entries[i].user_id != user
            invariant
                i <= n,
                n == entries@.len(),
                entries@ == pre,
                forall|j: int| 0 <= j < i ==> entries@[j].user_id != user,
            decreases n - i,
        {
            i += 1;
        }
        if i < n {
            let updated = entries[i].score.saturating_add(delta);
            entries[i] = LeaderboardEntry { user_id: user, score: updated };
            proof {
                assert(entries@ == pre.update(i as int, (LeaderboardEntry {
                    user_id: user,
                    score: updated,
                })));
                assert forall|i2: int, j2: int|
                    0 <= i2 < j2 < entries@.len() implies entries@[i2].user_id
                    != entries@[j2].user_id by {
                    assert(entries@[i2].user_id == pre[i2].user_id);
                    assert(entries@[j2].user_id == pre[j2].user_id);
                }
                lemma_score_at(pre, i as int);
                lemma_score_at(entries@, i as int);
                assert forall|u: UserId| u != user implies score_of(entries@, u) == score_of(
                    pre,
                    u,
                ) by {
                    lemma_frame_after_update(pre, entries@, i as int, u);
                }
            }
        } else {
            entries.push(LeaderboardEntry { user_id: user, score: delta });
            proof {
                assert(forall|j: int| 0 <= j < pre.len() ==> pre[j].user_id != user);
                lemma_score_at(entries@, pre.len() as int);
                assert(!has_entry(pre, user));
                assert forall|u: UserId| u != user implies score_of(entries@, u) == score_of(
                    pre,
                    u,
                ) by {
                    lemma_frame_after_push(pre, entries@, u);
                }
            }
        }
        self.entries = entries;
    }

    /// A copy of every entry, in the list's current internal order, which is
    /// not sorted by score; identities stay unique in the copy.
    pub fn snapshot(&self) -> (r: Vec<LeaderboardEntry>)
        ensures
            r@ == self@,
            unique_identities(r@),
    {
        proof {
            use_type_invariant(&*self);
        }
        let n = self.entries.len();
        let mut copy: Vec<LeaderboardEntry> = Vec::new();
        let mut i: usize = 0;
        while i < n
            invariant
                i <= n,
                n == self.entries@.len(),
                copy@ == self.entries@.subrange(0, i as int),
            decreases n - i,
        {
            copy.push(self.entries[i]);
            i += 1;
            proof {
                assert(copy@ =~= self.entries@.subrange(0, i as int));
            }
        }
        proof {
            assert(copy@ =~= self.entries@);
        }
        copy
    }
}

/// Updating one position's score leaves every other identity's score exactly
/// where it was.
proof fn lemma_frame_after_update(
    pre: Seq<LeaderboardEntry>,
    post: Seq<LeaderboardEntry>,
    i: int,
    u: UserId,
)
    requires
        unique_identities(pre),
        unique_identities(post),
        0 <= i < pre.len(),
        post.len() == pre.len(),
        forall|j: int| 0 <= j < pre.len() && j != i ==> post[j] == pre[j],
        post[i].user_id == pre[i].user_id,
        u != pre[i].user_id,
    ensures
        score_of(post, u) == score_of(pre, u),
{
    if has_entry(pre, u) {
        let k = entry_index(pre, u);
        assert(0 <= k < pre.len() && pre[k].user_id == u);
        assert(k != i);
        lemma_score_at(pre, k);
        lemma_score_at(post, k);
    } else {
        assert(forall|j: int| 0 <= j < post.len() ==> post[j].user_id != u);
        assert(!has_entry(post, u));
    }
}

/// Appending an entry for one identity leaves every other identity's score
/// exactly where it was.
proof fn lemma_frame_after_push(
    pre: Seq<LeaderboardEntry>,
    post: Seq<LeaderboardEntry>,
    u: UserId,
)
    requires
        unique_identities(pre),
        unique_identities(post),
        post.len() == pre.len() + 1,
        forall|j: int| 0 <= j < pre.len() ==> post[j] == pre[j],
        u != post[pre.len() as int].user_id,
    ensures
        score_of(post, u) == score_of(pre, u),
{
    if has_entry(pre, u) {
        let k = entry_index(pre, u);
        assert(0 <= k < pre.len() && pre[k].user_id == u);
        lemma_score_at(pre, k);
        lemma_score_at(post, k);
    } else {
        assert(forall|j: int| 0 <= j < post.len() ==> post[j].user_id != u);
        assert(!has_entry(post, u));
    }
}

/// Law: on a board with unique identities — and every board this module
/// builds is one — an identity never holds two entries: any two positions
/// carrying the same identity are the same position.
pub proof fn lemma_at_most_one_entry(
    entries: Seq<LeaderboardEntry>,
    i: int,
    j: int,
)
    requires
        unique_identities(entries),
        0 <= i < entries.len(),
        0 <= j < entries.len(),
        entries[i].user_id == entries[j].user_id,
    ensures
        i == j,
{
    if i < j {
        assert(entries[i].user_id != entries[j].user_id);
    }
    if j < i {
        assert(entries[j].user_id != entries[i].user_id);
    }
}

/// Law: serialized score updates are never lost. `trace` observes an
/// identity's score between consecutive `update_score` calls of one point
/// each, starting before any entry exists: each step is exactly what one call
/// leaves behind, so after `n` of them the score is exactly `n`.
pub proof fn lemma_no_lost_updates(trace: Seq<Option<u64>>, n: nat)
    requires
        trace.len() == n + 1,
        trace[0] is None,
        n <= u64::MAX,
        forall|k: int|
            0 <= k < n ==> trace[k + 1] == Some(bumped_score(#[trigger] trace[k], 1)),
    ensures
        trace[n as int] == (if n == 0 {
            None::<u64>
        } else {
            Some(n as u64)
        }),
    decreases n,
{
    if n > 0 {
        let prefix = trace.take(n as int);
        assert(prefix[0] == trace[0]);
        assert forall|k: int| 0 <= k < n - 1 implies prefix[k + 1] == Some(
            bumped_score(#[trigger] prefix[k], 1),
        ) by {
            assert(prefix[k] == trace[k]);
            assert(prefix[k + 1] == trace[k + 1]);
        }
        lemma_no_lost_updates(prefix, (n - 1) as nat);
        assert(trace[n - 1] == prefix[n - 1]);
        assert(trace[n as int] == Some(bumped_score(trace[n - 1], 1)));
    }
}

} // verus!
