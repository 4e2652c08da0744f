use vstd::prelude::*;
use crate::accounts::{Post, Reaction};
use crate::context::{CreatePost, ReactToPost};
use crate::ledger::{dislikes_after, is_reaction, likes_after};
use crate::program::{bound_elsewhere, post_created, prior_value, reacted};

verus! {

/// Whether `calls` is a run of successful post creations, each given as its
/// accounts and arguments, starting from a freshly initialized counter and
/// each starting from the counter the previous one left.
pub open spec fn creation_run(calls: Seq<(CreatePost, String, bool, i64)>) -> bool {
    &&& calls.len() > 0 ==> calls[0].0.post_counter.count == 0
    &&& forall|i: int|
        0 <= i < calls.len() - 1 ==> #[trigger] calls[i + 1].0.post_counter == post_created(
            calls[i].0,
            calls[i].1,
            calls[i].2,
            calls[i].3,
        ).post_counter
}

/// The id issued by the `i`-th creation of a run.
pub open spec fn issued_id(calls: Seq<(CreatePost, String, bool, i64)>, i: int) -> u64 {
    post_created(calls[i].0, calls[i].1, calls[i].2, calls[i].3).post.id
}

proof fn lemma_count_before(calls: Seq<(CreatePost, String, bool, i64)>, i: int)
    requires
        creation_run(calls),
        calls.len() <= u64::MAX,
        0 <= i < calls.len(),
    ensures
        calls[i].0.post_counter.count == i,
    decreases i,
{
    if i > 0 {
        lemma_count_before(calls, i - 1);
        assert(calls[(i - 1) + 1].0.post_counter == post_created(
            calls[i - 1].0,
            calls[i - 1].1,
            calls[i - 1].2,
            calls[i - 1].3,
        ).post_counter);
    }
}

/// Post ids are allocated in sequence: the successful creations after the
/// counters are initialized issue 1, 2, 3, ... in order, so each id exceeds
/// every earlier one and none is issued twice.
pub proof fn lemma_post_ids_sequential(calls: Seq<(CreatePost, String, bool, i64)>)
    requires
        creation_run(calls),
        calls.len() <= u64::MAX,
    ensures
        forall|i: int| 0 <= i < calls.len() ==> #[trigger] issued_id(calls, i) == i + 1,
        forall|i: int, j: int|
            0 <= i < j < calls.len() ==> issued_id(calls, i) < issued_id(calls, j),
{
    assert forall|i: int| 0 <= i < calls.len() implies #[trigger] issued_id(calls, i) == i + 1 by {
        lemma_count_before(calls, i);
    }
    assert forall|i: int, j: int| 0 <= i < j < calls.len() implies issued_id(calls, i)
        < issued_id(calls, j) by {
        assert(issued_id(calls, i) == i + 1);
        assert(issued_id(calls, j) == j + 1);
    }
}

/// Repeating a reaction changes nothing: once the user's record holds
/// `reaction`, requesting it again leaves the post and the record as they are.
pub proof fn lemma_reaction_idempotent(pre: ReactToPost, reaction: i8)
    requires
        is_reaction(reaction),
        !bound_elsewhere(pre),
    ensures
        !bound_elsewhere(reacted(pre, reaction)),
        reacted(reacted(pre, reaction), reaction) == reacted(pre, reaction),
{
}

/// One reaction moves each counter by at most one in the direction the
/// table gives, never past zero or the largest count: only a like raises
/// `likes`, only a dislike raises `dislikes`, and a counter at zero that is
/// lowered stays at zero.
pub proof fn lemma_counters_saturate(likes: u64, dislikes: u64, prior: i8, reaction: i8)
    ensures
        likes - 1 <= likes_after(likes, prior, reaction) <= likes + 1,
        dislikes - 1 <= dislikes_after(dislikes, prior, reaction) <= dislikes + 1,
        reaction != 1 ==> likes_after(likes, prior, reaction) <= likes,
        reaction != -1 ==> dislikes_after(dislikes, prior, reaction) <= dislikes,
        likes == 0 && reaction != 1 ==> likes_after(likes, prior, reaction) == 0,
        dislikes == 0 && reaction != -1 ==> dislikes_after(dislikes, prior, reaction) == 0,
{
}

/// The accounts after the user requests each reaction of `rs` in turn.
pub open spec fn reacted_all(pre: ReactToPost, rs: Seq<i8>) -> ReactToPost
    decreases rs.len(),
{
    if rs.len() == 0 {
        pre
    } else {
        reacted(reacted_all(pre, rs.drop_last()), rs.last())
    }
}

/// One user's reactions, in any order, on a post nobody else has reacted
/// to: the counters always equal the user's current standing (a like counts
/// one like, a dislike one dislike), so they never fall below zero or wrap.
pub proof fn lemma_single_user_counts(pre: ReactToPost, rs: Seq<i8>)
    requires
        pre.post.likes == 0,
        pre.post.dislikes == 0,
        !pre.reaction.initialized,
        forall|i: int| 0 <= i < rs.len() ==> is_reaction(#[trigger] rs[i]),
    ensures
        !bound_elsewhere(reacted_all(pre, rs)),
        reacted_all(pre, rs).post.likes == (if prior_value(reacted_all(pre, rs).reaction) == 1 {
            1u64
        } else {
            0u64
        }),
        reacted_all(pre, rs).post.dislikes == (if prior_value(reacted_all(pre, rs).reaction)
            == -1 {
            1u64
        } else {
            0u64
        }),
        is_reaction(prior_value(reacted_all(pre, rs).reaction)),
    decreases rs.len(),
{
    if rs.len() > 0 {
        let prefix = rs.drop_last();
        assert forall|i: int| 0 <= i < prefix.len() implies is_reaction(#[trigger] prefix[i]) by {
            assert(prefix[i] == rs[i]);
        }
        lemma_single_user_counts(pre, prefix);
        assert(is_reaction(rs[rs.len() - 1]));
    }
}

/// A user's reaction record for a post is the same record on every call:
/// after one successful reaction it is bound to that post and user, so the
/// next reaction by the same user on the same post is accepted, starts from
/// the standing the first left, and keeps the record bound to the same pair.
pub proof fn lemma_reaction_record_reused(pre: ReactToPost, first: i8, second: i8)
    requires
        is_reaction(first),
        !bound_elsewhere(pre),
    ensures
        reacted(pre, first).reaction.post_id == pre.post.id,
        reacted(pre, first).reaction.user == pre.user,
        !bound_elsewhere(reacted(pre, first)),
        prior_value(reacted(pre, first).reaction) == first,
        reacted(reacted(pre, first), second).reaction.post_id == pre.post.id,
        reacted(reacted(pre, first), second).reaction.user == pre.user,
{
}

/// Number of reaction records in `records` whose standing is `v`.
pub open spec fn standing_count(records: Seq<Reaction>, v: i8) -> nat
    decreases records.len(),
{
    if records.len() == 0 {
        0
    } else {
        standing_count(records.drop_last(), v) + if prior_value(records.last()) == v {
            1nat
        } else {
            0nat
        }
    }
}

/// Whether a post's counters agree with the reaction records on it: one
/// like per record standing at 1 and one dislike per record standing at -1.
pub open spec fn counters_agree(post: Post, records: Seq<Reaction>) -> bool {
    &&& post.likes == standing_count(records, 1i8)
    &&& post.dislikes == standing_count(records, -1i8)
}

proof fn lemma_standing_count_update(records: Seq<Reaction>, k: int, x: Reaction, v: i8)
    requires
        0 <= k < records.len(),
    ensures
        standing_count(records.update(k, x), v) as int == standing_count(records, v) as int - (
        if prior_value(records[k]) == v {
            1int
        } else {
            0int
        }) + (if prior_value(x) == v {
            1int
        } else {
            0int
        }),
        standing_count(records, v) + (if prior_value(records[k]) == v {
            0nat
        } else {
            1nat
        }) <= records.len(),
        prior_value(records[k]) == v ==> standing_count(records, v) >= 1,
    decreases records.len(),
{
    let n = records.len();
    let updated = records.update(k, x);
    assert(updated.drop_last() =~= if k == n - 1 {
        records.drop_last()
    } else {
        records.drop_last().update(k, x)
    });
    if k < n - 1 {
        lemma_standing_count_update(records.drop_last(), k, x, v);
        assert(records.drop_last()[k] == records[k]);
    } else {
        lemma_standing_count_le_len(records.drop_last(), v);
    }
}

proof fn lemma_standing_count_le_len(records: Seq<Reaction>, v: i8)
    ensures
        standing_count(records, v) <= records.len(),
    decreases records.len(),
{
    if records.len() > 0 {
        lemma_standing_count_le_len(records.drop_last(), v);
    }
}

/// Reactions keep a post's counters in agreement with its reaction records:
/// if they agree before a user reacts through their own record (one of
/// `records`, at index `k`), they agree afterwards with that record replaced
/// by its new state.
pub proof fn lemma_ledger_consistent(
    pre: ReactToPost,
    records: Seq<Reaction>,
    k: int,
    reaction: i8,
)
    requires
        0 <= k < records.len(),
        records.len() <= u64::MAX,
        records[k] == pre.reaction,
        is_reaction(reaction),
        !bound_elsewhere(pre),
        counters_agree(pre.post, records),
    ensures
        counters_agree(
            reacted(pre, reaction).post,
            records.update(k, reacted(pre, reaction).reaction),
        ),
{
    let x = reacted(pre, reaction).reaction;
    lemma_standing_count_update(records, k, x, 1i8);
    lemma_standing_count_update(records, k, x, -1i8);
}

} // verus!
