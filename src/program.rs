use vstd::prelude::*;
use crate::accounts::{
    cid_fits, Comment, CommentCounter, Post, PostCounter, Pubkey, Reaction, MAX_CID_LEN,
};
use crate::context::{
    CreateComment, CreatePost, DeleteComment, DeletePost, InitializeCounters, ReactToPost,
    UpdateComment, UpdatePost,
};
use crate::error::ErrorCode;
use crate::ledger::{dislikes_after, is_reaction, likes_after};

verus! {

/// Whether an optional replacement identifier is acceptable: absent, or
/// within the length bound.
pub open spec fn cid_accepted(cid: Option<String>) -> bool {
    match cid {
        Some(c) => cid_fits(c@),
        None => true,
    }
}

/// The accounts after a post is created: the counter advanced to the new id
/// and an active post with no reactions, authored by the caller.
pub open spec fn post_created(
    pre: CreatePost,
    metadata_cid: String,
    ai_generated: bool,
    now: i64,
) -> CreatePost {
    let id = (pre.post_counter.count + 1) as u64;
    CreatePost {
        post_counter: PostCounter { count: id },
        post: Post {
            id,
            author: pre.author,
            metadata_cid,
            ai_generated,
            likes: 0,
            dislikes: 0,
            created_at: now,
            deleted: false,
        },
        author: pre.author,
    }
}

/// The accounts after the author updates a post: each given field replaced.
pub open spec fn post_updated(
    pre: UpdatePost,
    metadata_cid: Option<String>,
    ai_generated: Option<bool>,
) -> UpdatePost {
    UpdatePost {
        post: Post {
            metadata_cid: match metadata_cid {
                Some(c) => c,
                None => pre.post.metadata_cid,
            },
            ai_generated: match ai_generated {
                Some(f) => f,
                None => pre.post.ai_generated,
            },
            ..pre.post
        },
        author: pre.author,
    }
}

/// `c` with its link to post `post_id` removed, if it had one.
pub open spec fn unlinked(c: Comment, post_id: u64) -> Comment {
    if c.parent_post == Some(post_id) {
        Comment { parent_post: None, ..c }
    } else {
        c
    }
}

/// Whether `post` is the accounts after the author deletes a post from
/// `pre`: the post tombstoned and each candidate comment unlinked from it.
pub open spec fn post_deleted(pre: DeletePost, post: DeletePost) -> bool {
    &&& post.post == (Post { deleted: true, ..pre.post })
    &&& post.author == pre.author
    &&& post.candidates@ == pre.candidates@.map_values(|c: Comment| unlinked(c, pre.post.id))
}

/// The accounts after a comment is created: the counter advanced to the new
/// id and an active comment authored by the caller.
pub open spec fn comment_created(
    pre: CreateComment,
    metadata_cid: String,
    parent_post: Option<u64>,
    now: i64,
) -> CreateComment {
    let id = (pre.comment_counter.count + 1) as u64;
    CreateComment {
        comment_counter: CommentCounter { count: id },
        comment: Comment {
            id,
            author: pre.author,
            metadata_cid,
            parent_post,
            created_at: now,
            deleted: false,
        },
        author: pre.author,
    }
}

/// The accounts after the author updates a comment.
pub open spec fn comment_updated(pre: UpdateComment, metadata_cid: Option<String>) -> UpdateComment {
    UpdateComment {
        comment: Comment {
            metadata_cid: match metadata_cid {
                Some(c) => c,
                None => pre.comment.metadata_cid,
            },
            ..pre.comment
        },
        author: pre.author,
    }
}

/// Whether the reaction record was already bound to another post or user.
pub open spec fn bound_elsewhere(pre: ReactToPost) -> bool {
    pre.reaction.initialized && (pre.reaction.post_id != pre.post.id || pre.reaction.user
        != pre.user)
}

/// The user's standing before a reaction: that of the record, or 0 for a
/// fresh record.
pub open spec fn prior_value(rec: Reaction) -> i8 {
    if rec.initialized {
        rec.value
    } else {
        0
    }
}

/// The accounts after the user requests `reaction` on the post: the record
/// bound to (post, user) holding `reaction`, the post's counters moved by
/// the reaction table.
pub open spec fn reacted(pre: ReactToPost, reaction: i8) -> ReactToPost {
    let prior = prior_value(pre.reaction);
    ReactToPost {
        post: Post {
            likes: likes_after(pre.post.likes, prior, reaction),
            dislikes: dislikes_after(pre.post.dislikes, prior, reaction),
            ..pre.post
        },
        reaction: Reaction { post_id: pre.post.id, user: pre.user, value: reaction, initialized: true },
        user: pre.user,
    }
}

/// Whether `caller` may mutate a record written by `author`.
fn authorize(author: &Pubkey, caller: &Pubkey) -> (r: bool)
    ensures
        r == (*author == *caller),
{
    *author == *caller
}

/// Whether a content identifier is within the length bound.
fn fits(cid: &String) -> (r: bool)
    ensures
        r == cid_fits(cid@),
{
    cid.as_str().as_bytes().len() <= MAX_CID_LEN
}

/// Resets both identifier counters to zero.
pub fn initialize_counters(ctx: &mut InitializeCounters) -> (r: Result<(), ErrorCode>)
    ensures
        r is Ok,
        final(ctx).post_counter.count == 0,
        final(ctx).comment_counter.count == 0,
        final(ctx).payer == old(ctx).payer,
{
    ctx.post_counter.count = 0;
    ctx.comment_counter.count = 0;
    Ok(())
}

/// Publishes a post under the next post id, authored by the caller and
/// stamped with `now`. The counter must have an id left to issue.
pub fn create_post(
    ctx: &mut CreatePost,
    metadata_cid: String,
    ai_generated: bool,
    now: i64,
) -> (r: Result<(), ErrorCode>)
    requires
        old(ctx).post_counter.count < u64::MAX,
    ensures
        r is Ok <==> cid_fits(metadata_cid@),
        r is Ok ==> *final(ctx) == post_created(*old(ctx), metadata_cid, ai_generated, now),
        r is Err ==> r == Err::<(), ErrorCode>(ErrorCode::MetadataCidTooLong) && *final(ctx)
            == *old(ctx),
{
    if !fits(&metadata_cid) {
        return Err(ErrorCode::MetadataCidTooLong);
    }
    let id = ctx.post_counter.count + 1;
    ctx.post.id = id;
    ctx.post.author = ctx.author;
    ctx.post.metadata_cid = metadata_cid;
    ctx.post.ai_generated = ai_generated;
    ctx.post.likes = 0;
    ctx.post.dislikes = 0;
    ctx.post.created_at = now;
    ctx.post.deleted = false;
    ctx.post_counter.count = id;
    Ok(())
}

/// Replaces the given fields of a post; only its author may do so. A
/// soft-deleted post can still be updated.
pub fn update_post(
    ctx: &mut UpdatePost,
    metadata_cid: Option<String>,
    ai_generated: Option<bool>,
) -> (r: Result<(), ErrorCode>)
    ensures
        old(ctx).post.author != old(ctx).author ==> r == Err::<(), ErrorCode>(
            ErrorCode::Unauthorized,
        ),
        old(ctx).post.author == old(ctx).author && !cid_accepted(metadata_cid) ==> r == Err::<
            (),
            ErrorCode,
        >(ErrorCode::MetadataCidTooLong),
        r is Ok <==> old(ctx).post.author == old(ctx).author && cid_accepted(metadata_cid),
        r is Ok ==> *final(ctx) == post_updated(*old(ctx), metadata_cid, ai_generated),
        r is Err ==> *final(ctx) == *old(ctx),
{
    if !authorize(&ctx.post.author, &ctx.author) {
        return Err(ErrorCode::Unauthorized);
    }
    match metadata_cid {
        Some(cid) => {
            if !fits(&cid) {
                return Err(ErrorCode::MetadataCidTooLong);
            }
            ctx.post.metadata_cid = cid;
        },
        None => {},
    }
    match ai_generated {
        Some(flag) => {
            ctx.post.ai_generated = flag;
        },
        None => {},
    }
    Ok(())
}

/// Soft-deletes a post and unlinks each candidate comment that points at
/// it; only the post's author may do so. Comments not among the candidates
/// are not touched.
pub fn delete_post(ctx: &mut DeletePost) -> (r: Result<(), ErrorCode>)
    ensures
        r is Ok <==> old(ctx).post.author == old(ctx).author,
        r is Ok ==> post_deleted(*old(ctx), *final(ctx)),
        r is Err ==> r == Err::<(), ErrorCode>(ErrorCode::Unauthorized) && *final(ctx)
            == *old(ctx),
{
    if !authorize(&ctx.post.author, &ctx.author) {
        return Err(ErrorCode::Unauthorized);
    }
    ctx.post.deleted = true;
    let id = ctx.post.id;
    let n = ctx.candidates.len();
    let mut i: usize = 0;
    while i < n
        invariant
            n == ctx.candidates.len(),
            n == old(ctx).candidates.len(),
            i <= n,
            id == old(ctx).post.id,
            ctx.post == (Post { deleted: true, ..old(ctx).post }),
            ctx.author == old(ctx).author,
            forall|j: int| 0 <= j < i ==> ctx.candidates@[j] == unlinked(old(ctx).candidates@[j], id),
            forall|j: int| i <= j < n ==> ctx.candidates@[j] == old(ctx).candidates@[j],
        decreases n - i,
    {
        let links = match ctx.candidates[i].parent_post {
            Some(p) => p == id,
            None => false,
        };
        if links {
            ctx.candidates[i].parent_post = None;
        }
        i = i + 1;
    }
    assert(ctx.candidates@ =~= old(ctx).candidates@.map_values(|c: Comment| unlinked(c, id)));
    Ok(())
}

/// Publishes a comment under the next comment id, authored by the caller,
/// attached to `parent_post` if given and stamped with `now`. The counter
/// must have an id left to issue.
pub fn create_comment(
    ctx: &mut CreateComment,
    metadata_cid: String,
    parent_post: Option<u64>,
    now: i64,
) -> (r: Result<(), ErrorCode>)
    requires
        old(ctx).comment_counter.count < u64::MAX,
    ensures
        r is Ok <==> cid_fits(metadata_cid@),
        r is Ok ==> *final(ctx) == comment_created(*old(ctx), metadata_cid, parent_post, now),
        r is Err ==> r == Err::<(), ErrorCode>(ErrorCode::MetadataCidTooLong) && *final(ctx)
            == *old(ctx),
{
    if !fits(&metadata_cid) {
        return Err(ErrorCode::MetadataCidTooLong);
    }
    let id = ctx.comment_counter.count + 1;
    ctx.comment.id = id;
    ctx.comment.author = ctx.author;
    ctx.comment.metadata_cid = metadata_cid;
    ctx.comment.parent_post = parent_post;
    ctx.comment.created_at = now;
    ctx.comment.deleted = false;
    ctx.comment_counter.count = id;
    Ok(())
}

/// Replaces a comment's content identifier if one is given; only its author
/// may do so.
pub fn update_comment(ctx: &mut UpdateComment, metadata_cid: Option<String>) -> (r: Result<
    (),
    ErrorCode,
>)
    ensures
        old(ctx).comment.author != old(ctx).author ==> r == Err::<(), ErrorCode>(
            ErrorCode::Unauthorized,
        ),
        old(ctx).comment.author == old(ctx).author && !cid_accepted(metadata_cid) ==> r == Err::<
            (),
            ErrorCode,
        >(ErrorCode::MetadataCidTooLong),
        r is Ok <==> old(ctx).comment.author == old(ctx).author && cid_accepted(metadata_cid),
        r is Ok ==> *final(ctx) == comment_updated(*old(ctx), metadata_cid),
        r is Err ==> *final(ctx) == *old(ctx),
{
    if !authorize(&ctx.comment.author, &ctx.author) {
        return Err(ErrorCode::Unauthorized);
    }
    match metadata_cid {
        Some(cid) => {
            if !fits(&cid) {
                return Err(ErrorCode::MetadataCidTooLong);
            }
            ctx.comment.metadata_cid = cid;
        },
        None => {},
    }
    Ok(())
}

/// Soft-deletes a comment; only its author may do so.
pub fn delete_comment(ctx: &mut DeleteComment) -> (r: Result<(), ErrorCode>)
    ensures
        r is Ok <==> old(ctx).comment.author == old(ctx).author,
        r is Ok ==> final(ctx).comment == (Comment { deleted: true, ..old(ctx).comment })
            && final(ctx).author == old(ctx).author,
        r is Err ==> r == Err::<(), ErrorCode>(ErrorCode::Unauthorized) && *final(ctx)
            == *old(ctx),
{
    if !authorize(&ctx.comment.author, &ctx.author) {
        return Err(ErrorCode::Unauthorized);
    }
    ctx.comment.deleted = true;
    Ok(())
}

/// Records the caller's reaction to a post (1 like, -1 dislike, 0 neither)
/// and moves the post's counters by the reaction table. A fresh record is
/// first bound to this post and caller with standing 0; a record bound to
/// another post or user is refused.
pub fn react_to_post(ctx: &mut ReactToPost, reaction: i8) -> (r: Result<(), ErrorCode>)
    ensures
        !is_reaction(reaction) ==> r == Err::<(), ErrorCode>(ErrorCode::InvalidReaction),
        is_reaction(reaction) && bound_elsewhere(*old(ctx)) ==> r == Err::<(), ErrorCode>(
            ErrorCode::InvalidAccount,
        ),
        r is Ok <==> is_reaction(reaction) && !bound_elsewhere(*old(ctx)),
        r is Ok ==> *final(ctx) == reacted(*old(ctx), reaction),
        r is Err ==> *final(ctx) == *old(ctx),
{
    if !(reaction == 1 || reaction == -1 || reaction == 0) {
        return Err(ErrorCode::InvalidReaction);
    }
    if ctx.reaction.initialized {
        if ctx.reaction.post_id != ctx.post.id {
            return Err(ErrorCode::InvalidAccount);
        }
        if !(ctx.reaction.user == ctx.user) {
            return Err(ErrorCode::InvalidAccount);
        }
    } else {
        ctx.reaction.post_id = ctx.post.id;
        ctx.reaction.user = ctx.user;
        ctx.reaction.value = 0;
        ctx.reaction.initialized = true;
    }
    let prior = ctx.reaction.value;
    if reaction == 1 {
        if prior == -1 {
            ctx.post.dislikes = ctx.post.dislikes.saturating_sub(1);
        }
        if prior != 1 {
            ctx.post.likes = ctx.post.likes.saturating_add(1);
            ctx.reaction.value = 1;
        }
    } else if reaction == -1 {
        if prior == 1 {
            ctx.post.likes = ctx.post.likes.saturating_sub(1);
        }
        if prior != -1 {
            ctx.post.dislikes = ctx.post.dislikes.saturating_add(1);
            ctx.reaction.value = -1;
        }
    } else {
        if prior == 1 {
            ctx.post.likes = ctx.post.likes.saturating_sub(1);
        } else if prior == -1 {
            ctx.post.dislikes = ctx.post.dislikes.saturating_sub(1);
        }
        ctx.reaction.value = 0;
    }
    Ok(())
}

} // verus!
