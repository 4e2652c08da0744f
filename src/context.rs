use vstd::prelude::*;
use crate::accounts::{Comment, CommentCounter, Post, PostCounter, Pubkey, Reaction};

verus! {

/// Accounts of `initialize_counters`.
#[derive(Clone, Debug)]
pub struct InitializeCounters {
    pub post_counter: PostCounter,
    pub comment_counter: CommentCounter,
    pub payer: Pubkey,
}

/// Accounts of `create_post`: the counter, the new post and its author.
#[derive(Clone, Debug)]
pub struct CreatePost {
    pub post_counter: PostCounter,
    pub post: Post,
    pub author: Pubkey,
}

/// Accounts of `update_post`: the post and the caller.
#[derive(Clone, Debug)]
pub struct UpdatePost {
    pub post: Post,
    pub author: Pubkey,
}

/// Accounts of `delete_post`: the post, the caller, and the comments the
/// caller asks to be unlinked from the post.
#[derive(Clone, Debug)]
pub struct DeletePost {
    pub post: Post,
    pub author: Pubkey,
    pub candidates: Vec<Comment>,
}

/// Accounts of `create_comment`: the counter, the new comment and its author.
#[derive(Clone, Debug)]
pub struct CreateComment {
    pub comment_counter: CommentCounter,
    pub comment: Comment,
    pub author: Pubkey,
}

/// Accounts of `update_comment`: the comment and the caller.
#[derive(Clone, Debug)]
pub struct UpdateComment {
    pub comment: Comment,
    pub author: Pubkey,
}

/// Accounts of `delete_comment`: the comment and the caller.
#[derive(Clone, Debug)]
pub struct DeleteComment {
    pub comment: Comment,
    pub author: Pubkey,
}

/// Accounts of `react_to_post`: the post, the caller's reaction record for
/// it (fresh on first use) and the caller.
#[derive(Clone, Debug)]
pub struct ReactToPost {
    pub post: Post,
    pub reaction: Reaction,
    pub user: Pubkey,
}

} // verus!
