//! A content registry for a forum: posts, threaded comments and a per-user
//! reaction ledger, with ownership-gated mutation and soft deletion.
//!
//! Each instruction takes the accounts it touches in a context value and
//! updates them as one unit of work: on any error nothing has changed.

pub mod accounts;
pub mod context;
mod error;
pub mod ledger;
pub mod program;
pub mod laws;
pub mod seeds;

pub use accounts::{Comment, CommentCounter, Post, PostCounter, Pubkey, Reaction, MAX_CID_LEN};
pub use seeds::{
    comment_counter_seeds, comment_seeds, post_counter_seeds, post_seeds, reaction_seeds,
};
pub use error::ErrorCode;
pub use context::{
    CreateComment, CreatePost, DeleteComment, DeletePost, InitializeCounters, ReactToPost,
    UpdateComment, UpdatePost,
};
pub use program::{
    create_comment, create_post, delete_comment, delete_post, initialize_counters,
    react_to_post, update_comment, update_post,
};
