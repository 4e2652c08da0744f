use senfiltro::{
    comment_counter_seeds, comment_seeds, create_comment, create_post, delete_comment,
    delete_post, initialize_counters, post_counter_seeds, post_seeds, react_to_post,
    reaction_seeds, update_comment, update_post, Comment, CommentCounter, CreateComment,
    CreatePost, DeleteComment, DeletePost, ErrorCode, InitializeCounters, Post, PostCounter,
    Pubkey, ReactToPost, Reaction, UpdateComment, UpdatePost, MAX_CID_LEN,
};

fn key(b: u8) -> Pubkey {
    Pubkey::new([b; 32])
}

fn blank_post() -> Post {
    Post {
        id: 0,
        author: key(0),
        metadata_cid: String::new(),
        ai_generated: false,
        likes: 0,
        dislikes: 0,
        created_at: 0,
        deleted: false,
    }
}

fn blank_comment() -> Comment {
    Comment {
        id: 0,
        author: key(0),
        metadata_cid: String::new(),
        parent_post: None,
        created_at: 0,
        deleted: false,
    }
}

fn fresh_reaction() -> Reaction {
    Reaction { post_id: 0, user: key(0), value: 0, initialized: false }
}

fn cid(n: usize) -> String {
    "a".repeat(n)
}

fn make_post(counter: PostCounter, author: Pubkey, metadata_cid: &str) -> (PostCounter, Post) {
    let mut ctx = CreatePost { post_counter: counter, post: blank_post(), author };
    assert_eq!(create_post(&mut ctx, metadata_cid.to_string(), false, 1_700_000_000), Ok(()));
    (ctx.post_counter, ctx.post)
}

fn make_comment(
    counter: CommentCounter,
    author: Pubkey,
    parent_post: Option<u64>,
) -> (CommentCounter, Comment) {
    let mut ctx = CreateComment { comment_counter: counter, comment: blank_comment(), author };
    assert_eq!(create_comment(&mut ctx, "ipfs://c".to_string(), parent_post, 5), Ok(()));
    (ctx.comment_counter, ctx.comment)
}

fn react(post: Post, reaction: Reaction, user: Pubkey, value: i8) -> (Result<(), ErrorCode>, ReactToPost) {
    let mut ctx = ReactToPost { post, reaction, user };
    let r = react_to_post(&mut ctx, value);
    (r, ctx)
}

#[test]
fn initialize_counters_resets_both() {
    let mut ctx = InitializeCounters {
        post_counter: PostCounter { count: 9 },
        comment_counter: CommentCounter { count: 4 },
        payer: key(1),
    };
    assert_eq!(initialize_counters(&mut ctx), Ok(()));
    assert_eq!(ctx.post_counter.count, 0);
    assert_eq!(ctx.comment_counter.count, 0);
}

#[test]
fn create_post_fills_every_field() {
    let mut ctx = CreatePost {
        post_counter: PostCounter { count: 0 },
        post: blank_post(),
        author: key(7),
    };
    assert_eq!(create_post(&mut ctx, "ipfs://abc".to_string(), true, 1234), Ok(()));
    assert_eq!(ctx.post_counter.count, 1);
    assert_eq!(
        ctx.post,
        Post {
            id: 1,
            author: key(7),
            metadata_cid: "ipfs://abc".to_string(),
            ai_generated: true,
            likes: 0,
            dislikes: 0,
            created_at: 1234,
            deleted: false,
        }
    );
}

#[test]
fn post_ids_start_at_one_and_increase() {
    let mut counter = PostCounter { count: 0 };
    let mut ids = Vec::new();
    for i in 0..5u8 {
        let (c, p) = make_post(counter, key(i), "ipfs://x");
        counter = c;
        ids.push(p.id);
    }
    assert_eq!(ids, vec![1, 2, 3, 4, 5]);
    assert_eq!(counter.count, 5);
}

#[test]
fn failed_creation_does_not_use_an_id() {
    let (counter, first) = make_post(PostCounter { count: 0 }, key(1), "ipfs://1");
    let mut ctx = CreatePost { post_counter: counter, post: blank_post(), author: key(1) };
    assert_eq!(create_post(&mut ctx, cid(201), false, 0), Err(ErrorCode::MetadataCidTooLong));
    assert_eq!(ctx.post_counter.count, 1);
    assert_eq!(ctx.post, blank_post());
    let (_, second) = make_post(ctx.post_counter, key(1), "ipfs://2");
    assert_eq!((first.id, second.id), (1, 2));
}

#[test]
fn comment_ids_start_at_one_and_increase() {
    let (c1, a) = make_comment(CommentCounter { count: 0 }, key(1), None);
    let (c2, b) = make_comment(c1, key(2), Some(1));
    assert_eq!((a.id, b.id, c2.count), (1, 2, 2));
    assert_eq!(b.parent_post, Some(1));
    assert_eq!(b.author, key(2));
    assert_eq!(b.created_at, 5);
    assert!(!b.deleted);
}

#[test]
fn non_author_cannot_update_post() {
    let (_, post) = make_post(PostCounter { count: 0 }, key(1), "ipfs://orig");
    let mut ctx = UpdatePost { post: post.clone(), author: key(2) };
    let r = update_post(&mut ctx, Some("ipfs://new".to_string()), Some(true));
    assert_eq!(r, Err(ErrorCode::Unauthorized));
    assert_eq!(ctx.post, post);
}

#[test]
fn non_author_cannot_delete_post() {
    let (_, post) = make_post(PostCounter { count: 0 }, key(1), "ipfs://orig");
    let (_, comment) = make_comment(CommentCounter { count: 0 }, key(1), Some(1));
    let mut ctx = DeletePost { post: post.clone(), author: key(3), candidates: vec![comment.clone()] };
    assert_eq!(delete_post(&mut ctx), Err(ErrorCode::Unauthorized));
    assert_eq!(ctx.post, post);
    assert_eq!(ctx.candidates, vec![comment]);
}

#[test]
fn non_author_cannot_touch_comment() {
    let (_, comment) = make_comment(CommentCounter { count: 0 }, key(1), None);
    let mut up = UpdateComment { comment: comment.clone(), author: key(2) };
    assert_eq!(update_comment(&mut up, Some("ipfs://z".to_string())), Err(ErrorCode::Unauthorized));
    assert_eq!(up.comment, comment);
    let mut del = DeleteComment { comment: comment.clone(), author: key(2) };
    assert_eq!(delete_comment(&mut del), Err(ErrorCode::Unauthorized));
    assert_eq!(del.comment, comment);
}

#[test]
fn author_updates_only_given_fields() {
    let (_, post) = make_post(PostCounter { count: 0 }, key(1), "ipfs://orig");
    let mut ctx = UpdatePost { post: post.clone(), author: key(1) };
    assert_eq!(update_post(&mut ctx, None, Some(true)), Ok(()));
    assert_eq!(ctx.post.metadata_cid, "ipfs://orig");
    assert!(ctx.post.ai_generated);
    assert_eq!(update_post(&mut ctx, Some("ipfs://new".to_string()), None), Ok(()));
    assert_eq!(ctx.post.metadata_cid, "ipfs://new");
    assert!(ctx.post.ai_generated);
    assert_eq!(ctx.post.id, post.id);
    assert_eq!(ctx.post.created_at, post.created_at);
}

#[test]
fn author_updates_and_deletes_comment() {
    let (_, comment) = make_comment(CommentCounter { count: 0 }, key(1), Some(3));
    let mut up = UpdateComment { comment, author: key(1) };
    assert_eq!(update_comment(&mut up, Some("ipfs://edited".to_string())), Ok(()));
    assert_eq!(up.comment.metadata_cid, "ipfs://edited");
    assert_eq!(up.comment.parent_post, Some(3));
    let mut del = DeleteComment { comment: up.comment.clone(), author: key(1) };
    assert_eq!(delete_comment(&mut del), Ok(()));
    assert!(del.comment.deleted);
    assert_eq!(del.comment.metadata_cid, "ipfs://edited");
}

#[test]
fn update_of_deleted_post_is_allowed() {
    let (_, post) = make_post(PostCounter { count: 0 }, key(1), "ipfs://orig");
    let mut del = DeletePost { post, author: key(1), candidates: vec![] };
    assert_eq!(delete_post(&mut del), Ok(()));
    let mut up = UpdatePost { post: del.post, author: key(1) };
    assert_eq!(update_post(&mut up, Some("ipfs://later".to_string()), None), Ok(()));
    assert!(up.post.deleted);
    assert_eq!(up.post.metadata_cid, "ipfs://later");
}

#[test]
fn cid_of_200_bytes_is_accepted_everywhere() {
    assert_eq!(MAX_CID_LEN, 200);
    let mut cp = CreatePost { post_counter: PostCounter { count: 0 }, post: blank_post(), author: key(1) };
    assert_eq!(create_post(&mut cp, cid(200), false, 0), Ok(()));
    let mut up = UpdatePost { post: cp.post.clone(), author: key(1) };
    assert_eq!(update_post(&mut up, Some(cid(200)), None), Ok(()));
    let mut cc = CreateComment { comment_counter: CommentCounter { count: 0 }, comment: blank_comment(), author: key(1) };
    assert_eq!(create_comment(&mut cc, cid(200), None, 0), Ok(()));
    let mut uc = UpdateComment { comment: cc.comment.clone(), author: key(1) };
    assert_eq!(update_comment(&mut uc, Some(cid(200))), Ok(()));
}

#[test]
fn cid_of_201_bytes_is_refused_everywhere() {
    let mut cp = CreatePost { post_counter: PostCounter { count: 0 }, post: blank_post(), author: key(1) };
    assert_eq!(create_post(&mut cp, cid(201), false, 0), Err(ErrorCode::MetadataCidTooLong));
    assert_eq!(cp.post_counter.count, 0);
    let (_, post) = make_post(PostCounter { count: 0 }, key(1), "ipfs://p");
    let mut up = UpdatePost { post: post.clone(), author: key(1) };
    assert_eq!(update_post(&mut up, Some(cid(201)), Some(true)), Err(ErrorCode::MetadataCidTooLong));
    assert_eq!(up.post, post);
    let mut cc = CreateComment { comment_counter: CommentCounter { count: 0 }, comment: blank_comment(), author: key(1) };
    assert_eq!(create_comment(&mut cc, cid(201), None, 0), Err(ErrorCode::MetadataCidTooLong));
    assert_eq!(cc.comment_counter.count, 0);
    let (_, comment) = make_comment(CommentCounter { count: 0 }, key(1), None);
    let mut uc = UpdateComment { comment: comment.clone(), author: key(1) };
    assert_eq!(update_comment(&mut uc, Some(cid(201))), Err(ErrorCode::MetadataCidTooLong));
    assert_eq!(uc.comment, comment);
}

#[test]
fn cid_length_counts_bytes_not_chars() {
    // 100 two-byte characters fill the bound exactly; one more does not fit.
    let mut cp = CreatePost { post_counter: PostCounter { count: 0 }, post: blank_post(), author: key(1) };
    assert_eq!(create_post(&mut cp, "é".repeat(100), false, 0), Ok(()));
    let mut cp2 = CreatePost { post_counter: PostCounter { count: 0 }, post: blank_post(), author: key(1) };
    assert_eq!(create_post(&mut cp2, "é".repeat(100) + "a", false, 0), Err(ErrorCode::MetadataCidTooLong));
}

#[test]
fn cascade_unlinks_only_matching_candidates() {
    let (_, post) = make_post(PostCounter { count: 0 }, key(1), "ipfs://p");
    assert_eq!(post.id, 1);
    let (cc, c1) = make_comment(CommentCounter { count: 0 }, key(2), Some(1));
    let (_, c2) = make_comment(cc, key(3), None);
    let mut ctx = DeletePost { post, author: key(1), candidates: vec![c1.clone(), c2.clone()] };
    assert_eq!(delete_post(&mut ctx), Ok(()));
    assert!(ctx.post.deleted);
    assert_eq!(ctx.candidates[0].parent_post, None);
    assert_eq!(ctx.candidates[1].parent_post, None);
    assert_eq!(ctx.candidates[0].id, c1.id);
    assert_eq!(ctx.candidates[1], c2);
}

#[test]
fn cascade_leaves_comments_of_other_posts() {
    let (pc, _) = make_post(PostCounter { count: 0 }, key(1), "ipfs://p1");
    let (_, p2) = make_post(pc, key(1), "ipfs://p2");
    let (_, c) = make_comment(CommentCounter { count: 0 }, key(2), Some(1));
    let mut ctx = DeletePost { post: p2, author: key(1), candidates: vec![c.clone()] };
    assert_eq!(delete_post(&mut ctx), Ok(()));
    assert_eq!(ctx.candidates, vec![c]);
}

#[test]
fn reaction_full_cycle() {
    let (_, post) = make_post(PostCounter { count: 0 }, key(1), "ipfs://p");
    let (r, ctx) = react(post, fresh_reaction(), key(9), 1);
    assert_eq!(r, Ok(()));
    assert_eq!((ctx.post.likes, ctx.post.dislikes), (1, 0));
    let (r, ctx) = react(ctx.post, ctx.reaction, key(9), -1);
    assert_eq!(r, Ok(()));
    assert_eq!((ctx.post.likes, ctx.post.dislikes), (0, 1));
    let (r, ctx) = react(ctx.post, ctx.reaction, key(9), 0);
    assert_eq!(r, Ok(()));
    assert_eq!((ctx.post.likes, ctx.post.dislikes), (0, 0));
    assert_eq!(ctx.reaction.value, 0);
}

#[test]
fn repeated_reaction_counts_once() {
    for value in [-1i8, 0, 1] {
        let (_, post) = make_post(PostCounter { count: 0 }, key(1), "ipfs://p");
        let (_, first) = react(post, fresh_reaction(), key(9), value);
        let (r, second) = react(first.post.clone(), first.reaction, key(9), value);
        assert_eq!(r, Ok(()));
        assert_eq!(second.post, first.post);
        assert_eq!(second.reaction, first.reaction);
    }
}

#[test]
fn first_reaction_binds_the_record() {
    let (_, post) = make_post(PostCounter { count: 0 }, key(1), "ipfs://p");
    let (r, ctx) = react(post, fresh_reaction(), key(9), -1);
    assert_eq!(r, Ok(()));
    assert_eq!(ctx.reaction, Reaction { post_id: 1, user: key(9), value: -1, initialized: true });
    assert_eq!((ctx.post.likes, ctx.post.dislikes), (0, 1));
}

#[test]
fn two_reactions_share_one_record() {
    let (_, post) = make_post(PostCounter { count: 0 }, key(1), "ipfs://p");
    let (_, a) = react(post, fresh_reaction(), key(9), 1);
    let (r, b) = react(a.post.clone(), a.reaction, key(9), -1);
    assert_eq!(r, Ok(()));
    assert_eq!((b.reaction.post_id, b.reaction.user), (a.reaction.post_id, a.reaction.user));
    assert_eq!((b.post.likes, b.post.dislikes), (0, 1));
    assert_eq!(reaction_seeds(1, &key(9)), reaction_seeds(1, &key(9)));
    assert_ne!(reaction_seeds(1, &key(9)), reaction_seeds(1, &key(8)));
    assert_ne!(reaction_seeds(1, &key(9)), reaction_seeds(2, &key(9)));
}

#[test]
fn invalid_reaction_value_is_refused() {
    let (_, post) = make_post(PostCounter { count: 0 }, key(1), "ipfs://p");
    for value in [2i8, -2, 127, -128] {
        let (r, ctx) = react(post.clone(), fresh_reaction(), key(9), value);
        assert_eq!(r, Err(ErrorCode::InvalidReaction));
        assert_eq!(ctx.post, post);
        assert_eq!(ctx.reaction, fresh_reaction());
    }
}

#[test]
fn record_of_another_post_is_refused() {
    let (_, post) = make_post(PostCounter { count: 0 }, key(1), "ipfs://p");
    let other = Reaction { post_id: 2, user: key(9), value: 1, initialized: true };
    let (r, ctx) = react(post.clone(), other, key(9), -1);
    assert_eq!(r, Err(ErrorCode::InvalidAccount));
    assert_eq!(ctx.post, post);
    assert_eq!(ctx.reaction, other);
}

#[test]
fn record_of_another_user_is_refused() {
    let (_, post) = make_post(PostCounter { count: 0 }, key(1), "ipfs://p");
    let other = Reaction { post_id: 1, user: key(8), value: 0, initialized: true };
    let (r, ctx) = react(post.clone(), other, key(9), 1);
    assert_eq!(r, Err(ErrorCode::InvalidAccount));
    assert_eq!(ctx.post, post);
    assert_eq!(ctx.reaction, other);
}

#[test]
fn counters_stay_at_zero_at_the_boundary() {
    // A record that claims a like on a post whose counters are already zero.
    let mut post = blank_post();
    post.id = 1;
    let stale = Reaction { post_id: 1, user: key(9), value: 1, initialized: true };
    let (r, ctx) = react(post.clone(), stale, key(9), 0);
    assert_eq!(r, Ok(()));
    assert_eq!((ctx.post.likes, ctx.post.dislikes), (0, 0));
    let (_, ctx) = react(ctx.post, ctx.reaction, key(9), -1);
    assert_eq!((ctx.post.likes, ctx.post.dislikes), (0, 1));
    let (_, ctx) = react(ctx.post, ctx.reaction, key(9), 1);
    assert_eq!((ctx.post.likes, ctx.post.dislikes), (1, 0));
    let stale_dislike = Reaction { post_id: 1, user: key(9), value: -1, initialized: true };
    let (_, ctx) = react(post.clone(), stale_dislike, key(9), 1);
    assert_eq!((ctx.post.likes, ctx.post.dislikes), (1, 0));
    let mut alternating = post;
    let mut record = fresh_reaction();
    for value in [1i8, -1, 0, -1, 1, 0, 0, -1, -1, 1] {
        let (_, ctx) = react(alternating, record, key(9), value);
        alternating = ctx.post;
        record = ctx.reaction;
        assert_eq!(alternating.likes, if value == 1 { 1 } else { 0 });
        assert_eq!(alternating.dislikes, if value == -1 { 1 } else { 0 });
    }
}

#[test]
fn counters_hold_at_the_largest_value() {
    let mut post = blank_post();
    post.id = 1;
    post.likes = u64::MAX;
    post.dislikes = u64::MAX;
    let (_, ctx) = react(post, fresh_reaction(), key(9), 1);
    assert_eq!(ctx.post.likes, u64::MAX);
    let (_, ctx) = react(ctx.post, ctx.reaction, key(9), -1);
    assert_eq!((ctx.post.likes, ctx.post.dislikes), (u64::MAX - 1, u64::MAX));
}

#[test]
fn space_is_sized_to_content() {
    assert_eq!(Post::get_space(&String::new()), 78);
    assert_eq!(Post::get_space(&"ipfs://abc".to_string()), 88);
    assert_eq!(Comment::get_space(&String::new()), 70);
    assert_eq!(Comment::get_space(&cid(200)), 270);
    assert_eq!(Reaction::get_space(), 50);
}

#[test]
fn seeds_follow_the_addressing_scheme() {
    assert_eq!(post_counter_seeds(), vec![b"post_counter".to_vec()]);
    assert_eq!(comment_counter_seeds(), vec![b"comment_counter".to_vec()]);
    assert_eq!(post_seeds(1), vec![b"post".to_vec(), 1u64.to_le_bytes().to_vec()]);
    assert_eq!(
        comment_seeds(0x0102_0304_0506_0708),
        vec![b"comment".to_vec(), vec![8, 7, 6, 5, 4, 3, 2, 1]]
    );
    let user = Pubkey::new([
        1, 2, 3, 4, 5, 6, 7, 8, 9, 10, 11, 12, 13, 14, 15, 16, 17, 18, 19, 20, 21, 22, 23, 24,
        25, 26, 27, 28, 29, 30, 31, 32,
    ]);
    assert_eq!(
        reaction_seeds(u64::MAX, &user),
        vec![b"reaction".to_vec(), vec![255; 8], user.bytes.to_vec()]
    );
}

#[test]
fn identities_compare_by_every_byte() {
    let mut bytes = [5u8; 32];
    assert_eq!(Pubkey::new(bytes), Pubkey::new(bytes));
    bytes[31] = 6;
    assert_ne!(Pubkey::new(bytes), Pubkey::new([5u8; 32]));
    bytes[31] = 5;
    bytes[0] = 0;
    assert_ne!(Pubkey::new(bytes), Pubkey::new([5u8; 32]));
}
