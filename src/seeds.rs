use vstd::prelude::*;
use crate::accounts::Pubkey;
use vstd::slice::slice_to_vec;
use vstd::utf8::encode_utf8;

verus! {

/// Byte `k` of `x` in little-endian order.
pub open spec fn le_byte(x: u64, k: int) -> u8 {
    ((x >> ((8 * k) as u64)) & 0xff) as u8
}

/// The eight bytes of `x`, least significant first.
pub open spec fn le_bytes(x: u64) -> Seq<u8> {
    Seq::new(8, |k: int| le_byte(x, k))
}

/// Domain tag of the post counter: "post_counter".
pub open spec fn post_counter_tag() -> Seq<u8> {
    encode_utf8("post_counter"@)
}

/// Domain tag of the comment counter: "comment_counter".
pub open spec fn comment_counter_tag() -> Seq<u8> {
    encode_utf8("comment_counter"@)
}

/// Domain tag of posts: "post".
pub open spec fn post_tag() -> Seq<u8> {
    encode_utf8("post"@)
}

/// Domain tag of comments: "comment".
pub open spec fn comment_tag() -> Seq<u8> {
    encode_utf8("comment"@)
}

/// Domain tag of reaction records: "reaction".
pub open spec fn reaction_tag() -> Seq<u8> {
    encode_utf8("reaction"@)
}

/// Storage key of the post with id `id`.
pub open spec fn post_key(id: u64) -> Seq<Seq<u8>> {
    seq![post_tag(), le_bytes(id)]
}

/// Storage key of the comment with id `id`.
pub open spec fn comment_key(id: u64) -> Seq<Seq<u8>> {
    seq![comment_tag(), le_bytes(id)]
}

/// Storage key of `user`'s reaction record on the post with id `post_id`.
pub open spec fn reaction_key(post_id: u64, user: Pubkey) -> Seq<Seq<u8>> {
    seq![reaction_tag(), le_bytes(post_id), user.bytes@]
}

fn le_bytes_of(x: u64) -> (r: Vec<u8>)
    ensures
        r@ == le_bytes(x),
{
    let mut v: Vec<u8> = Vec::new();
    let mut k: u64 = 0;
    while k < 8
        invariant
            k <= 8,
            v@ == le_bytes(x).take(k as int),
        decreases 8 - k,
    {
        v.push(((x >> (8 * k)) & 0xff) as u8);
        proof {
            assert(v@ =~= le_bytes(x).take(k + 1));
        }
        k = k + 1;
    }
    assert(v@ =~= le_bytes(x));
    v
}

fn bytes_of_array(a: &[u8; 32]) -> (r: Vec<u8>)
    ensures
        r@ == a@,
{
    let mut v: Vec<u8> = Vec::new();
    let mut k: usize = 0;
    while k < 32
        invariant
            k <= 32,
            v@ == a@.take(k as int),
        decreases 32 - k,
    {
        v.push(a[k]);
        proof {
            assert(v@ =~= a@.take(k + 1));
        }
        k = k + 1;
    }
    assert(v@ =~= a@);
    v
}

/// The byte strings that a list of seeds holds.
pub open spec fn seeds_view(seeds: Seq<Vec<u8>>) -> Seq<Seq<u8>> {
    seeds.map_values(|s: Vec<u8>| s@)
}

fn tag_bytes(tag: &str) -> (r: Vec<u8>)
    ensures
        r@ == encode_utf8(tag@),
{
    slice_to_vec(tag.as_bytes())
}

/// Seeds of the post counter's storage key.
pub fn post_counter_seeds() -> (r: Vec<Vec<u8>>)
    ensures
        seeds_view(r@) == seq![post_counter_tag()],
{
    let mut r: Vec<Vec<u8>> = Vec::new();
    r.push(tag_bytes("post_counter"));
    assert(seeds_view(r@) =~= seq![post_counter_tag()]);
    r
}

/// Seeds of the comment counter's storage key.
pub fn comment_counter_seeds() -> (r: Vec<Vec<u8>>)
    ensures
        seeds_view(r@) == seq![comment_counter_tag()],
{
    let mut r: Vec<Vec<u8>> = Vec::new();
    r.push(tag_bytes("comment_counter"));
    assert(seeds_view(r@) =~= seq![comment_counter_tag()]);
    r
}

/// Seeds of the storage key of the post with id `id`.
pub fn post_seeds(id: u64) -> (r: Vec<Vec<u8>>)
    ensures
        seeds_view(r@) == post_key(id),
{
    let mut r: Vec<Vec<u8>> = Vec::new();
    r.push(tag_bytes("post"));
    r.push(le_bytes_of(id));
    assert(seeds_view(r@) =~= post_key(id));
    r
}

/// Seeds of the storage key of the comment with id `id`.
pub fn comment_seeds(id: u64) -> (r: Vec<Vec<u8>>)
    ensures
        seeds_view(r@) == comment_key(id),
{
    let mut r: Vec<Vec<u8>> = Vec::new();
    r.push(tag_bytes("comment"));
    r.push(le_bytes_of(id));
    assert(seeds_view(r@) =~= comment_key(id));
    r
}

/// Seeds of the storage key of `user`'s reaction record on the post with
/// id `post_id`.
pub fn reaction_seeds(post_id: u64, user: &Pubkey) -> (r: Vec<Vec<u8>>)
    ensures
        seeds_view(r@) == reaction_key(post_id, *user),
{
    let mut r: Vec<Vec<u8>> = Vec::new();
    r.push(tag_bytes("reaction"));
    r.push(le_bytes_of(post_id));
    r.push(bytes_of_array(&user.bytes));
    assert(seeds_view(r@) =~= reaction_key(post_id, *user));
    r
}

proof fn lemma_low_byte(a: u64, b: u64)
    requires
        (a & 0xff) as u8 == (b & 0xff) as u8,
    ensures
        a & 0xff == b & 0xff,
{
    assert(a & 0xff < 256 && b & 0xff < 256) by (bit_vector);
}

/// Different integers have different little-endian bytes.
pub proof fn lemma_le_bytes_injective(x: u64, y: u64)
    requires
        le_bytes(x) == le_bytes(y),
    ensures
        x == y,
{
    assert(le_bytes(x).len() == 8 && le_bytes(y).len() == 8);
    assert(le_bytes(x)[0] == le_byte(x, 0) && le_bytes(y)[0] == le_byte(y, 0));
    assert(le_byte(x, 0) == le_byte(y, 0));
    assert(((8 * 0int) as u64) == 0u64);
    assert(le_bytes(x)[1] == le_byte(x, 1) && le_bytes(y)[1] == le_byte(y, 1));
    assert(le_byte(x, 1) == le_byte(y, 1));
    assert(((8 * 1int) as u64) == 8u64);
    assert(le_bytes(x)[2] == le_byte(x, 2) && le_bytes(y)[2] == le_byte(y, 2));
    assert(le_byte(x, 2) == le_byte(y, 2));
    assert(((8 * 2int) as u64) == 16u64);
    assert(le_bytes(x)[3] == le_byte(x, 3) && le_bytes(y)[3] == le_byte(y, 3));
    assert(le_byte(x, 3) == le_byte(y, 3));
    assert(((8 * 3int) as u64) == 24u64);
    assert(le_bytes(x)[4] == le_byte(x, 4) && le_bytes(y)[4] == le_byte(y, 4));
    assert(le_byte(x, 4) == le_byte(y, 4));
    assert(((8 * 4int) as u64) == 32u64);
    assert(le_bytes(x)[5] == le_byte(x, 5) && le_bytes(y)[5] == le_byte(y, 5));
    assert(le_byte(x, 5) == le_byte(y, 5));
    assert(((8 * 5int) as u64) == 40u64);
    assert(le_bytes(x)[6] == le_byte(x, 6) && le_bytes(y)[6] == le_byte(y, 6));
    assert(le_byte(x, 6) == le_byte(y, 6));
    assert(((8 * 6int) as u64) == 48u64);
    assert(le_bytes(x)[7] == le_byte(x, 7) && le_bytes(y)[7] == le_byte(y, 7));
    assert(le_byte(x, 7) == le_byte(y, 7));
    assert(((8 * 7int) as u64) == 56u64);
    lemma_low_byte(x >> 0u64, y >> 0u64);
    lemma_low_byte(x >> 8u64, y >> 8u64);
    lemma_low_byte(x >> 16u64, y >> 16u64);
    lemma_low_byte(x >> 24u64, y >> 24u64);
    lemma_low_byte(x >> 32u64, y >> 32u64);
    lemma_low_byte(x >> 40u64, y >> 40u64);
    lemma_low_byte(x >> 48u64, y >> 48u64);
    lemma_low_byte(x >> 56u64, y >> 56u64);
    assert(x == y) by (bit_vector)
        requires
            (x >> 0u64) & 0xff == (y >> 0u64) & 0xff,
            (x >> 8u64) & 0xff == (y >> 8u64) & 0xff,
            (x >> 16u64) & 0xff == (y >> 16u64) & 0xff,
            (x >> 24u64) & 0xff == (y >> 24u64) & 0xff,
            (x >> 32u64) & 0xff == (y >> 32u64) & 0xff,
            (x >> 40u64) & 0xff == (y >> 40u64) & 0xff,
            (x >> 48u64) & 0xff == (y >> 48u64) & 0xff,
            (x >> 56u64) & 0xff == (y >> 56u64) & 0xff,
    ;
}

/// Each (post, user) pair has a storage key of its own, so there is at most
/// one reaction record per user and post: equal keys mean the same post id
/// and the same user.
pub proof fn lemma_reaction_keys_distinct(post_a: u64, user_a: Pubkey, post_b: u64, user_b: Pubkey)
    requires
        reaction_key(post_a, user_a) == reaction_key(post_b, user_b),
    ensures
        post_a == post_b,
        user_a == user_b,
{
    assert(reaction_key(post_a, user_a)[1] == reaction_key(post_b, user_b)[1]);
    lemma_le_bytes_injective(post_a, post_b);
    assert(reaction_key(post_a, user_a)[2] == reaction_key(post_b, user_b)[2]);
    assert(user_a.bytes =~= user_b.bytes);
}

/// Posts with different ids have different storage keys, and so do comments.
pub proof fn lemma_record_keys_distinct(a: u64, b: u64)
    ensures
        post_key(a) == post_key(b) ==> a == b,
        comment_key(a) == comment_key(b) ==> a == b,
{
    if post_key(a) == post_key(b) {
        assert(post_key(a)[1] == post_key(b)[1]);
        lemma_le_bytes_injective(a, b);
    }
    if comment_key(a) == comment_key(b) {
        assert(comment_key(a)[1] == comment_key(b)[1]);
        lemma_le_bytes_injective(a, b);
    }
}

} // verus!
