use vstd::prelude::*;
use vstd::utf8::encode_utf8;

verus! {

/// The longest content identifier a record accepts, in UTF-8 bytes.
pub const MAX_CID_LEN: usize = 200;

/// Length in UTF-8 bytes of a content identifier.
pub open spec fn cid_len(cid: Seq<char>) -> nat {
    encode_utf8(cid).len()
}

/// Whether a content identifier fits in a record.
pub open spec fn cid_fits(cid: Seq<char>) -> bool {
    cid_len(cid) <= MAX_CID_LEN
}

/// An opaque 32-byte identity: the author of a record or a reacting user.
#[derive(Clone, Copy, Debug)]
pub struct Pubkey {
    pub bytes: [u8; 32],
}

impl Pubkey {
    pub fn new(bytes: [u8; 32]) -> (r: Pubkey)
        ensures
            r.bytes == bytes,
    {
        Pubkey { bytes }
    }
}

impl PartialEq for Pubkey {
    /// Byte-wise comparison of two identities.
    fn eq(&self, other: &Pubkey) -> (r: bool) {
        let mut i: usize = 0;
        while i < 32
            invariant
                i <= 32,
                forall|j: int| 0 <= j < i ==> self.bytes[j] == other.bytes[j],
            decreases 32 - i,
        {
            if self.bytes[i] != other.bytes[i] {
                return false;
            }
            i = i + 1;
        }
        assert(self.bytes =~= other.bytes);
        true
    }
}

impl vstd::std_specs::cmp::PartialEqSpecImpl for Pubkey {
    open spec fn obeys_eq_spec() -> bool {
        true
    }

    open spec fn eq_spec(&self, other: &Pubkey) -> bool {
        self.bytes == other.bytes
    }
}

/// The counter from which post identifiers are allocated.
#[derive(Clone, Copy, Debug, PartialEq, Eq, Structural)]
pub struct PostCounter {
    pub count: u64,
}

/// The counter from which comment identifiers are allocated.
#[derive(Clone, Copy, Debug, PartialEq, Eq, Structural)]
pub struct CommentCounter {
    pub count: u64,
}

/// A published post. `likes` and `dislikes` change only through reactions.
#[derive(Clone, Debug, PartialEq)]
pub struct Post {
    pub id: u64,
    pub author: Pubkey,
    pub metadata_cid: String,
    pub ai_generated: bool,
    pub likes: u64,
    pub dislikes: u64,
    pub created_at: i64,
    pub deleted: bool,
}

impl Post {
    /// Storage reserved for a post whose content identifier is `metadata_cid`:
    /// an 8-byte type tag, then id, author, the length-prefixed identifier,
    /// the flag, both counters, the timestamp and the tombstone.
    pub fn get_space(metadata_cid: &String) -> (r: usize)
        requires
            cid_len(metadata_cid@) <= usize::MAX - 78,
        ensures
            r == 78 + cid_len(metadata_cid@),
    {
        let mut size: usize = 8;
        size += 8;  // id
        size += 32;  // author
        size += 4 + metadata_cid.as_str().as_bytes().len();  // content identifier
        size += 1;  // ai_generated
        size += 8 + 8;  // likes and dislikes
        size += 8;  // created_at
        size += 1;  // deleted
        size
    }
}

/// A comment, optionally attached to a post.
#[derive(Clone, Debug, PartialEq)]
pub struct Comment {
    pub id: u64,
    pub author: Pubkey,
    pub metadata_cid: String,
    pub parent_post: Option<u64>,
    pub created_at: i64,
    pub deleted: bool,
}

impl Comment {
    /// Storage reserved for a comment whose content identifier is
    /// `metadata_cid`: type tag, id, author, the length-prefixed identifier,
    /// the optional parent, the timestamp and the tombstone.
    pub fn get_space(metadata_cid: &String) -> (r: usize)
        requires
            cid_len(metadata_cid@) <= usize::MAX - 70,
        ensures
            r == 70 + cid_len(metadata_cid@),
    {
        let mut size: usize = 8;
        size += 8;  // id
        size += 32;  // author
        size += 4 + metadata_cid.as_str().as_bytes().len();  // content identifier
        size += 1 + 8;  // parent_post
        size += 8;  // created_at
        size += 1;  // deleted
        size
    }
}

/// One user's standing on one post: -1, 0 or 1 once `initialized`.
#[derive(Clone, Copy, Debug, PartialEq)]
pub struct Reaction {
    pub post_id: u64,
    pub user: Pubkey,
    pub value: i8,
    pub initialized: bool,
}

impl Reaction {
    /// Storage reserved for a reaction record: type tag, post id, user,
    /// value and the initialized flag.
    pub fn get_space() -> (r: usize)
        ensures
            r == 50,
    {
        let mut size: usize = 8;
        size += 8;  // post_id
        size += 32;  // user
        size += 1;  // value
        size += 1;  // initialized
        size
    }
}

} // verus!
