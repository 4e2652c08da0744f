use vstd::prelude::*;

verus! {

/// Whether `reaction` is a value a user may request: -1, 0 or 1.
pub open spec fn is_reaction(reaction: i8) -> bool {
    reaction == -1 || reaction == 0 || reaction == 1
}

/// `x + 1`, held at `u64::MAX`.
pub open spec fn sat_inc(x: u64) -> u64 {
    if x == u64::MAX {
        x
    } else {
        (x + 1) as u64
    }
}

/// `x - 1`, held at zero.
pub open spec fn sat_dec(x: u64) -> u64 {
    if x == 0 {
        0
    } else {
        (x - 1) as u64
    }
}

/// A post's like count after a user whose standing was `prior` requests
/// `reaction`: a new like adds one, withdrawing a like removes one, and
/// repeating the standing changes nothing.
pub open spec fn likes_after(likes: u64, prior: i8, reaction: i8) -> u64 {
    if reaction == prior {
        likes
    } else if reaction == 1 {
        sat_inc(likes)
    } else if prior == 1 {
        sat_dec(likes)
    } else {
        likes
    }
}

/// A post's dislike count after a user whose standing was `prior` requests
/// `reaction`, symmetric to `likes_after`.
pub open spec fn dislikes_after(dislikes: u64, prior: i8, reaction: i8) -> u64 {
    if reaction == prior {
        dislikes
    } else if reaction == -1 {
        sat_inc(dislikes)
    } else if prior == -1 {
        sat_dec(dislikes)
    } else {
        dislikes
    }
}

} // verus!
