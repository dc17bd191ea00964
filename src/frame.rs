use vstd::prelude::*;

use crate::status::{decode, StatusKind};

verus! {

/// The request frame: one byte with the username's length, the username's
/// bytes, then the password's bytes up to the end of the frame.
pub open spec fn request_frame(user: Seq<u8>, pass: Seq<u8>) -> Seq<u8> {
    seq![user.len() as u8] + user + pass
}

/// The outcome of a reply: the first byte of a non-empty binary frame
/// decides; an empty frame or one that is not binary is unexpected.
pub open spec fn reply_outcome(reply: Option<Seq<u8>>) -> StatusKind {
    match reply {
        Some(b) => if b.len() > 0 {
            decode(b[0])
        } else {
            StatusKind::Unexpected
        },
        None => StatusKind::Unexpected,
    }
}

/// The mathematical value of a reply.
pub open spec fn reply_view(reply: Option<&[u8]>) -> Option<Seq<u8>> {
    match reply {
        Some(b) => Some(b@),
        None => None,
    }
}

/// Lays out a request frame for a username and a password.
pub fn encode_request(user: &[u8], pass: &[u8]) -> (r: Vec<u8>)
    requires
        user@.len() <= 255,
    ensures
        r@ == request_frame(user@, pass@),
{
    let mut frame: Vec<u8> = Vec::new();
    frame.push(user.len() as u8);
    let mut i: usize = 0;
    while i < user.len()
        invariant
            i <= user@.len(),
            frame@ == seq![user@.len() as u8] + user@.subrange(0, i as int),
        decreases user@.len() - i,
    {
        frame.push(user[i]);
        i = i + 1;
        assert(user@.subrange(0, i as int) == user@.subrange(0, i - 1) + seq![user@[i - 1]]);
    }
    assert(user@.subrange(0, user@.len() as int) == user@);
    let mut j: usize = 0;
    while j < pass.len()
        invariant
            j <= pass@.len(),
            frame@ == seq![user@.len() as u8] + user@ + pass@.subrange(0, j as int),
        decreases pass@.len() - j,
    {
        frame.push(pass[j]);
        j = j + 1;
        assert(pass@.subrange(0, j as int) == pass@.subrange(0, j - 1) + seq![pass@[j - 1]]);
    }
    assert(pass@.subrange(0, pass@.len() as int) == pass@);
    frame
}

/// The status that a reply stands for: `Some` with the bytes of a binary
/// frame, `None` for any other kind of frame.
pub fn reply_status(reply: Option<&[u8]>) -> (r: StatusKind)
    ensures
        r == reply_outcome(reply_view(reply)),
        reply_view(reply) == Some(seq![2u8]) ==> r == StatusKind::Whitelisted,
        reply is None ==> r == StatusKind::Unexpected,
        reply matches Some(b) && b@.len() == 0 ==> r == StatusKind::Unexpected,
{
    match reply {
        Some(b) => if b.len() > 0 {
            StatusKind::from_u8(&b[0])
        } else {
            StatusKind::Unexpected
        },
        None => StatusKind::Unexpected,
    }
}

} // verus!
