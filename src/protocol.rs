use vstd::prelude::*;

verus! {

/// Requests that a client sends to a relay.
#[derive(Clone, Debug, PartialEq, Eq)]
pub enum ProtocolRequest {
    /// Subscribes to the slates addressed to `address`, proving ownership of
    /// its key by a signature over the address and the current challenge.
    Subscribe { address: String, signature: String },
    /// Posts a slate envelope `str` from `from` to the public key `to`.
    PostSlate { from: String, to: String, str: String, signature: String },
}

/// Responses that a relay sends to a client.
#[derive(Clone, Debug, PartialEq, Eq)]
pub enum ProtocolResponse {
    /// The relay accepted the last request.
    Accepted,
    Error { kind: String, description: String },
    Challenge { str: String },
    Slate { from: String, str: String, challenge: String, signature: String },
}

/// The bytes that a signature covers: the transmitted payload string
/// followed by the challenge string.
pub open spec fn signed_text(payload: Seq<char>, challenge: Seq<char>) -> Seq<char> {
    payload + challenge
}

/// Under challenges of one length, the signed text determines both the
/// payload and the challenge: a changed payload or a changed challenge
/// gives another text to sign.
pub proof fn lemma_signed_text_binds(p1: Seq<char>, c1: Seq<char>, p2: Seq<char>, c2: Seq<char>)
    requires
        c1.len() == c2.len(),
        signed_text(p1, c1) == signed_text(p2, c2),
    ensures
        p1 == p2,
        c1 == c2,
{
    let t = signed_text(p1, c1);
    assert(p1 =~= t.subrange(0, p1.len() as int));
    assert(p2 =~= t.subrange(0, p2.len() as int));
    assert(c1 =~= t.subrange(p1.len() as int, t.len() as int));
    assert(c2 =~= t.subrange(p2.len() as int, t.len() as int));
}

/// Builds the text that is signed by a sender and checked by a receiver.
pub fn signing_message(payload: &str, challenge: &str) -> (r: String)
    ensures
        r@ == signed_text(payload@, challenge@),
{
    let mut r = String::from_str(payload);
    r.append(challenge);
    r
}

} // verus!
