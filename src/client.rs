use vstd::prelude::*;
use crate::address::GrinboxAddress;
use crate::protocol::{signed_text, signing_message, ProtocolRequest, ProtocolResponse};

verus! {

/// Token of the keepalive timer on a subscriber's connection.
pub const KEEPALIVE_TOKEN: usize = 1;

/// Interval of the keepalive timer, in milliseconds.
pub const KEEPALIVE_INTERVAL_MS: u64 = 30000;

/// Scheme that may open a textual address.
pub open spec fn scheme() -> Seq<char> {
    seq!['g', 'r', 'i', 'n', 'b', 'o', 'x', ':', '/', '/']
}

/// The address text without its scheme, if it has one.
pub open spec fn without_scheme(s: Seq<char>) -> Seq<char> {
    if s.len() >= scheme().len() && s.subrange(0, scheme().len() as int) == scheme() {
        s.subrange(scheme().len() as int, s.len() as int)
    } else {
        s
    }
}

/// `k` ends the leading run of `s` that holds no `@`.
pub open spec fn is_key_end(s: Seq<char>, k: int) -> bool {
    &&& 0 <= k <= s.len()
    &&& forall|j: int| 0 <= j < k ==> s[j] != '@'
    &&& (k == s.len() || s[k] == '@')
}

/// The public key that an address text names: what follows the optional
/// scheme, up to the first `@`. `None` where that part is empty.
pub open spec fn sender_key_of(s: Seq<char>) -> Option<Seq<char>> {
    let rest = without_scheme(s);
    let k = choose|k: int| is_key_end(rest, k);
    if k == 0 { None } else { Some(rest.subrange(0, k)) }
}

proof fn lemma_key_end_unique(s: Seq<char>, k1: int, k2: int)
    requires
        is_key_end(s, k1),
        is_key_end(s, k2),
    ensures
        k1 == k2,
{
}

/// Reads the public key out of a sender's address text.
pub fn sender_key(from: &str) -> (r: Option<String>)
    ensures
        r matches Some(k) ==> sender_key_of(from@) == Some(k@),
        r is None ==> sender_key_of(from@) is None,
{
    let n = from.unicode_len();
    let prefix = "grinbox://";
    proof {
        reveal_strlit("grinbox://");
        assert(prefix@ =~= scheme());
    }
    let mut start: usize = 0;
    if n >= 10 {
        let mut same = true;
        let mut i: usize = 0;
        while i < 10
            invariant
                n == from@.len(),
                n >= 10,
                prefix@ == scheme(),
                0 <= i <= 10,
                same == (forall|j: int| 0 <= j < i ==> from@[j] == scheme()[j]),
            decreases 10 - i,
        {
            if from.get_char(i) != prefix.get_char(i) {
                same = false;
            }
            i = i + 1;
        }
        if same {
            start = 10;
            assert(from@.subrange(0, 10) =~= scheme());
        } else {
            assert(from@.subrange(0, 10) != scheme()) by {
                let j = choose|j: int| 0 <= j < 10 && from@[j] != scheme()[j];
                assert(from@.subrange(0, 10)[j] != scheme()[j]);
            }
        }
    }
    let ghost rest = without_scheme(from@);
    assert(rest =~= from@.subrange(start as int, n as int));
    let mut k: usize = start;
    while k < n && from.get_char(k) != '@'
        invariant
            n == from@.len(),
            start <= k <= n,
            rest =~= from@.subrange(start as int, n as int),
            forall|j: int| 0 <= j < k - start ==> rest[j] != '@',
        decreases n - k,
    {
        k = k + 1;
    }
    proof {
        assert(is_key_end(rest, k - start));
        let c = choose|c: int| is_key_end(rest, c);
        lemma_key_end_unique(rest, c, k - start);
    }
    if k == start {
        None
    } else {
        let key = from.substring_char(start, k);
        assert(key@ =~= rest.subrange(0, k - start));
        Some(key.to_string())
    }
}


/// A timer to arm on the connection.
#[derive(Clone, Debug, PartialEq, Eq)]
pub struct Timer {
    pub interval_ms: u64,
    pub token: usize,
}

/// What the connection does when a timer fires.
#[derive(Clone, Debug, PartialEq, Eq)]
pub enum TimerAction {
    /// Send a transport-level ping and arm the timer again.
    Ping(Timer),
    /// The timer is not one this client armed: the connection fails.
    Fail,
}

/// What the connection does with one message from the relay.
#[derive(Clone, Debug, PartialEq, Eq)]
pub enum ClientAction {
    /// Nothing.
    Ignore,
    /// The message could not be read: it is dropped and the connection stays.
    Drop,
    /// Sign `message` with the local secret key and send the request that
    /// `subscribe_request` builds from the signature.
    Subscribe { message: String },
    /// Check `signature` over `message` against `sender_key`, the public
    /// key of the address `from`, then pass the outcome to `plan_slate`.
    VerifySlate { from: String, sender_key: String, payload: String, message: String, signature: String },
    /// Show the relay's error to the operator.
    Report { kind: String, description: String },
}

/// How a received slate envelope is turned into a slate.
#[derive(Clone, Debug, PartialEq, Eq)]
pub enum SlatePlan {
    /// The signature did not verify: the slate is dropped unread.
    Reject,
    /// The envelope is the serialized slate.
    Parse { payload: String },
    /// The envelope is encrypted: decrypt it with the sender's public key and
    /// the local secret key, then parse the plaintext.
    Decrypt { envelope: String, sender_key: String },
}

/// The per-connection protocol state of a subscriber.
#[derive(Clone, Debug, PartialEq, Eq)]
pub struct GrinboxClient {
    pub address: GrinboxAddress,
    pub use_encryption: bool,
    /// The challenge of this connection, once the relay has issued it.
    pub challenge: Option<String>,
}

impl GrinboxClient {
    /// A client for a connection that has just been made: no challenge yet.
    pub fn new(address: GrinboxAddress, use_encryption: bool) -> (r: GrinboxClient)
        ensures
            r.address == address,
            r.use_encryption == use_encryption,
            r.challenge is None,
    {
        GrinboxClient { address, use_encryption, challenge: None }
    }

    /// The connection is open: arm the keepalive timer.
    pub fn on_open(&self) -> (r: Timer)
        ensures
            r.interval_ms == KEEPALIVE_INTERVAL_MS,
            r.token == KEEPALIVE_TOKEN,
    {
        Timer { interval_ms: KEEPALIVE_INTERVAL_MS, token: KEEPALIVE_TOKEN }
    }

    /// A timer fired: the keepalive one pings and is armed again; any other
    /// is an error.
    pub fn on_timeout(&self, token: usize) -> (r: TimerAction)
        ensures
            token == KEEPALIVE_TOKEN ==> (r matches TimerAction::Ping(t) && t.interval_ms
                == KEEPALIVE_INTERVAL_MS && t.token == KEEPALIVE_TOKEN),
            token != KEEPALIVE_TOKEN ==> r is Fail,
    {
        if token == KEEPALIVE_TOKEN {
            TimerAction::Ping(self.on_open())
        } else {
            TimerAction::Fail
        }
    }

    /// Handles one message from the relay; `None` stands for one that could
    /// not be read. A challenge is kept as the connection's challenge and
    /// answered with a subscription signed over the local public key and
    /// the challenge; a slate is passed on for its signature to be checked
    /// over its payload and its challenge; an error is reported.
    pub fn on_message(&mut self, response: Option<ProtocolResponse>) -> (r: ClientAction)
        ensures
            final(self).address == old(self).address,
            final(self).use_encryption == old(self).use_encryption,
            match response {
                None => r is Drop && final(self).challenge == old(self).challenge,
                Some(ProtocolResponse::Challenge { str }) => {
                    &&& final(self).challenge matches Some(c) && c@ == str@
                    &&& r matches ClientAction::Subscribe { message }
                    &&& message@ == signed_text(old(self).address.public_key@, str@)
                },
                Some(ProtocolResponse::Slate { from, str, challenge, signature }) => {
                    &&& final(self).challenge == old(self).challenge
                    &&& match sender_key_of(from@) {
                        None => r is Drop,
                        Some(key) => r matches ClientAction::VerifySlate {
                            from: f,
                            sender_key,
                            payload,
                            message,
                            signature: sig,
                        } && f@ == from@ && sender_key@ == key && payload@ == str@ && message@ == signed_text(
                            str@,
                            challenge@,
                        ) && sig@ == signature@,
                    }
                },
                Some(ProtocolResponse::Error { kind, description }) => {
                    &&& final(self).challenge == old(self).challenge
                    &&& r matches ClientAction::Report { kind: k, description: d }
                    &&& k@ == kind@ && d@ == description@
                },
                Some(ProtocolResponse::Accepted) => r is Ignore && final(self).challenge
                    == old(self).challenge,
            },
    {
        match response {
            None => ClientAction::Drop,
            Some(ProtocolResponse::Challenge { str }) => {
                let message = signing_message(self.address.public_key.as_str(), str.as_str());
                self.challenge = Some(str);
                ClientAction::Subscribe { message }
            },
            Some(ProtocolResponse::Slate { from, str, challenge, signature }) => {
                match sender_key(from.as_str()) {
                    None => ClientAction::Drop,
                    Some(sender_key) => {
                        let message = signing_message(str.as_str(), challenge.as_str());
                        ClientAction::VerifySlate { from, sender_key, payload: str, message, signature }
                    },
                }
            },
            Some(ProtocolResponse::Error { kind, description }) => ClientAction::Report {
                kind,
                description,
            },
            Some(ProtocolResponse::Accepted) => ClientAction::Ignore,
        }
    }

    /// The subscription request, carrying the local public key and the
    /// signature made over it and the challenge.
    pub fn subscribe_request(&self, signature: String) -> (r: ProtocolRequest)
        ensures
            r matches ProtocolRequest::Subscribe { address, signature: s } && address@
                == self.address.public_key@ && s@ == signature@,
    {
        ProtocolRequest::Subscribe { address: self.address.public_key.clone(), signature }
    }

    /// What becomes of a slate once its signature has been checked: a slate
    /// whose signature failed is never read; otherwise it is decrypted first
    /// where the connection uses encryption.
    pub fn plan_slate(&self, verified: bool, sender_key: String, payload: String) -> (r: SlatePlan)
        ensures
            !verified ==> r is Reject,
            verified && !self.use_encryption ==> (r matches SlatePlan::Parse { payload: p }
                && p@ == payload@),
            verified && self.use_encryption ==> (r matches SlatePlan::Decrypt {
                envelope,
                sender_key: k,
            } && envelope@ == payload@ && k@ == sender_key@),
    {
        if !verified {
            SlatePlan::Reject
        } else if self.use_encryption {
            SlatePlan::Decrypt { envelope: payload, sender_key }
        } else {
            SlatePlan::Parse { payload }
        }
    }
}

} // verus!
