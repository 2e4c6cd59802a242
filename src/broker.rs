use vstd::prelude::*;
use crate::address::{stripped_of, url_of, GrinboxAddress};
use crate::client::GrinboxClient;
use crate::lifecycle::ConnectionRegistry;
use crate::protocol::{signed_text, signing_message, ProtocolRequest, ProtocolResponse};

verus! {

/// Failures that the caller of a publisher or a subscriber is told of.
#[derive(PartialEq, Eq, Structural, Clone, Copy, Debug)]
pub enum BrokerError {
    /// The connection could not be made, or a frame could not be sent.
    Transport,
    /// The slate could not be encrypted for its recipient.
    Encryption,
}

/// What a publisher does with one message from the relay.
#[derive(Clone, Debug, PartialEq, Eq)]
pub enum PostStep {
    /// Nothing: only a challenge moves a post forward.
    Ignore,
    /// Encrypt `payload` for `recipient_key` with the local secret key, then
    /// hand the envelope and `challenge` to `envelope_step`.
    Encrypt { payload: String, recipient_key: String, challenge: String },
    /// Sign `message` with the local secret key, send the request that
    /// `post_request` builds from `envelope` and the signature, then close
    /// the connection normally.
    Sign { envelope: String, message: String },
}

/// The signing step for an envelope ready to be sent under `challenge`:
/// the signature covers the envelope followed by the challenge.
pub fn envelope_step(envelope: String, challenge: &str) -> (r: PostStep)
    ensures
        r matches PostStep::Sign { envelope: e, message } && e@ == envelope@ && message@
            == signed_text(envelope@, challenge@),
{
    let message = signing_message(envelope.as_str(), challenge);
    PostStep::Sign { envelope, message }
}

/// Posts slates from one local address, each over a connection of its own.
pub struct GrinboxPublisher {
    pub address: GrinboxAddress,
    pub secret_key: Vec<u8>,
    pub use_encryption: bool,
}

impl GrinboxPublisher {
    pub fn new(address: &GrinboxAddress, secret_key: &Vec<u8>, use_encryption: bool) -> (r: Result<
        GrinboxPublisher,
        BrokerError,
    >)
        ensures
            r matches Ok(p) && p.address.public_key@ == address.public_key@ && p.address.domain@
                == address.domain@ && p.address.port == address.port && p.secret_key@
                == secret_key@ && p.use_encryption == use_encryption,
    {
        let address = GrinboxAddress::new(
            address.public_key.clone(),
            address.domain.clone(),
            address.port,
        );
        Ok(GrinboxPublisher { address, secret_key: secret_key.clone(), use_encryption })
    }

    /// The relay to connect to for a slate addressed to `to`.
    pub fn post_url(&self, to: &GrinboxAddress) -> (r: String)
        ensures
            r@ == url_of(to.domain@, to.port),
    {
        to.url()
    }

    /// Handles one message from the relay while posting `payload` to `to`.
    /// A challenge starts the post: the payload is encrypted first where
    /// this publisher uses encryption, else it is the envelope itself and is
    /// signed together with the challenge. Anything else is ignored.
    pub fn on_response(
        &self,
        to: &GrinboxAddress,
        payload: &String,
        response: Option<ProtocolResponse>,
    ) -> (r: PostStep)
        ensures
            match response {
                Some(ProtocolResponse::Challenge { str }) => if self.use_encryption {
                    r matches PostStep::Encrypt { payload: p, recipient_key, challenge }
                        && p@ == payload@ && recipient_key@ == to.public_key@ && challenge@ == str@
                } else {
                    r matches PostStep::Sign { envelope, message } && envelope@ == payload@
                        && message@ == signed_text(payload@, str@)
                },
                _ => r is Ignore,
            },
    {
        match response {
            Some(ProtocolResponse::Challenge { str }) => {
                if self.use_encryption {
                    PostStep::Encrypt {
                        payload: payload.clone(),
                        recipient_key: to.public_key.clone(),
                        challenge: str,
                    }
                } else {
                    envelope_step(payload.clone(), str.as_str())
                }
            },
            _ => PostStep::Ignore,
        }
    }

    /// The request that posts `envelope` to the public key of `to`, from
    /// this publisher's address without its scheme.
    pub fn post_request(&self, to: &GrinboxAddress, envelope: String, signature: String) -> (r:
        ProtocolRequest)
        ensures
            r matches ProtocolRequest::PostSlate { from, to: t, str, signature: s } && from@
                == stripped_of(self.address.public_key@, self.address.domain@, self.address.port)
                && t@ == to.public_key@ && str@ == envelope@ && s@ == signature@,
    {
        ProtocolRequest::PostSlate {
            from: self.address.stripped(),
            to: to.public_key.clone(),
            str: envelope,
            signature,
        }
    }
}

/// Subscribes one local address to the slates sent to it, over one
/// long-lived connection whose handle, of type `H`, it holds while it runs.
pub struct GrinboxSubscriber<H> {
    pub address: GrinboxAddress,
    pub secret_key: Vec<u8>,
    pub use_encryption: bool,
    pub registry: ConnectionRegistry<H>,
}

impl<H> GrinboxSubscriber<H> {
    pub fn new(address: &GrinboxAddress, secret_key: &Vec<u8>, use_encryption: bool) -> (r: Result<
        GrinboxSubscriber<H>,
        BrokerError,
    >)
        ensures
            r matches Ok(s) && s.address.public_key@ == address.public_key@ && s.address.domain@
                == address.domain@ && s.address.port == address.port && s.secret_key@
                == secret_key@ && s.use_encryption == use_encryption && s.registry.handle() is None
                && !s.registry.stopping(),
    {
        let address = GrinboxAddress::new(
            address.public_key.clone(),
            address.domain.clone(),
            address.port,
        );
        Ok(GrinboxSubscriber {
            address,
            secret_key: secret_key.clone(),
            use_encryption,
            registry: ConnectionRegistry::new(),
        })
    }

    /// Starts a subscription: earlier stops no longer apply. Returns the
    /// URL of the relay to connect to.
    pub fn start(&mut self) -> (url: String)
        ensures
            url@ == url_of(old(self).address.domain@, old(self).address.port),
            final(self).address == old(self).address,
            final(self).secret_key == old(self).secret_key,
            final(self).use_encryption == old(self).use_encryption,
            final(self).registry.handle() == old(self).registry.handle(),
            !final(self).registry.stopping(),
    {
        self.registry.begin();
        self.address.url()
    }

    /// The protocol client of a connection just made.
    pub fn client(&self) -> (r: GrinboxClient)
        ensures
            r.address.public_key@ == self.address.public_key@,
            r.address.domain@ == self.address.domain@,
            r.address.port == self.address.port,
            r.use_encryption == self.use_encryption,
            r.challenge is None,
    {
        let address = GrinboxAddress::new(
            self.address.public_key.clone(),
            self.address.domain.clone(),
            self.address.port,
        );
        GrinboxClient::new(address, self.use_encryption)
    }

    /// A connection was made: its handle is registered, unless a stop came
    /// first, in which case the handle is returned to be closed normally.
    pub fn connected(&mut self, h: H) -> (r: Option<H>)
        ensures
            final(self).address == old(self).address,
            final(self).secret_key == old(self).secret_key,
            final(self).use_encryption == old(self).use_encryption,
            final(self).registry.stopping() == old(self).registry.stopping(),
            old(self).registry.stopping() ==> r == Some(h) && final(self).registry.handle()
                == old(self).registry.handle(),
            !old(self).registry.stopping() ==> r is None && final(self).registry.handle() == Some(
                h,
            ),
    {
        self.registry.install(h)
    }

    /// The connection ended: its handle is no longer registered.
    pub fn disconnected(&mut self)
        ensures
            final(self).address == old(self).address,
            final(self).secret_key == old(self).secret_key,
            final(self).use_encryption == old(self).use_encryption,
            final(self).registry.handle() is None,
            final(self).registry.stopping() == old(self).registry.stopping(),
    {
        self.registry.clear();
    }

    /// Stops the subscription: the registered handle, if any, is returned
    /// to be closed normally, and none stays registered.
    pub fn stop(&mut self) -> (r: Option<H>)
        ensures
            final(self).address == old(self).address,
            final(self).secret_key == old(self).secret_key,
            final(self).use_encryption == old(self).use_encryption,
            r == old(self).registry.handle(),
            final(self).registry.handle() is None,
            final(self).registry.stopping(),
    {
        self.registry.stop()
    }

    /// A connection handle is registered.
    pub fn is_running(&self) -> (r: bool)
        ensures
            r == self.registry.handle() is Some,
    {
        self.registry.is_running()
    }
}

} // verus!
