use vstd::prelude::*;

verus! {

/// Port of a relay when an address names none.
pub const DEFAULT_GRINBOX_PORT: u16 = 13420;

/// The character of a decimal digit.
pub open spec fn digit_char(d: nat) -> char {
    if d == 0 { '0' }
    else if d == 1 { '1' }
    else if d == 2 { '2' }
    else if d == 3 { '3' }
    else if d == 4 { '4' }
    else if d == 5 { '5' }
    else if d == 6 { '6' }
    else if d == 7 { '7' }
    else if d == 8 { '8' }
    else { '9' }
}

/// The decimal notation of `n`, without leading zeros.
pub open spec fn decimal(n: nat) -> Seq<char>
    decreases n,
{
    if n < 10 {
        seq![digit_char(n)]
    } else {
        decimal(n / 10) + seq![digit_char(n % 10)]
    }
}

fn digit_str(d: u16) -> (r: &'static str)
    requires
        d < 10,
    ensures
        r@ == seq![digit_char(d as nat)],
{
    proof {
        reveal_strlit("0");
        reveal_strlit("1");
        reveal_strlit("2");
        reveal_strlit("3");
        reveal_strlit("4");
        reveal_strlit("5");
        reveal_strlit("6");
        reveal_strlit("7");
        reveal_strlit("8");
        reveal_strlit("9");
    }
    let r = if d == 0 { "0" }
    else if d == 1 { "1" }
    else if d == 2 { "2" }
    else if d == 3 { "3" }
    else if d == 4 { "4" }
    else if d == 5 { "5" }
    else if d == 6 { "6" }
    else if d == 7 { "7" }
    else if d == 8 { "8" }
    else { "9" };
    assert(r@ =~= seq![digit_char(d as nat)]);
    r
}

fn append_decimal(s: &mut String, n: u16)
    ensures
        final(s)@ == old(s)@ + decimal(n as nat),
    decreases n,
{
    if n >= 10 {
        append_decimal(s, n / 10);
    }
    s.append(digit_str(n % 10));
    assert(final(s)@ =~= old(s)@ + decimal(n as nat));
}

/// A relay address: the public key that names an endpoint, the relay's
/// domain, and the relay's port when one is given.
#[derive(Clone, Debug, PartialEq, Eq)]
pub struct GrinboxAddress {
    pub public_key: String,
    pub domain: String,
    pub port: Option<u16>,
}

/// The port to connect to: the given one, else the default.
pub open spec fn port_of(port: Option<u16>) -> u16 {
    match port {
        Some(p) => p,
        None => DEFAULT_GRINBOX_PORT,
    }
}

/// `wss://{domain}:{port}`.
pub open spec fn url_of(domain: Seq<char>, port: Option<u16>) -> Seq<char> {
    "wss://"@ + domain + ":"@ + decimal(port_of(port) as nat)
}

/// `{public key}@{domain}`, then `:{port}` where a port is given: the
/// address without its scheme.
pub open spec fn stripped_of(public_key: Seq<char>, domain: Seq<char>, port: Option<u16>) -> Seq<char> {
    public_key + "@"@ + domain + match port {
        Some(p) => ":"@ + decimal(p as nat),
        None => Seq::empty(),
    }
}

impl GrinboxAddress {
    pub fn new(public_key: String, domain: String, port: Option<u16>) -> (r: GrinboxAddress)
        ensures
            r.public_key@ == public_key@,
            r.domain@ == domain@,
            r.port == port,
    {
        GrinboxAddress { public_key, domain, port }
    }

    /// The secure websocket URL of the relay that serves this address.
    pub fn url(&self) -> (r: String)
        ensures
            r@ == url_of(self.domain@, self.port),
    {
        let mut r = String::from_str("wss://");
        r.append(self.domain.as_str());
        r.append(":");
        let port = match self.port {
            Some(p) => p,
            None => DEFAULT_GRINBOX_PORT,
        };
        append_decimal(&mut r, port);
        r
    }

    /// The address as sent to a relay in the `from` field of a posted slate.
    pub fn stripped(&self) -> (r: String)
        ensures
            r@ == stripped_of(self.public_key@, self.domain@, self.port),
    {
        let mut r = self.public_key.clone();
        r.append("@");
        r.append(self.domain.as_str());
        match self.port {
            Some(p) => {
                r.append(":");
                append_decimal(&mut r, p);
            },
            None => {},
        }
        r
    }
}

} // verus!
