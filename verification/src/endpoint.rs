//! The endpoint of the service: the one host and port that the acceptor
//! listens on and that the client connects to.

use vstd::prelude::*;
use vstd::string::*;
use http::uri::InvalidUri;
use http::Uri;

verus! {

/// The `http` crate's `Uri`. It is handed to the program, which connects to
/// it; nothing inside it is read.
#[verifier::external_type_specification]
#[verifier::external_body]
pub struct ExUri(Uri);

/// The `http` crate's `InvalidUri`, the error of its parser. It is replaced
/// by [`InvalidEndpoint`] as soon as it is seen.
#[verifier::external_type_specification]
#[verifier::external_body]
pub struct ExInvalidUri(InvalidUri);

/// Whether the `http` crate's parser takes `text` for a URI.
pub uninterp spec fn parses_as_uri(text: Seq<char>) -> bool;

/// Calls `<http::Uri as FromStr>::from_str`. The parser reads nothing but
/// the text, so whether it succeeds is a function of the text; that function
/// is named here and not written out. Nothing is claimed of the URI or of the
/// error.
#[verifier::external_body]
fn parse_uri(text: &str) -> (parsed: Result<Uri, InvalidUri>)
    ensures
        parsed.is_ok() == parses_as_uri(text@),
{
    text.parse::<Uri>()
}

/// The character for the digit `d`, which is below ten.
pub open spec fn digit(d: nat) -> char {
    ('0' as u32 + d) as char
}

/// `n` in decimal, without leading zeros.
pub open spec fn decimal(n: nat) -> Seq<char>
    decreases n,
{
    if n < 10 {
        seq![digit(n)]
    } else {
        decimal(n / 10).push(digit(n % 10))
    }
}

/// The scheme under which the service is reached.
pub open spec fn scheme() -> Seq<char> {
    seq!['w', 's', ':', '/', '/']
}

/// The mathematical value of an [`Endpoint`].
pub struct EndpointView {
    pub host: Seq<char>,
    pub port: u16,
}

impl EndpointView {
    /// Host and port as a socket address is written: the host, a colon, the
    /// port in decimal.
    pub open spec fn authority(self) -> Seq<char> {
        self.host + seq![':'] + decimal(self.port as nat)
    }

    /// The address under which a client reaches the service.
    pub open spec fn url(self) -> Seq<char> {
        scheme() + self.authority()
    }
}

/// The port that the service listens on unless it is told otherwise.
pub const DEFAULT_PORT: u16 = 2000;

/// Where the service listens and where its clients connect.
#[derive(Clone, Debug, PartialEq, Eq)]
pub struct Endpoint {
    host: String,
    port: u16,
}

impl View for Endpoint {
    type V = EndpointView;

    closed spec fn view(&self) -> EndpointView {
        EndpointView { host: self.host@, port: self.port }
    }
}

/// An endpoint whose address the `http` crate does not take for a URI.
#[derive(Clone, Debug, PartialEq, Eq)]
pub struct InvalidEndpoint {
    /// The address that was refused.
    pub url: String,
}

fn digit_text(d: u16) -> (text: &'static str)
    requires
        d < 10,
    ensures
        text@ == seq![digit(d as nat)],
{
    proof {
        reveal_strlit("0");
        reveal_strlit("1");
        reveal_strlit("2");
        reveal_strlit("3");
        reveal_strlit("4");
        reveal_strlit("5");
        reveal_strlit("6");
        reveal_strlit("7");
        reveal_strlit("8");
        reveal_strlit("9");
    }
    let text = match d {
        0 => "0",
        1 => "1",
        2 => "2",
        3 => "3",
        4 => "4",
        5 => "5",
        6 => "6",
        7 => "7",
        8 => "8",
        _ => "9",
    };
    assert(text@ =~= seq![digit(d as nat)]);
    text
}

fn append_decimal(line: &mut String, n: u16)
    ensures
        final(line)@ == old(line)@ + decimal(n as nat),
    decreases n,
{
    if n >= 10 {
        append_decimal(line, n / 10);
    }
    line.append(digit_text(n % 10));
    assert(line@ =~= old(line)@ + decimal(n as nat));
}

impl Endpoint {
    /// The endpoint at `host` and `port`.
    pub fn new(host: String, port: u16) -> (endpoint: Endpoint)
        ensures
            endpoint@ == (EndpointView { host: host@, port }),
    {
        Endpoint { host, port }
    }

    /// The endpoint on this machine at the default port.
    pub fn local() -> (endpoint: Endpoint)
        ensures
            endpoint@ == (EndpointView { host: "127.0.0.1"@, port: DEFAULT_PORT }),
    {
        Endpoint { host: String::from_str("127.0.0.1"), port: DEFAULT_PORT }
    }

    /// The host.
    pub fn host(&self) -> (host: &str)
        ensures
            host@ == self@.host,
    {
        self.host.as_str()
    }

    /// The port.
    pub fn port(&self) -> (port: u16)
        ensures
            port == self@.port,
    {
        self.port
    }

    /// Host and port as the acceptor binds them.
    pub fn authority(&self) -> (text: String)
        ensures
            text@ == self@.authority(),
    {
        let mut text = self.host.clone();
        proof {
            reveal_strlit(":");
            assert(":"@ =~= seq![':']);
        }
        text.append(":");
        append_decimal(&mut text, self.port);
        text
    }

    /// The address under which a client reaches the service.
    pub fn url(&self) -> (text: String)
        ensures
            text@ == self@.url(),
    {
        proof {
            reveal_strlit("ws://");
            assert("ws://"@ =~= scheme());
        }
        let mut text = String::from_str("ws://");
        let authority = self.authority();
        text.append(authority.as_str());
        text
    }

    /// The address of the service as a URI for the client to connect to, or
    /// the address itself where the `http` crate does not take it for one.
    pub fn uri(&self) -> (target: Result<Uri, InvalidEndpoint>)
        ensures
            target.is_ok() == parses_as_uri(self@.url()),
            target matches Err(refused) ==> refused.url@ == self@.url(),
    {
        let url = self.url();
        match parse_uri(url.as_str()) {
            Ok(uri) => Ok(uri),
            Err(_) => Err(InvalidEndpoint { url }),
        }
    }
}

} // verus!
