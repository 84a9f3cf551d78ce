use vstd::prelude::*;
use vstd::string::StringExecFns;

verus! {

/// The character of one decimal digit.
pub open spec fn digit_char(d: nat) -> char {
    seq!['0', '1', '2', '3', '4', '5', '6', '7', '8', '9'][d as int]
}

/// The decimal text of `n`, without leading zeros.
pub open spec fn decimal(n: nat) -> Seq<char>
    decreases n,
{
    if n < 10 {
        seq![digit_char(n)]
    } else {
        decimal(n / 10).push(digit_char(n % 10))
    }
}

/// Relies on `u32`'s `Display` through `to_string`: the number written in decimal.
#[verifier::external_body]
fn decimal_text(n: u32) -> (r: String)
    ensures
        r@ == decimal(n as nat),
{
    n.to_string()
}

/// Where and as whom statements are submitted.
pub struct Client {
    pub base_url: String,
    pub port: u32,
    pub user: String,
}

impl Client {
    pub fn new(base_url: &str, port: u32, user: &str) -> (r: Client)
        ensures
            r.base_url@ == base_url@,
            r.port == port,
            r.user@ == user@,
    {
        Client { base_url: String::from_str(base_url), port, user: String::from_str(user) }
    }

    /// `{base_url}:{port}` followed by `path`.
    pub open spec fn endpoint(&self, path: Seq<char>) -> Seq<char> {
        self.base_url@ + ":"@ + decimal(self.port as nat) + path
    }

    fn endpoint_uri(&self, path: &str) -> (r: String)
        ensures
            r@ == self.endpoint(path@),
    {
        let mut uri = self.base_url.clone();
        uri.append(":");
        let port = decimal_text(self.port);
        uri.append(port.as_str());
        uri.append(path);
        uri
    }

    /// The URI a statement is submitted to.
    pub fn statement_uri(&self) -> (r: String)
        ensures
            r@ == self.endpoint("/v1/statement"@),
    {
        self.endpoint_uri("/v1/statement")
    }

    /// The URI of the server's metadata.
    pub fn info_uri(&self) -> (r: String)
        ensures
            r@ == self.endpoint("/v1/info"@),
    {
        self.endpoint_uri("/v1/info")
    }
}

} // verus!
