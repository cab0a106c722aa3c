use vstd::prelude::*;
use vstd::string::*;

verus! {

/// The error `url::Url::parse` reports.
#[verifier::external_type_specification]
#[verifier::external_body]
pub struct ExUrlParseError(url::ParseError);

/// The host of `url` as `url::Url::parse` and `Url::host` give it: `None`
/// when the text does not parse as a url, `Some(None)` when the url has no
/// host, else the host in its text form.
pub uninterp spec fn url_host(url: Seq<char>) -> Option<Option<Seq<char>>>;

/// A byte that url encoding leaves as it is: an ASCII letter or digit, or
/// one of `-`, `.`, `_`, `~`.
pub open spec fn is_unreserved_byte(b: u8) -> bool {
    (0x30 <= b && b <= 0x39) || (0x41 <= b && b <= 0x5a) || (0x61 <= b && b <= 0x7a) || b == 0x2d
        || b == 0x2e || b == 0x5f || b == 0x7e
}

/// The upper case hexadecimal digit of a value below 16.
pub open spec fn hex_digit(d: u8) -> char {
    if d < 10 {
        (0x30 + d) as char
    } else {
        (0x37 + d) as char
    }
}

/// A byte url encoded: itself when unreserved, else `%` and its two upper
/// case hexadecimal digits.
pub open spec fn percent_encoded_byte(b: u8) -> Seq<char> {
    if is_unreserved_byte(b) {
        seq![b as char]
    } else {
        seq!['%', hex_digit(b / 16), hex_digit(b % 16)]
    }
}

/// Bytes url encoded one after the other.
pub open spec fn percent_encoded(bytes: Seq<u8>) -> Seq<char>
    decreases bytes.len(),
{
    if bytes.len() == 0 {
        Seq::empty()
    } else {
        percent_encoded(bytes.drop_last()) + percent_encoded_byte(bytes.last())
    }
}

/// The text `urlencoding::encode` gives for `s`: each byte of its UTF-8
/// encoding, url encoded.
pub open spec fn url_encoded(s: Seq<char>) -> Seq<char> {
    percent_encoded(vstd::utf8::encode_utf8(s))
}

/// Parses `url` with `url::Url::parse` and takes its host with `Url::host`,
/// written out with its `Display` form. The contract claims that the result
/// is `url_host` of the text: `Err` exactly when it is `None`, and otherwise
/// the host, or its absence, that `url_host` names.
#[verifier::external_body]
fn parse_url_host(url: &str) -> (r: Result<Option<String>, url::ParseError>)
    ensures
        match r {
            Ok(Some(h)) => url_host(url@) == Some(Some(h@)),
            Ok(None) => url_host(url@) == Some(None::<Seq<char>>),
            Err(_) => url_host(url@) is None,
        },
{
    let parsed = url::Url::parse(url)?;
    Ok(parsed.host().map(|h| h.to_string()))
}

/// Percent-encodes `s` with `urlencoding::encode`. The contract claims what
/// the crate documents and its source shows: every byte of the UTF-8
/// encoding of `s` is kept when it is an ASCII letter or digit or one of
/// `-`, `.`, `_`, `~`, and is written as `%` and two upper case hexadecimal
/// digits otherwise.
#[verifier::external_body]
fn url_encode(s: &str) -> (r: String)
    ensures
        r@ == url_encoded(s@),
{
    urlencoding::encode(s).into_owned()
}

/// Why no connection query can be made from the configured host.
#[derive(Debug, Clone, Copy, PartialEq, Eq, Structural)]
pub enum HostError {
    /// The host does not parse as a url.
    InvalidUrl,
    /// The url has no host part.
    MissingHost,
}

impl HostError {
    /// The message the error is reported with.
    pub fn message(&self) -> (r: String)
        ensures
            r@ == (match *self {
                HostError::InvalidUrl => "Failed to parse config field 'host' as URL"@,
                HostError::MissingHost => "Failed to parse config field 'host' | missing host part"@,
            }),
    {
        match self {
            HostError::InvalidUrl => "Failed to parse config field 'host' as URL".to_string(),
            HostError::MissingHost => "Failed to parse config field 'host' | missing host part".to_string(),
        }
    }
}

/// The query Core identifies itself with to Periphery agents, for a host
/// name: `core=` and the url encoded host name.
pub fn connection_query_for_host(host: &str) -> (r: String)
    ensures
        r@ == "core="@ + url_encoded(host@),
{
    let encoded = url_encode(host);
    let mut query = "core=".to_string();
    query.append(encoded.as_str());
    query
}

/// The connection query for the configured host url: the query for the host
/// part of the url, or why there is none.
pub fn core_connection_query(host_url: &str) -> (r: Result<String, HostError>)
    ensures
        match url_host(host_url@) {
            None => r == Err::<String, HostError>(HostError::InvalidUrl),
            Some(None) => r == Err::<String, HostError>(HostError::MissingHost),
            Some(Some(host)) => r is Ok && r.unwrap()@ == "core="@ + url_encoded(host),
        },
{
    match parse_url_host(host_url) {
        Err(_) => Err(HostError::InvalidUrl),
        Ok(None) => Err(HostError::MissingHost),
        Ok(Some(host)) => Ok(connection_query_for_host(host.as_str())),
    }
}

} // verus!
