use vstd::prelude::*;
use vstd::string::StringExecFns;

verus! {

/// Credentials and endpoints of the SMS sink.
#[derive(Debug, PartialEq)]
pub struct Config {
    pub api_url: String,
    pub api_key: String,
    pub api_key_secret: String,
    pub account_sid: String,
    pub phone_number_from: String,
    pub phone_number_to: String,
}

/// The SMS sink's client state; the HTTP call itself happens outside this
/// library.
pub struct Client {
    pub config: Config,
}

/// What a delivery receipt carries.
#[derive(Debug, PartialEq)]
pub struct SendMessageResponseBody {
    pub uri: String,
}

/// What `urlencoding::encode` returns: percent-encoding, a function of the
/// characters alone.
pub uninterp spec fn urlenc_of(s: Seq<char>) -> Seq<char>;

/// Relies on urlencoding::encode: the result depends on the characters alone.
#[verifier::external_body]
fn urlencode(s: &str) -> (r: String)
    ensures
        r@ == urlenc_of(s@),
{
    urlencoding::encode(s).into_owned()
}

/// The form body of a text-message send request, each part percent-encoded.
pub fn sms_body(body: &str, from: &str, to: &str) -> (r: String)
    ensures
        r@ == "Body="@ + urlenc_of(body@) + "&From="@ + urlenc_of(from@) + "&To="@ + urlenc_of(
            to@,
        ),
{
    let mut out = "Body=".to_owned();
    let b = urlencode(body);
    out.append(b.as_str());
    out.append("&From=");
    let f = urlencode(from);
    out.append(f.as_str());
    out.append("&To=");
    let t = urlencode(to);
    out.append(t.as_str());
    out
}

impl Client {
    pub fn new(config: Config) -> (r: Self)
        ensures
            r.config == config,
    {
        Self { config }
    }
}

} // verus!
