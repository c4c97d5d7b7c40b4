use vstd::prelude::*;
use vstd::string::StringExecFns;

verus! {

/// The narrow transport capability this library is written against: one
/// operation that sends a request to a method URL with an ordered set of
/// key/value parameters and yields either the raw response text or the
/// transport's own error. Implementations (an HTTP client, a test stub)
/// live outside the library; nothing is assumed of them here, so every
/// caller must handle both outcomes.
pub trait SlackWebRequestSender {
    type Error;

    fn send(&self, method_url: &str, params: &Vec<(String, String)>) -> Result<
        String,
        Self::Error,
    >;
}

/// The fully qualified endpoint URL for a named API method.
pub fn get_slack_url_for_method(method: &str) -> (r: String)
    ensures
        r@ == "https://slack.com/api/"@ + method@,
{
    String::from_str("https://slack.com/api/").concat(method)
}

} // verus!
