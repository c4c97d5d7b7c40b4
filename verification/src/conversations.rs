//! One endpoint binding: `conversations.list`. The binding follows the
//! pattern every endpoint shares: build a parameter set from the typed
//! request, invoke the transport, parse the JSON envelope, and translate
//! the envelope's error code into the typed error taxonomy.

use crate::json::json_error_message;
use crate::requests::get_slack_url_for_method;
use crate::requests::SlackWebRequestSender;
use crate::text::dec_digits;
use crate::text::render_u32;
use crate::text::str_eq;
use vstd::prelude::*;
use vstd::string::StringExecFns;

verus! {

// ---------------------------------------------------------------------
// Request model
// ---------------------------------------------------------------------

/// Parameters of one `conversations.list` call. Every field is optional:
/// an absent field is omitted from the outgoing parameter set, never sent
/// with a default value.
#[derive(Clone, Debug)]
pub struct ListRequest {
    /// Don't return archived private channels.
    pub exclude_archived: Option<bool>,
    pub cursor: Option<String>,
    pub limit: Option<u32>,
    pub types: Option<String>,
}

/// The mathematical value of a request: each field as a plain value.
pub ghost struct RequestModel {
    pub exclude_archived: Option<bool>,
    pub cursor: Option<Seq<char>>,
    pub limit: Option<u32>,
    pub types: Option<Seq<char>>,
}

impl View for ListRequest {
    type V = RequestModel;

    open spec fn view(&self) -> RequestModel {
        RequestModel {
            exclude_archived: self.exclude_archived,
            cursor: match self.cursor {
                Some(c) => Some(c@),
                None => None,
            },
            limit: self.limit,
            types: match self.types {
                Some(t) => Some(t@),
                None => None,
            },
        }
    }
}

impl Default for ListRequest {
    /// The empty request: every optional field absent.
    fn default() -> (r: Self)
        ensures
            r@.exclude_archived is None,
            r@.cursor is None,
            r@.limit is None,
            r@.types is None,
    {
        ListRequest { exclude_archived: None, cursor: None, limit: None, types: None }
    }
}

// ---------------------------------------------------------------------
// Parameter builder
// ---------------------------------------------------------------------

/// How a present boolean field is rendered on the wire.
pub open spec fn bool_str(b: bool) -> Seq<char> {
    if b {
        "1"@
    } else {
        "0"@
    }
}

/// The parameter pairs a present `exclude_archived` field contributes.
pub open spec fn exclude_archived_part(r: RequestModel) -> Seq<(Seq<char>, Seq<char>)> {
    match r.exclude_archived {
        Some(b) => seq![("exclude_archived"@, bool_str(b))],
        None => Seq::empty(),
    }
}

/// The parameter pairs a present `cursor` field contributes.
pub open spec fn cursor_part(r: RequestModel) -> Seq<(Seq<char>, Seq<char>)> {
    match r.cursor {
        Some(c) => seq![("cursor"@, c)],
        None => Seq::empty(),
    }
}

/// The parameter pairs a present `limit` field contributes; the value is
/// the decimal rendering of the number.
pub open spec fn limit_part(r: RequestModel) -> Seq<(Seq<char>, Seq<char>)> {
    match r.limit {
        Some(n) => seq![("limit"@, dec_digits(n as nat))],
        None => Seq::empty(),
    }
}

/// The parameter pairs a present `types` field contributes.
pub open spec fn types_part(r: RequestModel) -> Seq<(Seq<char>, Seq<char>)> {
    match r.types {
        Some(t) => seq![("types"@, t)],
        None => Seq::empty(),
    }
}

/// The whole ordered parameter set of one call: the token always comes
/// first, and each absent field is omitted.
pub open spec fn spec_params(token: Seq<char>, r: RequestModel) -> Seq<(Seq<char>, Seq<char>)> {
    seq![("token"@, token)] + exclude_archived_part(r) + cursor_part(r) + limit_part(r)
        + types_part(r)
}

/// Builds the ordered parameter set for one call: the token first, then
/// one pair for each present optional field, rendered as the wire format
/// asks (booleans as "1"/"0", numbers in decimal).
pub fn build_params(token: &str, request: &ListRequest) -> (r: Vec<(String, String)>)
    ensures
        r.deep_view() == spec_params(token@, request@),
{
    let mut out: Vec<(String, String)> = Vec::new();
    out.push((String::from_str("token"), token.to_owned()));
    proof {
        assert(out.deep_view() =~= seq![("token"@, token@)]);
    }
    match &request.exclude_archived {
        Some(b) => {
            let rendered = if *b {
                "1"
            } else {
                "0"
            };
            out.push((String::from_str("exclude_archived"), String::from_str(rendered)));
            proof {
                assert(out.deep_view() =~= seq![("token"@, token@)] + exclude_archived_part(
                    request@,
                ));
            }
        },
        None => {},
    }
    let ghost after_ea = seq![("token"@, token@)] + exclude_archived_part(request@);
    proof {
        assert(out.deep_view() =~= after_ea);
    }
    match &request.cursor {
        Some(c) => {
            out.push((String::from_str("cursor"), c.clone()));
        },
        None => {},
    }
    let ghost after_cursor = after_ea + cursor_part(request@);
    proof {
        assert(out.deep_view() =~= after_cursor);
    }
    match request.limit {
        Some(n) => {
            out.push((String::from_str("limit"), render_u32(n)));
        },
        None => {},
    }
    let ghost after_limit = after_cursor + limit_part(request@);
    proof {
        assert(out.deep_view() =~= after_limit);
    }
    match &request.types {
        Some(t) => {
            out.push((String::from_str("types"), t.clone()));
        },
        None => {},
    }
    proof {
        assert(out.deep_view() =~= after_limit + types_part(request@));
        assert(out.deep_view() =~= spec_params(token@, request@));
    }
    out
}

/// Law: a request with every optional field absent contributes exactly
/// one parameter pair, the token.
pub proof fn lemma_params_token_only(token: Seq<char>, r: RequestModel)
    requires
        r.exclude_archived is None,
        r.cursor is None,
        r.limit is None,
        r.types is None,
    ensures
        spec_params(token, r) =~= seq![("token"@, token)],
{
}

/// Law: a present `exclude_archived` field is rendered as "1" for true
/// and "0" for false, directly after the token; an absent one leaves no
/// parameter under that name at all.
pub proof fn lemma_exclude_archived_rendering(token: Seq<char>, r: RequestModel)
    ensures
        r.exclude_archived matches Some(b) ==> spec_params(token, r)[1] == (
            "exclude_archived"@,
            if b {
                "1"@
            } else {
                "0"@
            },
        ),
        r.exclude_archived is None ==> forall|i: int|
            0 <= i < spec_params(token, r).len() ==> #[trigger] spec_params(token, r)[i].0
                != "exclude_archived"@,
{
    reveal_strlit("token");
    reveal_strlit("exclude_archived");
    reveal_strlit("cursor");
    reveal_strlit("limit");
    reveal_strlit("types");
    assert("token"@.len() == 5);
    assert("exclude_archived"@.len() == 16);
    assert("cursor"@.len() == 6);
    assert("limit"@.len() == 5);
    assert("types"@.len() == 5);
}

// ---------------------------------------------------------------------
// Response envelope
// ---------------------------------------------------------------------

/// One conversation record of a successful payload. Its shape is outside
/// this component: the raw JSON value is carried through opaquely.
#[derive(Debug)]
pub struct Conversation {
    value: serde_json::Value,
}

impl Conversation {
    /// The raw JSON value the server sent for this record.
    pub fn raw(&self) -> &serde_json::Value {
        &self.value
    }
}

/// The deserialized response envelope: a success flag (false when the
/// wire had none), an optional error code, and the optional payload.
#[derive(Debug)]
pub struct ListResponse {
    pub channels: Option<Vec<Conversation>>,
    pub error: Option<String>,
    pub ok: bool,
}

/// The mathematical value of an envelope after the success flag has been
/// defaulted; conversation records are opaque, so the payload is modeled
/// by its presence and length.
pub ghost struct ResponseModel {
    pub ok: bool,
    pub error: Option<Seq<char>>,
    pub channels: Option<nat>,
}

impl View for ListResponse {
    type V = ResponseModel;

    open spec fn view(&self) -> ResponseModel {
        ResponseModel {
            ok: self.ok,
            error: match self.error {
                Some(e) => Some(e@),
                None => None,
            },
            channels: match self.channels {
                Some(v) => Some(v@.len()),
                None => None,
            },
        }
    }
}

/// The envelope exactly as deserialized, before the success flag is
/// defaulted.
struct RawEnvelope {
    ok: Option<bool>,
    error: Option<String>,
    channels: Option<Vec<Conversation>>,
}

/// The mathematical value of a raw envelope.
pub ghost struct EnvelopeModel {
    pub ok: Option<bool>,
    pub error: Option<Seq<char>>,
    pub channels: Option<nat>,
}

impl View for RawEnvelope {
    type V = EnvelopeModel;

    closed spec fn view(&self) -> EnvelopeModel {
        EnvelopeModel {
            ok: self.ok,
            error: match self.error {
                Some(e) => Some(e@),
                None => None,
            },
            channels: match self.channels {
                Some(v) => Some(v@.len()),
                None => None,
            },
        }
    }
}

/// What deserializing a response text as the typed envelope yields:
/// `None` when the text is not one JSON object, or when a present
/// envelope field has the wrong type (a non-boolean `ok`, including
/// null; a non-string `error`; a non-array `channels`). An absent field
/// is `None` inside the model, as is a null `error` or `channels`; an
/// object with duplicate keys resolves to its last value.
pub uninterp spec fn envelope_of(s: Seq<char>) -> Option<EnvelopeModel>;

/// Relies on serde_json::from_str for a `serde_json::Map` and on
/// serde_json::from_value for each envelope field: the text
/// deserializes exactly when it is one JSON object whose present
/// envelope fields have their expected types, and the outcome depends
/// on the text alone. A null `error` or `channels` counts as absent; a
/// wrong-typed field (null `ok` included) is a parse failure carrying
/// serde_json's own diagnostic.
#[verifier::external_body]
fn deserialize_envelope(text: &str) -> (r: Result<RawEnvelope, serde_json::Error>)
    ensures
        r is Ok <==> envelope_of(text@) is Some,
        r matches Ok(raw) ==> envelope_of(text@) matches Some(e) && raw@ == e,
{
    let m: serde_json::Map<String, serde_json::Value> = serde_json::from_str(text)?;
    Ok(RawEnvelope {
        ok: m.get("ok").map(|v| serde_json::from_value(v.clone())).transpose()?,
        error: m
            .get("error")
            .map(|v| serde_json::from_value::<Option<String>>(v.clone()))
            .transpose()?
            .flatten(),
        channels: m
            .get("channels")
            .map(|v| serde_json::from_value::<Option<Vec<serde_json::Value>>>(v.clone()))
            .transpose()?
            .flatten()
            .map(|a| a.into_iter().map(|value| Conversation { value }).collect()),
    })
}

/// How a deserialized envelope becomes the response value: an absent
/// success flag defaults to false; everything else is kept as it came.
pub open spec fn response_model(e: EnvelopeModel) -> ResponseModel {
    ResponseModel {
        ok: match e.ok {
            Some(b) => b,
            None => false,
        },
        error: e.error,
        channels: e.channels,
    }
}

/// Parses a response text as the envelope. A text that does not
/// deserialize yields the parse error and nothing of the envelope.
pub fn parse_response(text: &str) -> (r: Result<ListResponse, serde_json::Error>)
    ensures
        r is Ok <==> envelope_of(text@) is Some,
        r matches Ok(resp) ==> envelope_of(text@) matches Some(e) && resp@ == response_model(e),
{
    match deserialize_envelope(text) {
        Err(e) => Err(e),
        Ok(raw) => Ok(
            ListResponse {
                ok: match raw.ok {
                    Some(b) => b,
                    None => false,
                },
                error: raw.error,
                channels: raw.channels,
            },
        ),
    }
}

// ---------------------------------------------------------------------
// Error taxonomy
// ---------------------------------------------------------------------

/// The describable-error capability required of a transport's error
/// type: a human-readable message. Implementations live with the
/// transport, outside the library.
pub trait ErrorDescription {
    fn message(&self) -> String;
}

/// Everything a `conversations.list` call can fail with: the known
/// semantic error codes, an unknown code carried verbatim, a response
/// that did not parse, and the transport's own error.
#[derive(Debug)]
pub enum ListError<E> {
    /// No authentication token provided.
    NotAuthed,
    /// Invalid authentication token.
    InvalidAuth,
    /// Authentication token is for a deleted user or team.
    AccountInactive,
    /// The method was passed an argument whose name is malformed.
    InvalidArgName,
    /// The method was passed a PHP-style array argument; these are never
    /// valid.
    InvalidArrayArg,
    /// The method was called via a POST request with an invalid charset.
    InvalidCharset,
    /// The method was called via a POST request whose form data was
    /// missing or syntactically invalid.
    InvalidFormData,
    /// The method was called via a POST request with an invalid
    /// Content-Type.
    InvalidPostType,
    /// The method was called via a POST request with a payload but no
    /// Content-Type header.
    MissingPostType,
    /// The team is undergoing migration to a larger organizational
    /// structure and is temporarily unavailable.
    TeamAddedToOrg,
    /// The method was called via a POST request whose data was missing
    /// or truncated.
    RequestTimeout,
    /// The response was not parseable as the expected envelope.
    MalformedResponse(serde_json::Error),
    /// The response returned an error code unknown to the library,
    /// preserved verbatim.
    Unknown(String),
    /// The transport had an error sending the request.
    Client(E),
}

/// The identity of an error, with the opaque payloads (the parse
/// diagnostic, the transport's error value) abstracted away.
pub ghost enum ErrorKind {
    NotAuthed,
    InvalidAuth,
    AccountInactive,
    InvalidArgName,
    InvalidArrayArg,
    InvalidCharset,
    InvalidFormData,
    InvalidPostType,
    MissingPostType,
    TeamAddedToOrg,
    RequestTimeout,
    MalformedResponse,
    Unknown(Seq<char>),
    Client,
}

/// The fixed, total lookup table from a wire error code to an error
/// kind: every known code maps to its kind, and every other string falls
/// back to `Unknown` carrying that string verbatim.
pub open spec fn error_kind_of_code(code: Seq<char>) -> ErrorKind {
    if code == "not_authed"@ {
        ErrorKind::NotAuthed
    } else if code == "invalid_auth"@ {
        ErrorKind::InvalidAuth
    } else if code == "account_inactive"@ {
        ErrorKind::AccountInactive
    } else if code == "invalid_arg_name"@ {
        ErrorKind::InvalidArgName
    } else if code == "invalid_array_arg"@ {
        ErrorKind::InvalidArrayArg
    } else if code == "invalid_charset"@ {
        ErrorKind::InvalidCharset
    } else if code == "invalid_form_data"@ {
        ErrorKind::InvalidFormData
    } else if code == "invalid_post_type"@ {
        ErrorKind::InvalidPostType
    } else if code == "missing_post_type"@ {
        ErrorKind::MissingPostType
    } else if code == "team_added_to_org"@ {
        ErrorKind::TeamAddedToOrg
    } else if code == "request_timeout"@ {
        ErrorKind::RequestTimeout
    } else {
        ErrorKind::Unknown(code)
    }
}

impl<E> ListError<E> {
    /// The identity of this error.
    pub open spec fn kind(&self) -> ErrorKind {
        match self {
            ListError::NotAuthed => ErrorKind::NotAuthed,
            ListError::InvalidAuth => ErrorKind::InvalidAuth,
            ListError::AccountInactive => ErrorKind::AccountInactive,
            ListError::InvalidArgName => ErrorKind::InvalidArgName,
            ListError::InvalidArrayArg => ErrorKind::InvalidArrayArg,
            ListError::InvalidCharset => ErrorKind::InvalidCharset,
            ListError::InvalidFormData => ErrorKind::InvalidFormData,
            ListError::InvalidPostType => ErrorKind::InvalidPostType,
            ListError::MissingPostType => ErrorKind::MissingPostType,
            ListError::TeamAddedToOrg => ErrorKind::TeamAddedToOrg,
            ListError::RequestTimeout => ErrorKind::RequestTimeout,
            ListError::MalformedResponse(_) => ErrorKind::MalformedResponse,
            ListError::Unknown(code) => ErrorKind::Unknown(code@),
            ListError::Client(_) => ErrorKind::Client,
        }
    }

    /// Translates a wire error code through the fixed lookup table,
    /// falling back to `Unknown` with the code preserved verbatim.
    pub fn from_code(code: &str) -> (r: Self)
        ensures
            r.kind() == error_kind_of_code(code@),
    {
        if str_eq(code, "not_authed") {
            ListError::NotAuthed
        } else if str_eq(code, "invalid_auth") {
            ListError::InvalidAuth
        } else if str_eq(code, "account_inactive") {
            ListError::AccountInactive
        } else if str_eq(code, "invalid_arg_name") {
            ListError::InvalidArgName
        } else if str_eq(code, "invalid_array_arg") {
            ListError::InvalidArrayArg
        } else if str_eq(code, "invalid_charset") {
            ListError::InvalidCharset
        } else if str_eq(code, "invalid_form_data") {
            ListError::InvalidFormData
        } else if str_eq(code, "invalid_post_type") {
            ListError::InvalidPostType
        } else if str_eq(code, "missing_post_type") {
            ListError::MissingPostType
        } else if str_eq(code, "team_added_to_org") {
            ListError::TeamAddedToOrg
        } else if str_eq(code, "request_timeout") {
            ListError::RequestTimeout
        } else {
            ListError::Unknown(String::from_str(code))
        }
    }

    /// Whether this error wraps an underlying one (the parse diagnostic
    /// or the transport's error value).
    pub fn has_cause(&self) -> (r: bool)
        ensures
            r == (self.kind() is MalformedResponse || self.kind() is Client),
    {
        match self {
            ListError::MalformedResponse(_) => true,
            ListError::Client(_) => true,
            _ => false,
        }
    }
}

/// What the description of an error of kind `k` must read: the known
/// kinds each carry one fixed sentence led by their wire code, an
/// unknown code is given back verbatim, and the two wrapping kinds defer
/// to their underlying error's own message.
pub open spec fn description_matches(k: ErrorKind, d: Seq<char>) -> bool {
    match k {
        ErrorKind::NotAuthed => d == "not_authed: No authentication token provided."@,
        ErrorKind::InvalidAuth => d == "invalid_auth: Invalid authentication token."@,
        ErrorKind::AccountInactive => d
            == "account_inactive: Authentication token is for a deleted user or team."@,
        ErrorKind::InvalidArgName => d
            == "invalid_arg_name: The method was passed an argument whose name falls outside the bounds of common decency. This includes very long names and names with non-alphanumeric characters other than _. If you get this error, it is typically an indication that you have made a very malformed API call."@,
        ErrorKind::InvalidArrayArg => d
            == "invalid_array_arg: The method was passed a PHP-style array argument (e.g. with a name like foo[7]). These are never valid with the Slack API."@,
        ErrorKind::InvalidCharset => d
            == "invalid_charset: The method was called via a POST request, but the charset specified in the Content-Type header was invalid. Valid charset names are: utf-8 iso-8859-1."@,
        ErrorKind::InvalidFormData => d
            == "invalid_form_data: The method was called via a POST request with Content-Type application/x-www-form-urlencoded or multipart/form-data, but the form data was either missing or syntactically invalid."@,
        ErrorKind::InvalidPostType => d
            == "invalid_post_type: The method was called via a POST request, but the specified Content-Type was invalid. Valid types are: application/x-www-form-urlencoded multipart/form-data text/plain."@,
        ErrorKind::MissingPostType => d
            == "missing_post_type: The method was called via a POST request and included a data payload, but the request did not include a Content-Type header."@,
        ErrorKind::TeamAddedToOrg => d
            == "team_added_to_org: The team associated with your request is currently undergoing migration to an Enterprise Organization. Web API and other platform operations will be intermittently unavailable until the transition is complete."@,
        ErrorKind::RequestTimeout => d
            == "request_timeout: The method was called via a POST request, but the POST data was either missing or truncated."@,
        ErrorKind::MalformedResponse => true,
        ErrorKind::Unknown(code) => d == code,
        ErrorKind::Client => true,
    }
}

impl<E: ErrorDescription> ListError<E> {
    /// A human-readable description: the known kinds read as their wire
    /// code followed by its fixed explanation; an unknown code is given
    /// back verbatim; the wrapping kinds read as their underlying
    /// error's own message.
    pub fn description(&self) -> (r: String)
        ensures
            description_matches(self.kind(), r@),
    {
        match self {
            ListError::NotAuthed => String::from_str(
                "not_authed: No authentication token provided.",
            ),
            ListError::InvalidAuth => String::from_str(
                "invalid_auth: Invalid authentication token.",
            ),
            ListError::AccountInactive => String::from_str(
                "account_inactive: Authentication token is for a deleted user or team.",
            ),
            ListError::InvalidArgName => String::from_str(
                "invalid_arg_name: The method was passed an argument whose name falls outside the bounds of common decency. This includes very long names and names with non-alphanumeric characters other than _. If you get this error, it is typically an indication that you have made a very malformed API call.",
            ),
            ListError::InvalidArrayArg => String::from_str(
                "invalid_array_arg: The method was passed a PHP-style array argument (e.g. with a name like foo[7]). These are never valid with the Slack API.",
            ),
            ListError::InvalidCharset => String::from_str(
                "invalid_charset: The method was called via a POST request, but the charset specified in the Content-Type header was invalid. Valid charset names are: utf-8 iso-8859-1.",
            ),
            ListError::InvalidFormData => String::from_str(
                "invalid_form_data: The method was called via a POST request with Content-Type application/x-www-form-urlencoded or multipart/form-data, but the form data was either missing or syntactically invalid.",
            ),
            ListError::InvalidPostType => String::from_str(
                "invalid_post_type: The method was called via a POST request, but the specified Content-Type was invalid. Valid types are: application/x-www-form-urlencoded multipart/form-data text/plain.",
            ),
            ListError::MissingPostType => String::from_str(
                "missing_post_type: The method was called via a POST request and included a data payload, but the request did not include a Content-Type header.",
            ),
            ListError::TeamAddedToOrg => String::from_str(
                "team_added_to_org: The team associated with your request is currently undergoing migration to an Enterprise Organization. Web API and other platform operations will be intermittently unavailable until the transition is complete.",
            ),
            ListError::RequestTimeout => String::from_str(
                "request_timeout: The method was called via a POST request, but the POST data was either missing or truncated.",
            ),
            ListError::MalformedResponse(e) => json_error_message(e),
            ListError::Unknown(code) => code.clone(),
            ListError::Client(inner) => inner.message(),
        }
    }
}

// ---------------------------------------------------------------------
// Validation and orchestration
// ---------------------------------------------------------------------

/// The error code an envelope carries, with an absent code tolerated as
/// the empty string.
pub open spec fn error_or_empty(e: Option<Seq<char>>) -> Seq<char> {
    match e {
        Some(code) => code,
        None => Seq::empty(),
    }
}

/// What validating an envelope with model `m` must yield: the envelope
/// itself as the success payload when its flag is set, else the error
/// its code maps to under the fixed lookup table.
pub open spec fn validated<E>(m: ResponseModel, r: Result<ListResponse, ListError<E>>) -> bool {
    if m.ok {
        r matches Ok(resp) && resp@ == m
    } else {
        r matches Err(err) && err.kind() == error_kind_of_code(error_or_empty(m.error))
    }
}

impl ListResponse {
    /// Validates the envelope: a set success flag yields the envelope
    /// itself as the payload, unchanged; a clear one maps the error code
    /// (or the empty string, when the code is absent) through the lookup
    /// table.
    pub fn into_result<E>(self) -> (r: Result<ListResponse, ListError<E>>)
        ensures
            validated::<E>(self@, r),
            self@.ok ==> r == Ok::<ListResponse, ListError<E>>(self),
    {
        if self.ok {
            Ok(self)
        } else {
            match &self.error {
                Some(code) => Err(ListError::from_code(code.as_str())),
                None => {
                    proof {
                        reveal_strlit("");
                        assert(""@ =~= Seq::<char>::empty());
                    }
                    Err(ListError::from_code(""))
                },
            }
        }
    }
}

/// What the whole parse-and-validate pipeline owes for one response
/// text: an unparseable text is a malformed response; a parsed one is
/// validated against its envelope.
pub open spec fn classified<E>(text: Seq<char>, r: Result<ListResponse, ListError<E>>) -> bool {
    match envelope_of(text) {
        None => r matches Err(err) && err.kind() == ErrorKind::MalformedResponse,
        Some(e) => validated::<E>(response_model(e), r),
    }
}

/// Parses and validates one response text. A parse failure aborts the
/// pipeline with the malformed-response error carrying the parse
/// diagnostic; no partial envelope is exposed.
pub fn process_response<E>(text: &str) -> (r: Result<ListResponse, ListError<E>>)
    ensures
        classified::<E>(text@, r),
{
    match parse_response(text) {
        Err(e) => Err(ListError::MalformedResponse(e)),
        Ok(resp) => resp.into_result(),
    }
}

/// The transport behavior one call observes: either a failure of the
/// transport itself, carrying the transport's error value, or the raw
/// response text it handed back.
pub ghost enum TransportOutcome<E> {
    Failed(E),
    Responded(Seq<char>),
}

/// The classification the blocking path owes for one transport outcome:
/// a transport failure is wrapped as the client error carrying the
/// underlying error unchanged and uninterpreted; a response text is
/// parsed and validated.
pub open spec fn blocking_classified<E>(
    o: TransportOutcome<E>,
    r: Result<ListResponse, ListError<E>>,
) -> bool {
    match o {
        TransportOutcome::Failed(e) => r == Err::<ListResponse, ListError<E>>(
            ListError::Client(e),
        ),
        TransportOutcome::Responded(text) => classified::<E>(text, r),
    }
}

/// The classification the deferred (non-blocking) path owes for one
/// transport outcome at resolution: a transport failure is wrapped as
/// the client error carrying the underlying error unchanged and
/// uninterpreted; a response text is parsed and validated.
pub open spec fn deferred_classified<E>(
    o: TransportOutcome<E>,
    r: Result<ListResponse, ListError<E>>,
) -> bool {
    match o {
        TransportOutcome::Failed(e) => r == Err::<ListResponse, ListError<E>>(
            ListError::Client(e),
        ),
        TransportOutcome::Responded(text) => classified::<E>(text, r),
    }
}

/// Finishes one call from its transport outcome. Both execution paths
/// route their outcome through this single decision function: the
/// blocking `list` directly, the deferred path at resolution, once its
/// driver has awaited the response text.
pub fn complete<E>(outcome: Result<String, E>) -> (r: Result<ListResponse, ListError<E>>)
    ensures
        outcome matches Err(e) ==> r == Err::<ListResponse, ListError<E>>(ListError::Client(e)),
        outcome matches Err(e) ==> deferred_classified::<E>(TransportOutcome::Failed(e), r),
        outcome matches Ok(text) ==> deferred_classified::<E>(
            TransportOutcome::Responded(text@),
            r,
        ),
{
    match outcome {
        Ok(text) => process_response::<E>(text.as_str()),
        Err(e) => Err(ListError::Client(e)),
    }
}

/// What a finished blocking call owes: its result is the classification
/// of whatever outcome the transport chose.
pub open spec fn list_post<E>(r: Result<ListResponse, ListError<E>>) -> bool {
    exists|o: TransportOutcome<E>| blocking_classified::<E>(o, r)
}

/// Lists conversations that the calling user has access to, blocking on
/// the transport: build the parameter set, send it to the method URL,
/// then hand the single outcome to the shared decision function. Any
/// step's failure short-circuits the rest.
pub fn list<R: SlackWebRequestSender>(client: &R, token: &str, request: &ListRequest) -> (r: Result<
    ListResponse,
    ListError<<R as SlackWebRequestSender>::Error>,
>)
    ensures
        list_post::<<R as SlackWebRequestSender>::Error>(r),
{
    let params = build_params(token, request);
    let url = get_slack_url_for_method("conversations.list");
    let outcome = client.send(url.as_str(), &params);
    let ghost chosen = outcome;
    let r = complete(outcome);
    proof {
        match chosen {
            Ok(text) => {
                assert(blocking_classified::<<R as SlackWebRequestSender>::Error>(
                    TransportOutcome::Responded(text@),
                    r,
                ));
            },
            Err(e) => {
                assert(blocking_classified::<<R as SlackWebRequestSender>::Error>(
                    TransportOutcome::Failed(e),
                    r,
                ));
            },
        }
    }
    r
}

// ---------------------------------------------------------------------
// Laws of the pipeline
// ---------------------------------------------------------------------

/// Law: given identical transport behavior, the blocking and the
/// deferred orchestration admit exactly the same result and error
/// classifications.
pub proof fn lemma_sync_async_agree<E>(o: TransportOutcome<E>, r: Result<
    ListResponse,
    ListError<E>,
>)
    ensures
        blocking_classified::<E>(o, r) == deferred_classified::<E>(o, r),
{
}

/// Law: a transport failure is classified, on either path, as exactly
/// the client error wrapping the underlying error unchanged; no
/// response body exists to be parsed or validated.
pub proof fn lemma_transport_failure_wrapped<E>(e: E, r: Result<ListResponse, ListError<E>>)
    ensures
        blocking_classified::<E>(TransportOutcome::Failed(e), r) <==> r == Err::<
            ListResponse,
            ListError<E>,
        >(ListError::Client(e)),
        deferred_classified::<E>(TransportOutcome::Failed(e), r) <==> r == Err::<
            ListResponse,
            ListError<E>,
        >(ListError::Client(e)),
{
}

/// Law: a response text that does not parse as the envelope is always
/// classified as a malformed response, never as a success payload.
pub proof fn lemma_malformed_never_success<E>(text: Seq<char>, r: Result<
    ListResponse,
    ListError<E>,
>)
    ensures
        envelope_of(text) is None && classified::<E>(text, r) ==> r is Err && r->Err_0.kind()
            == ErrorKind::MalformedResponse,
{
}

} // verus!
