//! The tenant's API catalog: groups, endpoints, parameters.

use vstd::prelude::*;

use crate::text::{owned_text, same_text};

verus! {

// ---------------------------------------------------------------------------
// Identifiers
// ---------------------------------------------------------------------------

/// Whether a character is a lowercase hexadecimal digit.
pub open spec fn is_lower_hex_digit(c: char) -> bool {
    ('0' <= c && c <= '9') || ('a' <= c && c <= 'f')
}

/// Whether a position of a hyphenated UUID holds one of its four hyphens.
pub open spec fn is_uuid_hyphen_position(i: int) -> bool {
    i == 8 || i == 13 || i == 18 || i == 23
}

/// The hyphenated, lowercase text form of a random (version 4, RFC 4122
/// variant) UUID, such as `"67e55044-10b1-426f-9247-bb680e5fe0c8"`: 36
/// characters, hyphens at positions 8, 13, 18 and 23, lowercase hex digits
/// elsewhere, the version digit `4` at position 14 and one of `8`, `9`, `a`,
/// `b` (the variant) at position 19.
pub open spec fn is_hyphenated_v4_uuid(s: Seq<char>) -> bool {
    &&& s.len() == 36
    &&& forall|i: int|
        0 <= i < 36 ==> if is_uuid_hyphen_position(i) {
            s[i] == '-'
        } else {
            is_lower_hex_digit(#[trigger] s[i])
        }
    &&& s[14] == '4'
    &&& (s[19] == '8' || s[19] == '9' || s[19] == 'a' || s[19] == 'b')
}

/// Draws a fresh random UUID with `uuid::Uuid::new_v4` and renders it with its
/// `Display` form.
///
/// Trusted: `new_v4` masks random bits so that the version nibble is 4 and the
/// variant bits are `10`, and `Display` writes the hyphenated lowercase form;
/// this contract states that shape of every outcome and nothing of which
/// random value comes out.
#[verifier::external_body]
fn random_uuid_text() -> (id: String)
    ensures
        is_hyphenated_v4_uuid(id@),
{
    uuid::Uuid::new_v4().to_string()
}

/// What the shape of a random UUID's text says character by character: 36
/// characters; hyphens at 8, 13, 18 and 23; `0`-`9` or `a`-`f` everywhere
/// else; version `4` at 14; variant `8`, `9`, `a` or `b` at 19.
pub proof fn lemma_uuid_text_shape(s: Seq<char>)
    requires
        is_hyphenated_v4_uuid(s),
    ensures
        s.len() == 36,
        s[8] == '-' && s[13] == '-' && s[18] == '-' && s[23] == '-',
        s[14] == '4',
        s[19] == '8' || s[19] == '9' || s[19] == 'a' || s[19] == 'b',
        forall|i: int|
            0 <= i < 36 && i != 8 && i != 13 && i != 18 && i != 23 ==> ('0' <= #[trigger] s[i]
                <= '9' || 'a' <= s[i] <= 'f'),
{
    assert(is_uuid_hyphen_position(8) && is_uuid_hyphen_position(13));
    assert(is_uuid_hyphen_position(18) && is_uuid_hyphen_position(23));
    assert(s[8] == '-' && s[13] == '-' && s[18] == '-' && s[23] == '-');
}

/// A fresh random identifier, used as the id of an API group that arrives
/// without one.
pub fn generate_uuid() -> (id: String)
    ensures
        is_hyphenated_v4_uuid(id@),
{
    random_uuid_text()
}

// ---------------------------------------------------------------------------
// Field defaults
// ---------------------------------------------------------------------------

/// The HTTP verb of an endpoint that names none.
pub fn default_verb() -> (verb: String)
    ensures
        verb@ == "GET"@,
{
    owned_text("GET")
}

/// The `required` flag of a parameter that does not say.
pub fn default_false_string() -> (flag: String)
    ensures
        flag@ == "false"@,
{
    owned_text("false")
}

// ---------------------------------------------------------------------------
// The flexible `required` flag
// ---------------------------------------------------------------------------

/// The two shapes a parameter's `required` flag arrives in: a JSON boolean,
/// or a string. Uploaded OpenAPI configs use both spellings.
#[derive(Debug, Clone, PartialEq)]
pub enum FlexibleBool {
    Bool(bool),
    Text(String),
}

/// A `required` flag given as a string that, lowercased, is neither `"true"`
/// nor `"false"`.
#[derive(Debug, Clone, Copy, PartialEq, Eq, Structural)]
pub enum RequiredFlagError {
    InvalidBooleanString,
}

impl RequiredFlagError {
    /// The message the refusal is reported with.
    pub fn message(&self) -> (text: &'static str)
        ensures
            text@ == "Invalid boolean string, must be 'true' or 'false'"@,
    {
        "Invalid boolean string, must be 'true' or 'false'"
    }
}

/// Whether every character of a text is ASCII.
pub open spec fn is_ascii_text(s: Seq<char>) -> bool {
    forall|i: int| 0 <= i < s.len() ==> (#[trigger] s[i] as u32) < 128
}

/// The lowercase of one ASCII character: `A`..`Z` become `a`..`z`, every other
/// character stays.
pub open spec fn ascii_lower_char(c: char) -> char {
    if 'A' <= c && c <= 'Z' {
        ((c as u32) + 32) as char
    } else {
        c
    }
}

/// The lowercase of a text, character by character, under the ASCII mapping.
pub open spec fn ascii_lowercase(s: Seq<char>) -> Seq<char> {
    Seq::new(s.len(), |i: int| ascii_lower_char(s[i]))
}

/// The lowercase form of a text, as `str::to_lowercase` computes it (Unicode
/// lowercase mapping).
pub uninterp spec fn unicode_lowercase(s: Seq<char>) -> Seq<char>;

/// `str::to_lowercase`.
///
/// Trusted: the result is named by `unicode_lowercase` applied to the input's
/// characters. Of the Unicode mapping only its ASCII part is stated: on an
/// all-ASCII text it lowercases `A`..`Z` and leaves every other character, as
/// Unicode's lowercase mapping does for ASCII; nothing is stated of other
/// characters.
#[verifier::external_body]
fn lowercase(s: &str) -> (lower: String)
    ensures
        lower@ == unicode_lowercase(s@),
        is_ascii_text(s@) ==> lower@ == ascii_lowercase(s@),
{
    s.to_lowercase()
}

/// The text of a boolean, as `bool::to_string` writes it.
pub open spec fn bool_text(b: bool) -> Seq<char> {
    if b {
        "true"@
    } else {
        "false"@
    }
}

/// The lowercased spellings that the flag accepts.
pub open spec fn is_flag_spelling(lower: Seq<char>) -> bool {
    lower == "true"@ || lower == "false"@
}

/// The flag that a lowercased spelling gives: itself when it is `"true"` or
/// `"false"`, none otherwise.
pub open spec fn flag_of_lowercase(lower: Seq<char>) -> Option<Seq<char>> {
    if is_flag_spelling(lower) {
        Some(lower)
    } else {
        None
    }
}

/// The normalised `required` flag of a raw value, or none when it is refused:
/// a boolean gives its text; a string gives its lowercase if that is `"true"`
/// or `"false"`.
pub open spec fn required_flag(raw: FlexibleBool) -> Option<Seq<char>> {
    match raw {
        FlexibleBool::Bool(b) => Some(bool_text(b)),
        FlexibleBool::Text(s) => flag_of_lowercase(unicode_lowercase(s@)),
    }
}

/// What normalising `raw` may give: `Ok` with the normalised flag exactly when
/// there is one, and otherwise the refusal. For an all-ASCII string the flag
/// is also the one its ASCII lowercase gives.
pub open spec fn is_flag_outcome(raw: FlexibleBool, flag: Result<String, RequiredFlagError>) -> bool {
    &&& flag is Ok <==> required_flag(raw) is Some
    &&& flag matches Ok(f) ==> required_flag(raw) == Some(f@)
    &&& flag matches Err(e) ==> e == RequiredFlagError::InvalidBooleanString
    &&& raw matches FlexibleBool::Text(s) ==> (is_ascii_text(s@) ==> required_flag(raw)
        == flag_of_lowercase(ascii_lowercase(s@)))
}

/// Decides a flag given as text, once the text has been lowercased: the two
/// spellings `"true"` and `"false"` are kept as they are; anything else is
/// refused.
pub fn accept_lowercased_flag(lower: String) -> (flag: Result<String, RequiredFlagError>)
    ensures
        flag is Ok <==> is_flag_spelling(lower@),
        flag is Ok <==> (lower@ == "true"@ || lower@ == "false"@),
        flag matches Ok(f) ==> f@ == lower@,
        flag matches Err(e) ==> e == RequiredFlagError::InvalidBooleanString,
{
    if same_text(lower.as_str(), "true") || same_text(lower.as_str(), "false") {
        Ok(lower)
    } else {
        Err(RequiredFlagError::InvalidBooleanString)
    }
}

/// Normalises a parameter's `required` flag to the lowercase strings `"true"`
/// or `"false"`: a boolean is written as its text; a string is lowercased and
/// kept if it then reads `"true"` or `"false"`, and refused otherwise.
pub fn deserialize_flexible_bool(raw: FlexibleBool) -> (flag: Result<String, RequiredFlagError>)
    ensures
        is_flag_outcome(raw, flag),
        raw matches FlexibleBool::Bool(b) ==> (flag matches Ok(f) && f@ == bool_text(b)),
        raw matches FlexibleBool::Text(s) ==> {
            &&& flag is Ok <==> is_flag_spelling(unicode_lowercase(s@))
            &&& flag matches Ok(f) ==> f@ == unicode_lowercase(s@)
        },
        flag matches Ok(f) ==> is_flag_spelling(f@),
        flag matches Ok(f) ==> (f@ == "true"@ || f@ == "false"@),
        raw matches FlexibleBool::Bool(b) ==> (flag matches Ok(f) && f@ == (if b {
            "true"@
        } else {
            "false"@
        })),
        raw matches FlexibleBool::Text(s) ==> (flag is Ok <==> (unicode_lowercase(s@) == "true"@
            || unicode_lowercase(s@) == "false"@)),
{
    match raw {
        FlexibleBool::Bool(b) => {
            if b {
                Ok(owned_text("true"))
            } else {
                Ok(owned_text("false"))
            }
        },
        FlexibleBool::Text(s) => accept_lowercased_flag(lowercase(s.as_str())),
    }
}

/// The flag's accepted spellings are exactly `"true"` and `"false"`, a boolean
/// is written as `"true"` or `"false"`, and whatever the normalised flag of a
/// raw value is, it is one of those two.
pub proof fn lemma_flag_values(raw: FlexibleBool, lower: Seq<char>)
    ensures
        is_flag_spelling(lower) <==> (lower == "true"@ || lower == "false"@),
        flag_of_lowercase(lower) is Some <==> (lower == "true"@ || lower == "false"@),
        flag_of_lowercase(lower) matches Some(f) ==> f == lower,
        bool_text(true) == "true"@,
        bool_text(false) == "false"@,
        required_flag(raw) matches Some(f) ==> (f == "true"@ || f == "false"@),
        raw matches FlexibleBool::Bool(b) ==> required_flag(raw) == Some(if b {
            "true"@
        } else {
            "false"@
        }),
{
}

/// The two flag spellings are lowercase ASCII, so lowercasing leaves them as
/// they are.
pub proof fn lemma_flag_spellings_are_lowercase_ascii(spelling: Seq<char>)
    requires
        is_flag_spelling(spelling),
    ensures
        is_ascii_text(spelling),
        ascii_lowercase(spelling) == spelling,
        flag_of_lowercase(ascii_lowercase(spelling)) == Some(spelling),
{
    reveal_strlit("true");
    reveal_strlit("false");
    assert(ascii_lowercase(spelling) =~= spelling);
}

/// A normalised flag reads back unchanged: whatever normalising a raw value
/// gave, normalising that string again gives the same string. So a
/// parameter's `required` survives being written out and read in again.
pub proof fn lemma_normalised_flag_reads_back(
    raw: FlexibleBool,
    first: Result<String, RequiredFlagError>,
    again: String,
    second: Result<String, RequiredFlagError>,
)
    requires
        is_flag_outcome(raw, first),
        first matches Ok(f) && again@ == f@,
        is_flag_outcome(FlexibleBool::Text(again), second),
    ensures
        second matches Ok(g) && first matches Ok(f) && g@ == f@,
{
    let f = first->Ok_0;
    reveal_strlit("true");
    reveal_strlit("false");
    assert(is_flag_spelling(f@));
    lemma_flag_spellings_are_lowercase_ascii(f@);
}

/// The flag depends only on the lowercased spelling: two strings with the same
/// lowercase give the same outcome, and a boolean gives the same outcome as
/// the string that spells it.
pub proof fn lemma_flag_depends_on_lowercase_only(
    raw: FlexibleBool,
    first: Result<String, RequiredFlagError>,
    text: String,
    second: Result<String, RequiredFlagError>,
)
    requires
        is_flag_outcome(raw, first),
        is_flag_outcome(FlexibleBool::Text(text), second),
        match raw {
            FlexibleBool::Text(s) => unicode_lowercase(s@) == unicode_lowercase(text@),
            FlexibleBool::Bool(b) => text@ == bool_text(b),
        },
    ensures
        first is Ok <==> second is Ok,
        first matches Ok(f) ==> second matches Ok(g) && g@ == f@,
{
    if let FlexibleBool::Bool(b) = raw {
        reveal_strlit("true");
        reveal_strlit("false");
        lemma_flag_spellings_are_lowercase_ascii(bool_text(b));
    }
}

// ---------------------------------------------------------------------------
// Catalog payloads
// ---------------------------------------------------------------------------

/// A parameter of an endpoint. On the wire `description` defaults to empty,
/// `required` to `"false"` (and accepts a boolean or a string, see
/// [`deserialize_flexible_bool`]), `alternatives` to none.
#[derive(Debug, PartialEq, Clone)]
pub struct Parameter {
    pub name: String,
    pub description: String,
    pub required: String,
    pub alternatives: Vec<String>,
}

/// An endpoint of an API group. On the wire every field but `text` may be
/// left out: `verb` (also accepted as `method`) defaults to `"GET"`, the
/// strings to empty, the lists to none and the options to `None`.
#[derive(Debug, PartialEq, Clone)]
pub struct Endpoint {
    /// May be empty; it is generated later.
    pub id: String,
    pub text: String,
    pub description: String,
    pub parameters: Vec<Parameter>,
    pub verb: String,
    /// May be empty; the endpoint then inherits its group's base.
    pub base: String,
    pub path: String,
    pub suggested_sentence: String,
    /// May be empty; it is set by the parent group.
    pub group_id: String,
    /// Content-Type for the outgoing request body. `None` means `application/json`.
    ///
    /// Set it when the backend wants something else: Azure DevOps work items,
    /// for instance, take `application/json-patch+json`.
    pub content_type: Option<String>,
    /// JSON body to send, as a string, with `{param}` placeholders filled from the
    /// call's arguments. `None` means send the arguments object as-is.
    ///
    /// This is what lets an endpoint describe a body whose shape is not a flat
    /// object, a JSON Patch array, say. Placeholders with no matching argument
    /// cause their array element or object entry to be dropped, so optional
    /// fields can simply be left out of a call.
    pub body_template: Option<String>,
    /// Whether api0's own identity headers (`X-Internal-Secret`, `X-User-Email`,
    /// `X-Tenant-Id`) travel with the call. `None` inherits the group's setting,
    /// and a group that says nothing means `true`.
    ///
    /// Set it to `false` for anything pointed at a third-party API: those headers
    /// identify the caller to a *first-party* backend and carry the internal
    /// secret, which has no business reaching someone else's cloud.
    pub forward_identity: Option<bool>,
}

impl Endpoint {
    /// Whether api0's identity headers travel with a call to this endpoint of
    /// `group`: the endpoint's own setting wins, then the group's, and when
    /// neither says, they do.
    pub open spec fn spec_forwards_identity(self, group: ApiGroup) -> bool {
        match self.forward_identity {
            Some(own) => own,
            None => match group.forward_identity {
                Some(inherited) => inherited,
                None => true,
            },
        }
    }

    /// The Content-Type of the request body sent to this endpoint; `None`
    /// stands for `application/json`.
    pub open spec fn spec_request_content_type(self) -> Seq<char> {
        match self.content_type {
            Some(c) => c@,
            None => "application/json"@,
        }
    }

    /// Whether api0's identity headers (`X-Internal-Secret`, `X-User-Email`,
    /// `X-Tenant-Id`) travel with a call to this endpoint of `group`.
    pub fn forwards_identity(&self, group: &ApiGroup) -> (forward: bool)
        ensures
            forward == self.spec_forwards_identity(*group),
            self.forward_identity matches Some(own) ==> forward == own,
            self.forward_identity is None ==> (group.forward_identity matches Some(inherited)
                ==> forward == inherited),
            self.forward_identity is None && group.forward_identity is None ==> forward,
    {
        match self.forward_identity {
            Some(own) => own,
            None => match group.forward_identity {
                Some(inherited) => inherited,
                None => true,
            },
        }
    }

    /// The Content-Type of the request body sent to this endpoint.
    pub fn request_content_type(&self) -> (content_type: String)
        ensures
            content_type@ == self.spec_request_content_type(),
            self.content_type matches Some(c) ==> content_type@ == c@,
            self.content_type is None ==> content_type@ == "application/json"@,
    {
        match &self.content_type {
            Some(c) => c.clone(),
            None => owned_text("application/json"),
        }
    }
}

/// An API group. On the wire a missing `id` is filled with a fresh
/// [`generate_uuid`]; the other strings default to empty.
#[derive(Debug, PartialEq, Clone)]
pub struct ApiGroup {
    pub id: String,
    pub name: String,
    pub description: String,
    pub base: String,
    pub tenant_id: String,
    /// Default `forward_identity` for the group's endpoints. An endpoint that
    /// sets its own wins; `None` here means `true`, the historical behaviour.
    pub forward_identity: Option<bool>,
}

/// A group with its endpoints; on the wire the group's fields sit at the top
/// level, beside `endpoints`.
#[derive(Debug, PartialEq, Clone)]
pub struct ApiGroupWithEndpoints {
    pub group: ApiGroup,
    pub endpoints: Vec<Endpoint>,
}

#[derive(Debug, PartialEq, Clone)]
pub struct ApiStorage {
    pub api_groups: Vec<ApiGroupWithEndpoints>,
}

#[derive(Debug, Clone, PartialEq)]
pub struct AddApiGroupRequest {
    pub email: String,
    pub api_group: ApiGroupWithEndpoints,
}

#[derive(Debug, Clone, PartialEq)]
pub struct UpdateApiGroupRequest {
    pub email: String,
    pub group_id: String,
    pub api_group: ApiGroupWithEndpoints,
}

#[derive(Debug, PartialEq, Clone)]
pub struct UserPreferences {
    pub email: String,
    /// Ids of default endpoints the user has hidden.
    pub hidden_defaults: Vec<String>,
    pub default_tenant_id: Option<String>,
}

#[derive(Debug, PartialEq, Clone)]
pub struct UpdatePreferenceRequest {
    pub email: String,
    /// "hide_default" or "show_default"
    pub action: String,
    pub endpoint_id: String,
}

/// The content-type rule: a configured content type is sent as it is, and
/// only an endpoint that configures none falls back to `application/json`.
pub proof fn lemma_content_type_resolution(endpoint: Endpoint)
    ensures
        endpoint.content_type matches Some(c) ==> endpoint.spec_request_content_type() == c@,
        endpoint.content_type is None ==> endpoint.spec_request_content_type()
            == "application/json"@,
{
}

/// The identity-forwarding rule: an endpoint that sets its own setting wins
/// whatever its group says; an endpoint that says nothing follows its group;
/// and where neither says, the headers travel (the historical behaviour).
pub proof fn lemma_forward_identity_resolution(endpoint: Endpoint, group: ApiGroup)
    ensures
        endpoint.forward_identity matches Some(own) ==> endpoint.spec_forwards_identity(group)
            == own,
        endpoint.forward_identity is None ==> endpoint.spec_forwards_identity(group) == match group.forward_identity {
            Some(inherited) => inherited,
            None => true,
        },
        endpoint.forward_identity is None && group.forward_identity is None
            ==> endpoint.spec_forwards_identity(group),
{
}

} // verus!
