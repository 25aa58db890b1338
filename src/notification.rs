//! The push event and the strict decoder that builds it from a JSON value.

use vstd::prelude::*;

use crate::json::{find, lookup, Json};

verus! {

/// One accepted push: the repository to fetch and the branch that was pushed.
#[derive(Debug)]
pub struct PushNotification {
    /// The serialization of the parsed, absolute clone URL.
    pub clone_url: String,
    /// The last `/`-separated segment of the pushed ref; never empty.
    pub branch: String,
}

/// What a push notification is, as text.
pub struct PushNotificationView {
    pub clone_url: Seq<char>,
    pub branch: Seq<char>,
}

impl View for PushNotification {
    type V = PushNotificationView;

    open spec fn view(&self) -> PushNotificationView {
        PushNotificationView { clone_url: self.clone_url@, branch: self.branch@ }
    }
}

impl Clone for PushNotification {
    fn clone(&self) -> (r: PushNotification)
        ensures
            r@ == self@,
    {
        PushNotification { clone_url: self.clone_url.clone(), branch: self.branch.clone() }
    }
}

impl PartialEq for PushNotification {
    fn eq(&self, o: &PushNotification) -> (r: bool) {
        self.clone_url == o.clone_url && self.branch == o.branch
    }
}

impl vstd::std_specs::cmp::PartialEqSpecImpl for PushNotification {
    open spec fn obeys_eq_spec() -> bool {
        true
    }

    open spec fn eq_spec(&self, o: &PushNotification) -> bool {
        self@ == o@
    }
}

impl Eq for PushNotification {
}

/// A field of the push payload that the decoder reads.
#[derive(Clone, Copy, Debug, PartialEq, Eq, Structural)]
pub enum Field {
    Ref,
    Repository,
    CloneUrl,
}

impl Field {
    /// The key under which the field is stored.
    pub open spec fn key(self) -> Seq<char> {
        match self {
            Field::Ref => seq!['r', 'e', 'f'],
            Field::Repository => seq!['r', 'e', 'p', 'o', 's', 'i', 't', 'o', 'r', 'y'],
            Field::CloneUrl => seq!['c', 'l', 'o', 'n', 'e', '_', 'u', 'r', 'l'],
        }
    }

    /// Returns the key under which the field is stored.
    pub fn name(self) -> (r: String)
        ensures
            r@ == self.key(),
    {
        match self {
            Field::Ref => {
                proof {
                    reveal_strlit("ref");
                }
                "ref".to_owned()
            },
            Field::Repository => {
                proof {
                    reveal_strlit("repository");
                }
                "repository".to_owned()
            },
            Field::CloneUrl => {
                proof {
                    reveal_strlit("clone_url");
                }
                "clone_url".to_owned()
            },
        }
    }
}

/// Why a JSON value is not a push notification.
#[derive(Clone, Copy, Debug, PartialEq, Eq, Structural)]
pub enum DecodeError {
    /// The value is not an object.
    MalformedPayload,
    /// The field is absent.
    MissingField(Field),
    /// The field holds a value of the wrong kind.
    WrongType(Field),
    /// The ref is empty or ends in `/`.
    EmptyBranch,
    /// The clone URL does not parse as an absolute URL.
    InvalidUrl,
}

/// The serialization of the URL that `s` parses to, or `None` where `s` is
/// not a valid absolute URL.
pub uninterp spec fn parsed_url(s: Seq<char>) -> Option<Seq<char>>;

/// Relies on `url::Url::parse`, and on `String::from(Url)`, which hands back
/// the URL's serialization; both depend on the text alone.
#[verifier::external_body]
fn parse_url(s: &str) -> (r: Option<String>)
    ensures
        match parsed_url(s@) {
            Some(u) => r matches Some(x) && x@ == u,
            None => r is None,
        },
{
    url::Url::parse(s).ok().map(String::from)
}

/// Where the last `/`-separated segment of `s` begins: just past the last
/// `/`, or 0 where `s` holds none.
pub open spec fn segment_start(s: Seq<char>) -> int
    decreases s.len(),
{
    if s.len() == 0 {
        0
    } else if s.last() == '/' {
        s.len() as int
    } else {
        segment_start(s.drop_last())
    }
}

/// The text after the last `/` of `s`; all of `s` where it holds no `/`.
pub open spec fn last_segment(s: Seq<char>) -> Seq<char> {
    s.subrange(segment_start(s), s.len() as int)
}

proof fn lemma_segment_start_bounds(s: Seq<char>)
    ensures
        0 <= segment_start(s) <= s.len(),
    decreases s.len(),
{
    if s.len() > 0 && s.last() != '/' {
        lemma_segment_start_bounds(s.drop_last());
    }
}

/// Returns the text after the last `/` of `s`.
fn branch_of(s: &str) -> (r: String)
    ensures
        r@ == last_segment(s@),
{
    let len = s.unicode_len();
    let mut start: usize = 0;
    let mut n: usize = 0;
    for c in it: s.chars()
        invariant
            len == s@.len(),
            it.seq() == s@,
            n == it.index(),
            start == segment_start(s@.take(n as int)),
    {
        assert(s@.take(n + 1).drop_last() =~= s@.take(n as int));
        if c == '/' {
            start = n + 1;
        }
        n = n + 1;
    }
    proof {
        assert(s@.take(n as int) =~= s@);
        lemma_segment_start_bounds(s@);
    }
    s.substring_char(start, len).to_owned()
}

/// What decoding `j` gives, step by step: an object; a string `ref` with a
/// non-empty last segment; an object `repository`; a string `clone_url`
/// inside it that parses as an absolute URL.
pub open spec fn decode_spec(j: Json) -> Result<PushNotificationView, DecodeError> {
    match j {
        Json::Object(entries) => match lookup(entries@, Field::Ref.key()) {
            None => Err(DecodeError::MissingField(Field::Ref)),
            Some(Json::Str(r)) => {
                if last_segment(r@).len() == 0 {
                    Err(DecodeError::EmptyBranch)
                } else {
                    match lookup(entries@, Field::Repository.key()) {
                        None => Err(DecodeError::MissingField(Field::Repository)),
                        Some(Json::Object(repo)) => match lookup(repo@, Field::CloneUrl.key()) {
                            None => Err(DecodeError::MissingField(Field::CloneUrl)),
                            Some(Json::Str(u)) => match parsed_url(u@) {
                                None => Err(DecodeError::InvalidUrl),
                                Some(url) => Ok(
                                    PushNotificationView { clone_url: url, branch: last_segment(r@) },
                                ),
                            },
                            Some(_) => Err(DecodeError::WrongType(Field::CloneUrl)),
                        },
                        Some(_) => Err(DecodeError::WrongType(Field::Repository)),
                    }
                }
            },
            Some(_) => Err(DecodeError::WrongType(Field::Ref)),
        },
        _ => Err(DecodeError::MalformedPayload),
    }
}

/// A decoding result, as text.
pub open spec fn result_view(r: Result<PushNotification, DecodeError>) -> Result<
    PushNotificationView,
    DecodeError,
> {
    match r {
        Ok(n) => Ok(n@),
        Err(e) => Err(e),
    }
}

/// Decodes a push notification from a JSON value, stopping at the first
/// step that fails.
pub fn decode(j: &Json) -> (r: Result<PushNotification, DecodeError>)
    ensures
        result_view(r) == decode_spec(*j),
{
    let entries = match j {
        Json::Object(entries) => entries,
        _ => return Err(DecodeError::MalformedPayload),
    };
    let ref_line = match find(entries, &Field::Ref.name()) {
        None => return Err(DecodeError::MissingField(Field::Ref)),
        Some(Json::Str(r)) => r,
        Some(_) => return Err(DecodeError::WrongType(Field::Ref)),
    };
    let branch = branch_of(ref_line.as_str());
    if branch.unicode_len() == 0 {
        return Err(DecodeError::EmptyBranch);
    }
    let repo = match find(entries, &Field::Repository.name()) {
        None => return Err(DecodeError::MissingField(Field::Repository)),
        Some(Json::Object(repo)) => repo,
        Some(_) => return Err(DecodeError::WrongType(Field::Repository)),
    };
    let url_text = match find(repo, &Field::CloneUrl.name()) {
        None => return Err(DecodeError::MissingField(Field::CloneUrl)),
        Some(Json::Str(u)) => u,
        Some(_) => return Err(DecodeError::WrongType(Field::CloneUrl)),
    };
    match parse_url(url_text.as_str()) {
        None => Err(DecodeError::InvalidUrl),
        Some(clone_url) => Ok(PushNotification { clone_url, branch }),
    }
}

/// A value that can be read as a push notification.
pub trait ToNotification {
    fn to_push_notification(&self) -> Result<PushNotification, DecodeError>;
}

impl ToNotification for Json {
    fn to_push_notification(&self) -> (r: Result<PushNotification, DecodeError>)
        ensures
            result_view(r) == decode_spec(*self),
    {
        decode(self)
    }
}

/// An object whose `ref` is a string with a non-empty last segment, and whose
/// `repository` object holds a `clone_url` string that parses as an absolute
/// URL, decodes to that segment as the branch and to the parsed URL.
pub proof fn lemma_valid_push_decodes(j: Json)
    requires
        j matches Json::Object(entries) && {
            &&& lookup(entries@, Field::Ref.key()) matches Some(Json::Str(r))
            &&& last_segment(r@).len() > 0
            &&& lookup(entries@, Field::Repository.key()) matches Some(Json::Object(repo))
            &&& lookup(repo@, Field::CloneUrl.key()) matches Some(Json::Str(u))
            &&& parsed_url(u@) is Some
        },
    ensures
        j matches Json::Object(entries) && {
            &&& lookup(entries@, Field::Ref.key()) matches Some(Json::Str(r))
            &&& lookup(entries@, Field::Repository.key()) matches Some(Json::Object(repo))
            &&& lookup(repo@, Field::CloneUrl.key()) matches Some(Json::Str(u))
            &&& decode_spec(j) == Ok::<PushNotificationView, DecodeError>(
                PushNotificationView { clone_url: parsed_url(u@)->0, branch: last_segment(r@) },
            )
        },
{
}

/// A value that is not an object, or an object whose `ref` is absent or not
/// a string, whose `repository` is absent or not an object, or whose
/// `repository` holds no string `clone_url`, does not decode.
pub proof fn lemma_missing_or_mistyped_fails(j: Json)
    requires
        !(j matches Json::Object(entries) && {
            &&& lookup(entries@, Field::Ref.key()) matches Some(Json::Str(r))
            &&& lookup(entries@, Field::Repository.key()) matches Some(Json::Object(repo))
            &&& lookup(repo@, Field::CloneUrl.key()) matches Some(Json::Str(u))
        }),
    ensures
        decode_spec(j) is Err,
{
}

/// An object whose `ref` is a string that is empty or ends in `/` fails with
/// an empty branch, whatever else it holds.
pub proof fn lemma_empty_branch_fails(j: Json)
    requires
        j matches Json::Object(entries) && lookup(entries@, Field::Ref.key()) matches Some(
            Json::Str(r),
        ) && (r@.len() == 0 || r@.last() == '/'),
    ensures
        decode_spec(j) == Err::<PushNotificationView, DecodeError>(DecodeError::EmptyBranch),
{
}

/// A `clone_url` that does not parse as an absolute URL never decodes.
pub proof fn lemma_invalid_url_fails(j: Json)
    requires
        j matches Json::Object(entries) && lookup(entries@, Field::Repository.key()) matches Some(
            Json::Object(repo),
        ) && lookup(repo@, Field::CloneUrl.key()) matches Some(Json::Str(u)) && parsed_url(u@) is None,
    ensures
        decode_spec(j) is Err,
{
}

/// Two decodings of one value give equal results: equal notifications, or
/// the same error.
pub proof fn lemma_decode_deterministic(
    j: Json,
    r1: Result<PushNotification, DecodeError>,
    r2: Result<PushNotification, DecodeError>,
)
    requires
        result_view(r1) == decode_spec(j),
        result_view(r2) == decode_spec(j),
    ensures
        r1 is Ok <==> r2 is Ok,
        r1 matches Ok(a) ==> r2 matches Ok(b) && a@ == b@,
        r1 matches Err(e) ==> r2 == Err::<PushNotification, DecodeError>(e),
{
}

} // verus!
