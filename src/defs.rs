use vstd::prelude::*;
use vstd::string::StringExecFns;
use crate::json::{JsonValue, opt_view, spec_first, spec_get, spec_get_str};

verus! {

/// The upstream that a refresh was talking to when it failed.
#[derive(Debug, Clone, Copy, PartialEq, Eq, Structural)]
pub enum Source {
    Records,
    Chat,
}

/// What went wrong in a refresh.
#[derive(Debug, Clone, Copy, PartialEq, Eq, Structural)]
pub enum FetchErrorKind {
    /// The upstream could not be reached, or did not answer in time.
    UpstreamUnavailable(Source),
    /// The upstream answered with an error of its own.
    UpstreamError(Source),
    /// The upstream's answer lacks something that is required.
    MalformedUpstream(Source),
    /// A record lacks one of its required fields.
    MalformedRecord,
}

/// Why a refresh failed, with a line for the operator.
#[derive(Debug)]
pub struct TeamFetchError {
    pub kind: FetchErrorKind,
    pub message: String,
}

/// The error as one line, named for its type.
pub open spec fn log_line(message: Seq<char>) -> Seq<char> {
    "TeamFetchError: "@ + message
}

impl TeamFetchError {
    pub fn new(kind: FetchErrorKind, message: String) -> (r: Self)
        ensures
            r.kind == kind,
            r.message == message,
    {
        Self { kind, message }
    }

    /// The text to log for this error: its message.
    pub fn log(&self) -> (r: String)
        ensures
            r@ == self.message@,
    {
        self.message.clone()
    }

    /// The error as one line, named for its type.
    pub fn describe(&self) -> (r: String)
        ensures
            r@ == log_line(self.message@),
    {
        let mut line = String::from_str("TeamFetchError: ");
        line.append(self.message.as_str());
        line
    }
}

/// What the chat platform holds of a person's profile.
#[derive(Debug)]
pub struct ChatProfile {
    pub pronouns: Option<String>,
    pub avatar_hash: String,
    pub display_name: String,
}

/// One person of the team.
#[derive(Debug)]
pub struct TeamMember {
    pub name: String,
    pub bio: Option<String>,
    pub department: String,
    pub role: String,
    pub bio_hackfoundation: Option<String>,
    pub pronouns: Option<String>,
    pub slack_id: Option<String>,
    pub slack_display_name: Option<String>,
    /// Either the record's override avatar or the chat platform's picture.
    pub avatar: Option<String>,
    /// Tells versions of the avatar apart; present exactly when `avatar` is.
    pub avatar_id: Option<String>,
    pub email: Option<String>,
}

/// A snapshot of the team.
#[derive(Debug)]
pub struct Team {
    /// The build of the server that made the snapshot.
    pub version: String,
    /// When the snapshot was completed, in seconds since the Unix epoch.
    pub refreshed_at: u64,
    pub current: Vec<TeamMember>,
    pub alumni: Vec<TeamMember>,
}

/// One field name when the field differs, none otherwise.
pub open spec fn change_if(differs: bool, field: Seq<char>) -> Seq<Seq<char>> {
    if differs {
        seq![field]
    } else {
        Seq::empty()
    }
}

/// The tracked fields in which two members differ, in canonical order.
pub open spec fn tracked_changes(a: TeamMember, b: TeamMember) -> Seq<Seq<char>> {
    change_if(a.name@ != b.name@, "name"@)
        + change_if(opt_view(a.bio) != opt_view(b.bio), "bio"@)
        + change_if(a.department@ != b.department@, "department"@)
        + change_if(a.role@ != b.role@, "role"@)
        + change_if(opt_view(a.bio_hackfoundation) != opt_view(b.bio_hackfoundation), "bio_alt"@)
        + change_if(opt_view(a.avatar_id) != opt_view(b.avatar_id), "avatar"@)
        + change_if(opt_view(a.email) != opt_view(b.email), "email"@)
}

/// The picture of a chat user, at 128 pixels, from the chat platform's CDN.
pub open spec fn avatar_url(slack_id: Seq<char>, avatar_hash: Seq<char>) -> Seq<char> {
    "https://ca.slack-edge.com/T0266FRGM-"@ + slack_id + "-"@ + avatar_hash + "-128"@
}

/// The large thumbnail of the first override avatar of a record, when the
/// record has one.
pub open spec fn override_thumbnail(record: JsonValue) -> Option<JsonValue> {
    match spec_get(record, "Override Avatar"@) {
        Some(list) => match spec_first(list) {
            Some(first) => match spec_get(first, "thumbnails"@) {
                Some(thumbnails) => spec_get(thumbnails, "large"@),
                None => None,
            },
            None => None,
        },
        None => None,
    }
}

/// The override avatar's address and identifier, when the record carries
/// both.
pub open spec fn override_avatar(record: JsonValue) -> Option<(Seq<char>, Seq<char>)> {
    match override_thumbnail(record) {
        Some(large) => match (spec_get_str(large, "url"@), spec_get_str(large, "id"@)) {
            (Some(url), Some(id)) => Some((url, id)),
            _ => None,
        },
        None => None,
    }
}

/// Whether a record holds every required field as a string.
pub open spec fn record_complete(record: JsonValue) -> bool {
    &&& spec_get_str(record, "Name"@).is_some()
    &&& spec_get_str(record, "Department"@).is_some()
    &&& spec_get_str(record, "Role"@).is_some()
}

/// The chat profile that takes part in a record: the given one, when the
/// record names a chat user.
pub open spec fn joined(record: JsonValue, profile: Option<ChatProfile>) -> Option<ChatProfile> {
    if spec_get_str(record, "Slack ID"@).is_some() {
        profile
    } else {
        None
    }
}

/// The avatar address of the member made from a record and a profile.
pub open spec fn spec_avatar(record: JsonValue, profile: Option<ChatProfile>) -> Option<Seq<char>> {
    match override_avatar(record) {
        Some((url, _)) => Some(url),
        None => match joined(record, profile) {
            Some(p) => Some(avatar_url(spec_get_str(record, "Slack ID"@)->Some_0, p.avatar_hash@)),
            None => None,
        },
    }
}

/// The avatar identifier of the member made from a record and a profile.
pub open spec fn spec_avatar_id(record: JsonValue, profile: Option<ChatProfile>) -> Option<Seq<char>> {
    match override_avatar(record) {
        Some((_, id)) => Some(id),
        None => match joined(record, profile) {
            Some(p) => Some(p.avatar_hash@),
            None => None,
        },
    }
}

/// Whether `m` is the member made from `record` and `profile`.
pub open spec fn normalized(m: TeamMember, record: JsonValue, profile: Option<ChatProfile>) -> bool {
    &&& Some(m.name@) == spec_get_str(record, "Name"@)
    &&& Some(m.department@) == spec_get_str(record, "Department"@)
    &&& Some(m.role@) == spec_get_str(record, "Role"@)
    &&& opt_view(m.bio) == spec_get_str(record, "Bio"@)
    &&& opt_view(m.bio_hackfoundation) == spec_get_str(record, "Bio (Hack Foundation)"@)
    &&& opt_view(m.email) == spec_get_str(record, "Email"@)
    &&& opt_view(m.slack_id) == spec_get_str(record, "Slack ID"@)
    &&& opt_view(m.pronouns) == match joined(record, profile) {
        Some(p) => opt_view(p.pronouns),
        None => None,
    }
    &&& opt_view(m.slack_display_name) == match joined(record, profile) {
        Some(p) => Some(p.display_name@),
        None => None,
    }
    &&& opt_view(m.avatar) == spec_avatar(record, profile)
    &&& opt_view(m.avatar_id) == spec_avatar_id(record, profile)
}

/// The fields of the member invariant: the chat-derived fields stand only
/// beside a chat user, and the avatar comes with its identifier.
pub open spec fn member_wf(m: TeamMember) -> bool {
    &&& m.slack_id.is_none() ==> m.pronouns.is_none() && m.slack_display_name.is_none()
    &&& m.avatar.is_some() == m.avatar_id.is_some()
}

/// An override avatar on a record decides the member's avatar, whatever
/// chat profile is joined.
pub proof fn lemma_override_precedence(
    m: TeamMember,
    record: JsonValue,
    profile: Option<ChatProfile>,
    url: Seq<char>,
    id: Seq<char>,
)
    requires
        normalized(m, record, profile),
        override_avatar(record) == Some((url, id)),
    ensures
        opt_view(m.avatar) == Some(url),
        opt_view(m.avatar_id) == Some(id),
{
}

/// Whether two optional texts are equal.
pub fn opt_eq(a: &Option<String>, b: &Option<String>) -> (r: bool)
    ensures
        r == (opt_view(*a) == opt_view(*b)),
{
    match a {
        Some(x) => match b {
            Some(y) => x.eq(y),
            None => false,
        },
        None => b.is_none(),
    }
}

fn clone_opt(a: &Option<String>) -> (r: Option<String>)
    ensures
        r == *a,
{
    match a {
        Some(s) => Some(s.clone()),
        None => None,
    }
}

/// The override avatar of a record, read as `override_avatar` states.
fn read_override(json: &JsonValue) -> (r: Option<(String, String)>)
    ensures
        match r {
            Some((url, id)) => override_avatar(*json) == Some((url@, id@)),
            None => override_avatar(*json).is_none(),
        },
{
    let list = match json.get("Override Avatar") {
        Some(v) => v,
        None => return None,
    };
    let first = match list.as_array() {
        Some(items) => if items.len() > 0 {
            &items[0]
        } else {
            return None;
        },
        None => return None,
    };
    let large = match first.get("thumbnails") {
        Some(t) => match t.get("large") {
            Some(l) => l,
            None => return None,
        },
        None => return None,
    };
    match (large.get_string("url"), large.get_string("id")) {
        (Some(url), Some(id)) => Some((url, id)),
        _ => None,
    }
}

/// The picture address of a chat user, at 128 pixels.
pub fn make_avatar_url(slack_id: &str, avatar_hash: &str) -> (r: String)
    ensures
        r@ == avatar_url(slack_id@, avatar_hash@),
{
    let mut url = String::from_str("https://ca.slack-edge.com/T0266FRGM-");
    url.append(slack_id);
    url.append("-");
    url.append(avatar_hash);
    url.append("-128");
    url
}

impl TeamMember {
    /// The names of the tracked fields in which `other` differs from this
    /// member, in canonical order.
    pub fn differences(&self, other: &Self) -> (r: Vec<&'static str>)
        ensures
            r@.map_values(|f: &'static str| f@) == tracked_changes(*self, *other),
    {
        let mut diffs: Vec<&'static str> = Vec::new();
        let ghost g0 = diffs@.map_values(|f: &'static str| f@);
        if self.name != other.name {
            diffs.push("name");
        }
        let ghost g1 = diffs@.map_values(|f: &'static str| f@);
        assert(g1 =~= g0 + change_if(self.name@ != other.name@, "name"@));
        if !opt_eq(&self.bio, &other.bio) {
            diffs.push("bio");
        }
        let ghost g2 = diffs@.map_values(|f: &'static str| f@);
        assert(g2 =~= g1 + change_if(opt_view(self.bio) != opt_view(other.bio), "bio"@));
        if self.department != other.department {
            diffs.push("department");
        }
        let ghost g3 = diffs@.map_values(|f: &'static str| f@);
        assert(g3 =~= g2 + change_if(self.department@ != other.department@, "department"@));
        if self.role != other.role {
            diffs.push("role");
        }
        let ghost g4 = diffs@.map_values(|f: &'static str| f@);
        assert(g4 =~= g3 + change_if(self.role@ != other.role@, "role"@));
        if !opt_eq(&self.bio_hackfoundation, &other.bio_hackfoundation) {
            diffs.push("bio_alt");
        }
        let ghost g5 = diffs@.map_values(|f: &'static str| f@);
        assert(g5 =~= g4 + change_if(
            opt_view(self.bio_hackfoundation) != opt_view(other.bio_hackfoundation),
            "bio_alt"@,
        ));
        if !opt_eq(&self.avatar_id, &other.avatar_id) {
            diffs.push("avatar");
        }
        let ghost g6 = diffs@.map_values(|f: &'static str| f@);
        assert(g6 =~= g5 + change_if(opt_view(self.avatar_id) != opt_view(other.avatar_id), "avatar"@));
        if !opt_eq(&self.email, &other.email) {
            diffs.push("email");
        }
        let ghost g7 = diffs@.map_values(|f: &'static str| f@);
        assert(g7 =~= g6 + change_if(opt_view(self.email) != opt_view(other.email), "email"@));
        assert(g0 =~= Seq::<Seq<char>>::empty());
        assert(tracked_changes(*self, *other) =~= g7);
        diffs
    }

    /// The member described by a record, joined with the chat profile of the
    /// record's chat user, if there is one; `MalformedRecord` when a required
    /// field is missing or is not a string.
    pub fn from_json(json: &JsonValue, profile: &Option<ChatProfile>) -> (r: Result<TeamMember, TeamFetchError>)
        ensures
            r.is_ok() == record_complete(*json),
            match r {
                Ok(m) => normalized(m, *json, *profile) && member_wf(m),
                Err(e) => e.kind == FetchErrorKind::MalformedRecord,
            },
    {
        let name = json.get_string("Name");
        let department = json.get_string("Department");
        let role = json.get_string("Role");
        let (name, department, role) = match (name, department, role) {
            (Some(n), Some(d), Some(r)) => (n, d, r),
            _ => {
                return Err(TeamFetchError::new(
                    FetchErrorKind::MalformedRecord,
                    String::from_str("a record lacks its name, department or role"),
                ));
            },
        };
        let slack_id = json.get_string("Slack ID");
        let joined_profile: Option<&ChatProfile> = match (&slack_id, profile) {
            (Some(_), Some(p)) => Some(p),
            _ => None,
        };
        let (pronouns, slack_display_name) = match joined_profile {
            Some(p) => (clone_opt(&p.pronouns), Some(p.display_name.clone())),
            None => (None, None),
        };
        let (avatar, avatar_id) = match read_override(json) {
            Some((url, id)) => (Some(url), Some(id)),
            None => match (joined_profile, &slack_id) {
                (Some(p), Some(sid)) => (
                    Some(make_avatar_url(sid.as_str(), p.avatar_hash.as_str())),
                    Some(p.avatar_hash.clone()),
                ),
                _ => (None, None),
            },
        };
        Ok(TeamMember {
            name,
            bio: json.get_string("Bio"),
            department,
            role,
            bio_hackfoundation: json.get_string("Bio (Hack Foundation)"),
            pronouns,
            slack_id,
            slack_display_name,
            avatar,
            avatar_id,
            email: json.get_string("Email"),
        })
    }
}

} // verus!
