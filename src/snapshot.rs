use vstd::prelude::*;
use vstd::string::StringExecFns;
use crate::defs::{
    ChatProfile, FetchErrorKind, Source, Team, TeamFetchError, TeamMember, member_wf, normalized,
    record_complete,
};
use crate::json::{JsonValue, opt_view, spec_get, spec_get_str, spec_items};

verus! {

/// Whether every element of `items` is an object with a `fields` entry.
pub open spec fn all_have_fields(items: Seq<JsonValue>) -> bool {
    forall|i: int| 0 <= i < items.len() ==> spec_get(items[i], "fields"@).is_some()
}

/// The items of the `records` array of a records response.
pub open spec fn record_items(response: JsonValue) -> Option<Seq<JsonValue>> {
    match spec_get(response, "records"@) {
        Some(list) => spec_items(list),
        None => None,
    }
}

/// The field dictionaries of a records response, in upstream order, when
/// the response is well formed.
pub open spec fn record_fields(response: JsonValue) -> Option<Seq<JsonValue>> {
    match record_items(response) {
        Some(items) => if all_have_fields(items) {
            Some(items.map_values(|r: JsonValue| spec_get(r, "fields"@)->Some_0))
        } else {
            None
        },
        None => None,
    }
}

/// The field dictionaries of a records response, by reference.
fn fields_of(response: &JsonValue) -> (r: Option<Vec<&JsonValue>>)
    ensures
        match r {
            Some(fs) => record_fields(*response) == Some(fs@.map_values(|f: &JsonValue| *f)),
            None => record_fields(*response).is_none(),
        },
{
    let items = match response.get("records") {
        Some(list) => match list.as_array() {
            Some(items) => items,
            None => return None,
        },
        None => return None,
    };
    let mut out: Vec<&JsonValue> = Vec::new();
    let mut i: usize = 0;
    while i < items.len()
        invariant
            i <= items@.len(),
            record_items(*response) == Some(items@),
            out@.len() == i,
            forall|j: int| 0 <= j < i ==> spec_get(items@[j], "fields"@) == Some(*out@[j]),
        decreases items@.len() - i,
    {
        match items[i].get("fields") {
            Some(f) => out.push(f),
            None => return None,
        }
        i = i + 1;
    }
    assert(out@.map_values(|f: &JsonValue| *f) =~= items@.map_values(
        |r: JsonValue| spec_get(r, "fields"@)->Some_0,
    ));
    Some(out)
}

/// The chat user of each record of a records response, in upstream order;
/// `MalformedUpstream(Records)` when the response has no `records` array or
/// a record has no `fields`.
pub fn slack_ids_of(response: &JsonValue) -> (r: Result<Vec<Option<String>>, TeamFetchError>)
    ensures
        r.is_ok() == record_fields(*response).is_some(),
        match r {
            Ok(ids) => ids@.len() == record_fields(*response)->Some_0.len()
                && forall|i: int| 0 <= i < ids@.len()
                    ==> opt_view(ids@[i]) == spec_get_str(record_fields(*response)->Some_0[i], "Slack ID"@),
            Err(e) => e.kind == FetchErrorKind::MalformedUpstream(Source::Records),
        },
{
    let fields = match fields_of(response) {
        Some(f) => f,
        None => {
            return Err(TeamFetchError::new(
                FetchErrorKind::MalformedUpstream(Source::Records),
                String::from_str("the records response has no records"),
            ));
        },
    };
    let mut ids: Vec<Option<String>> = Vec::new();
    let mut i: usize = 0;
    while i < fields.len()
        invariant
            i <= fields@.len(),
            ids@.len() == i,
            forall|j: int| 0 <= j < i ==> opt_view(ids@[j]) == spec_get_str(*fields@[j], "Slack ID"@),
        decreases fields@.len() - i,
    {
        ids.push(fields[i].get_string("Slack ID"));
        i = i + 1;
    }
    Ok(ids)
}

/// What a profile response says, as a profile or as the error it reports.
pub open spec fn profile_outcome(response: JsonValue) -> Result<(Option<Seq<char>>, Seq<char>, Seq<char>), FetchErrorKind> {
    if spec_get(response, "error"@).is_some() {
        Err(FetchErrorKind::UpstreamError(Source::Chat))
    } else {
        match spec_get(response, "profile"@) {
            Some(p) => match (spec_get_str(p, "avatar_hash"@), spec_get_str(p, "display_name"@)) {
                (Some(hash), Some(name)) => Ok((spec_get_str(p, "pronouns"@), hash, name)),
                _ => Err(FetchErrorKind::MalformedUpstream(Source::Chat)),
            },
            None => Err(FetchErrorKind::MalformedUpstream(Source::Chat)),
        }
    }
}

/// The message of an error that the chat platform reports as `text`.
pub open spec fn chat_error_message(text: Seq<char>) -> Seq<char> {
    "the chat platform reported an error: "@ + text
}

/// The profile in a chat platform's answer; `UpstreamError(Chat)` when the
/// answer reports an error, whose message then carries the platform's error
/// text, `MalformedUpstream(Chat)` when it lacks the
/// avatar hash or the display name.
pub fn parse_profile_response(response: &JsonValue) -> (r: Result<ChatProfile, TeamFetchError>)
    ensures
        match (r, profile_outcome(*response)) {
            (Ok(p), Ok((pronouns, hash, name))) => opt_view(p.pronouns) == pronouns
                && p.avatar_hash@ == hash && p.display_name@ == name,
            (Err(e), Err(kind)) => e.kind == kind,
            _ => false,
        },
        spec_get_str(*response, "error"@) matches Some(text)
            ==> r matches Err(e) && e.message@ == chat_error_message(text),
{
    match response.get("error") {
        Some(err) => {
            let mut message = String::from_str("the chat platform reported an error: ");
            match err.as_str() {
                Some(s) => message.append(s.as_str()),
                None => message.append("(not a string)"),
            }
            return Err(TeamFetchError::new(FetchErrorKind::UpstreamError(Source::Chat), message));
        },
        None => {},
    }
    let profile = match response.get("profile") {
        Some(p) => p,
        None => {
            return Err(TeamFetchError::new(
                FetchErrorKind::MalformedUpstream(Source::Chat),
                String::from_str("the chat platform's answer has no profile"),
            ));
        },
    };
    match (profile.get_string("avatar_hash"), profile.get_string("display_name")) {
        (Some(avatar_hash), Some(display_name)) => Ok(ChatProfile {
            pronouns: profile.get_string("pronouns"),
            avatar_hash,
            display_name,
        }),
        _ => Err(TeamFetchError::new(
            FetchErrorKind::MalformedUpstream(Source::Chat),
            String::from_str("the chat profile lacks its avatar hash or display name"),
        )),
    }
}

impl Team {
    /// The snapshot made of a records response, joined position by position
    /// with the chat profiles fetched for its records.
    ///
    /// `MalformedUpstream(Records)` when the response is not a list of
    /// records with fields; `MalformedRecord` when a record lacks a required
    /// field. Members keep the upstream order and `alumni` is empty.
    pub fn from_raw_airtable(
        version: String,
        refreshed_at: u64,
        response: &JsonValue,
        profiles: &Vec<Option<ChatProfile>>,
    ) -> (r: Result<Team, TeamFetchError>)
        requires
            record_fields(*response).is_some() ==> profiles@.len() == record_fields(*response)->Some_0.len(),
        ensures
            r.is_ok() == (record_fields(*response).is_some()
                && forall|i: int| 0 <= i < record_fields(*response)->Some_0.len()
                    ==> record_complete(#[trigger] record_fields(*response)->Some_0[i])),
            match r {
                Ok(t) => {
                    &&& t.version == version
                    &&& t.refreshed_at == refreshed_at
                    &&& t.alumni@.len() == 0
                    &&& t.current@.len() == profiles@.len()
                    &&& forall|i: int| 0 <= i < t.current@.len()
                        ==> normalized(#[trigger] t.current@[i], record_fields(*response)->Some_0[i], profiles@[i])
                            && member_wf(t.current@[i])
                },
                Err(e) => if record_fields(*response).is_none() {
                    e.kind == FetchErrorKind::MalformedUpstream(Source::Records)
                } else {
                    e.kind == FetchErrorKind::MalformedRecord
                },
            },
    {
        let fields = match fields_of(response) {
            Some(f) => f,
            None => {
                return Err(TeamFetchError::new(
                    FetchErrorKind::MalformedUpstream(Source::Records),
                    String::from_str("the records response has no records"),
                ));
            },
        };
        let ghost fs = record_fields(*response)->Some_0;
        let mut current: Vec<TeamMember> = Vec::new();
        let mut i: usize = 0;
        while i < fields.len()
            invariant
                i <= fields@.len(),
                fs == fields@.map_values(|f: &JsonValue| *f),
                record_fields(*response) == Some(fs),
                profiles@.len() == fields@.len(),
                current@.len() == i,
                forall|j: int| 0 <= j < i ==> record_complete(fs[j]),
                forall|j: int| 0 <= j < i
                    ==> normalized(#[trigger] current@[j], fs[j], profiles@[j]) && member_wf(current@[j]),
            decreases fields@.len() - i,
        {
            match TeamMember::from_json(fields[i], &profiles[i]) {
                Ok(m) => current.push(m),
                Err(e) => {
                    assert(fs[i as int] == *fields@[i as int]);
                    assert(!record_complete(record_fields(*response)->Some_0[i as int]));
                    return Err(e);
                },
            }
            i = i + 1;
        }
        Ok(Team { version, refreshed_at, current, alumni: Vec::new() })
    }
}

} // verus!
