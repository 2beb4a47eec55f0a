use team_server::auth::check_token;
use team_server::defs::{ChatProfile, FetchErrorKind, Source, Team, TeamFetchError, TeamMember};
use team_server::diff::{diff, duplicate_names};
use team_server::driver::{webhook_reply, RefreshDriver, SnapshotCache, WebhookOutcome};
use team_server::json::JsonValue;
use team_server::notify::{message_text, notifications, plan_notifications};
use team_server::snapshot::{parse_profile_response, slack_ids_of};

fn s(text: &str) -> JsonValue {
    JsonValue::Str(text.to_string())
}

fn obj(entries: Vec<(&str, JsonValue)>) -> JsonValue {
    JsonValue::Object(entries.into_iter().map(|(k, v)| (k.to_string(), v)).collect())
}

fn records(fields: Vec<JsonValue>) -> JsonValue {
    obj(vec![(
        "records",
        JsonValue::Array(fields.into_iter().map(|f| obj(vec![("fields", f)])).collect()),
    )])
}

fn ada() -> Vec<(&'static str, JsonValue)> {
    vec![("Name", s("Ada")), ("Department", s("Eng")), ("Role", s("SWE"))]
}

fn ada_profile() -> ChatProfile {
    ChatProfile {
        pronouns: Some("she/her".to_string()),
        avatar_hash: "h1".to_string(),
        display_name: "ada".to_string(),
    }
}

fn member(name: &str, bio: Option<&str>, slack_id: Option<&str>) -> TeamMember {
    TeamMember {
        name: name.to_string(),
        bio: bio.map(|b| b.to_string()),
        department: "Eng".to_string(),
        role: "SWE".to_string(),
        bio_hackfoundation: None,
        pronouns: None,
        slack_id: slack_id.map(|i| i.to_string()),
        slack_display_name: None,
        avatar: None,
        avatar_id: None,
        email: None,
    }
}

fn team(refreshed_at: u64, current: Vec<TeamMember>) -> Team {
    Team { version: "0.1.0".to_string(), refreshed_at, current, alumni: vec![] }
}

fn build(response: &JsonValue, profiles: Vec<Option<ChatProfile>>) -> Result<Team, TeamFetchError> {
    Team::from_raw_airtable("0.1.0".to_string(), 1000, response, &profiles)
}

#[test]
fn initial_fetch_without_chat_user() {
    let response = records(vec![obj(ada())]);
    let ids = slack_ids_of(&response).unwrap();
    assert_eq!(ids, vec![None]);
    let t = build(&response, vec![None]).unwrap();
    assert_eq!(t.current.len(), 1);
    assert!(t.alumni.is_empty());
    assert_eq!(t.refreshed_at, 1000);
    assert_eq!(t.version, "0.1.0");
    let m = &t.current[0];
    assert_eq!(m.name, "Ada");
    assert_eq!(m.department, "Eng");
    assert_eq!(m.role, "SWE");
    assert_eq!(m.slack_id, None);
    assert_eq!(m.pronouns, None);
    assert_eq!(m.slack_display_name, None);
    assert_eq!(m.avatar, None);
    assert_eq!(m.avatar_id, None);
}

#[test]
fn enrichment_from_chat_profile() {
    let mut fields = ada();
    fields.push(("Slack ID", s("U1")));
    let response = records(vec![obj(fields)]);
    assert_eq!(slack_ids_of(&response).unwrap(), vec![Some("U1".to_string())]);
    let profile_response = obj(vec![(
        "profile",
        obj(vec![("pronouns", s("she/her")), ("avatar_hash", s("h1")), ("display_name", s("ada"))]),
    )]);
    let profile = parse_profile_response(&profile_response).unwrap();
    let t = build(&response, vec![Some(profile)]).unwrap();
    let m = &t.current[0];
    assert!(m.avatar.as_ref().unwrap().ends_with("-U1-h1-128"));
    assert_eq!(m.avatar.as_deref(), Some("https://ca.slack-edge.com/T0266FRGM-U1-h1-128"));
    assert_eq!(m.avatar_id.as_deref(), Some("h1"));
    assert_eq!(m.pronouns.as_deref(), Some("she/her"));
    assert_eq!(m.slack_display_name.as_deref(), Some("ada"));
    assert_eq!(m.slack_id.as_deref(), Some("U1"));
}

#[test]
fn override_avatar_wins() {
    let mut fields = ada();
    fields.push(("Slack ID", s("U1")));
    let large = obj(vec![("url", s("U")), ("id", s("I"))]);
    let thumb = obj(vec![("thumbnails", obj(vec![("large", large)]))]);
    fields.push(("Override Avatar", JsonValue::Array(vec![thumb])));
    let response = records(vec![obj(fields)]);
    let t = build(&response, vec![Some(ada_profile())]).unwrap();
    let m = &t.current[0];
    assert_eq!(m.avatar.as_deref(), Some("U"));
    assert_eq!(m.avatar_id.as_deref(), Some("I"));
    assert_eq!(m.pronouns.as_deref(), Some("she/her"));
}

#[test]
fn override_without_profile() {
    let mut fields = ada();
    let large = obj(vec![("url", s("U")), ("id", s("I"))]);
    let thumb = obj(vec![("thumbnails", obj(vec![("large", large)]))]);
    fields.push(("Override Avatar", JsonValue::Array(vec![thumb])));
    let m = TeamMember::from_json(&obj(fields), &None).unwrap();
    assert_eq!(m.avatar.as_deref(), Some("U"));
    assert_eq!(m.avatar_id.as_deref(), Some("I"));
}

#[test]
fn empty_override_list_falls_back_to_profile() {
    let mut fields = ada();
    fields.push(("Slack ID", s("U1")));
    fields.push(("Override Avatar", JsonValue::Array(vec![])));
    let m = TeamMember::from_json(&obj(fields), &Some(ada_profile())).unwrap();
    assert_eq!(m.avatar.as_deref(), Some("https://ca.slack-edge.com/T0266FRGM-U1-h1-128"));
    assert_eq!(m.avatar_id.as_deref(), Some("h1"));
}

#[test]
fn profile_ignored_without_chat_user() {
    let m = TeamMember::from_json(&obj(ada()), &Some(ada_profile())).unwrap();
    assert_eq!(m.pronouns, None);
    assert_eq!(m.slack_display_name, None);
    assert_eq!(m.avatar, None);
    assert_eq!(m.avatar_id, None);
}

#[test]
fn optional_fields_copied_when_text() {
    let mut fields = ada();
    fields.push(("Bio", s("hello")));
    fields.push(("Bio (Hack Foundation)", s("alt")));
    fields.push(("Email", JsonValue::Number("3".to_string())));
    let m = TeamMember::from_json(&obj(fields), &None).unwrap();
    assert_eq!(m.bio.as_deref(), Some("hello"));
    assert_eq!(m.bio_hackfoundation.as_deref(), Some("alt"));
    assert_eq!(m.email, None);
}

#[test]
fn missing_role_is_malformed_record() {
    let fields = vec![("Name", s("Ada")), ("Department", s("Eng"))];
    let e = TeamMember::from_json(&obj(fields), &None).unwrap_err();
    assert_eq!(e.kind, FetchErrorKind::MalformedRecord);
    let bad_name = vec![("Name", JsonValue::Bool(true)), ("Department", s("Eng")), ("Role", s("SWE"))];
    let response = records(vec![obj(ada()), obj(bad_name)]);
    let e = build(&response, vec![None, None]).unwrap_err();
    assert_eq!(e.kind, FetchErrorKind::MalformedRecord);
}

#[test]
fn response_without_records_is_malformed_upstream() {
    let response = obj(vec![("items", JsonValue::Array(vec![]))]);
    let e = slack_ids_of(&response).unwrap_err();
    assert_eq!(e.kind, FetchErrorKind::MalformedUpstream(Source::Records));
    let e = build(&response, vec![]).unwrap_err();
    assert_eq!(e.kind, FetchErrorKind::MalformedUpstream(Source::Records));
    let no_fields = obj(vec![("records", JsonValue::Array(vec![obj(vec![("id", s("r1"))])]))]);
    let e = slack_ids_of(&no_fields).unwrap_err();
    assert_eq!(e.kind, FetchErrorKind::MalformedUpstream(Source::Records));
}

#[test]
fn members_keep_upstream_order() {
    let grace = vec![("Name", s("Grace")), ("Department", s("Ops")), ("Role", s("SRE"))];
    let response = records(vec![obj(grace), obj(ada())]);
    let t = build(&response, vec![None, None]).unwrap();
    let names: Vec<&str> = t.current.iter().map(|m| m.name.as_str()).collect();
    assert_eq!(names, vec!["Grace", "Ada"]);
}

#[test]
fn diff_and_notify_on_bio_change() {
    let old = team(1, vec![member("Ada", Some("x"), Some("U1"))]);
    let new = team(2, vec![member("Ada", Some("y"), Some("U1"))]);
    let entries = diff(&old, &new);
    assert_eq!(entries.len(), 1);
    assert_eq!(entries[0].member_name, "Ada");
    assert_eq!(entries[0].slack_id.as_deref(), Some("U1"));
    assert_eq!(entries[0].changed_fields, vec!["bio"]);
    let sent = notifications(&entries);
    assert_eq!(sent.len(), 1);
    assert_eq!(sent[0].slack_id, "U1");
    assert!(sent[0].text.contains("bio"));
    assert_eq!(sent[0].text, "The following fields have changed for you: bio");
}

#[test]
fn diff_lists_every_changed_field_in_order() {
    let mut a = member("Ada", Some("x"), Some("U1"));
    let mut b = member("Ada", None, Some("U2"));
    a.email = Some("a@x".to_string());
    b.email = Some("".to_string());
    b.role = "Lead".to_string();
    b.bio_hackfoundation = Some("alt".to_string());
    b.avatar_id = Some("h2".to_string());
    b.pronouns = Some("she/her".to_string());
    assert_eq!(a.differences(&b), vec!["bio", "role", "bio_alt", "avatar", "email"]);
    assert_eq!(
        message_text(&a.differences(&b)),
        "The following fields have changed for you: bio, role, bio_alt, avatar, email"
    );
}

#[test]
fn identical_members_differ_in_nothing() {
    let a = member("Ada", Some("x"), Some("U1"));
    let b = member("Ada", Some("x"), Some("U9"));
    assert!(a.differences(&b).is_empty());
    let entries = diff(&team(1, vec![a]), &team(2, vec![b]));
    assert!(entries.is_empty());
}

#[test]
fn absent_and_empty_differ() {
    let a = member("Ada", None, None);
    let b = member("Ada", Some(""), None);
    assert_eq!(a.differences(&b), vec!["bio"]);
}

#[test]
fn diff_ignores_joined_and_departed_members() {
    let old = team(1, vec![member("Ada", Some("x"), Some("U1")), member("Bob", None, None)]);
    let new = team(2, vec![member("Cy", Some("z"), None), member("Ada", Some("x"), Some("U1"))]);
    assert!(diff(&old, &new).is_empty());
}

#[test]
fn diff_first_duplicate_wins() {
    let old = team(1, vec![member("Ada", Some("x"), Some("U1")), member("Ada", Some("q"), Some("U2"))]);
    let new = team(2, vec![member("Ada", Some("y"), None), member("Ada", Some("x"), None)]);
    let entries = diff(&old, &new);
    assert_eq!(entries.len(), 1);
    assert_eq!(entries[0].slack_id.as_deref(), Some("U1"));
    assert_eq!(entries[0].changed_fields, vec!["bio"]);
}

#[test]
fn no_message_without_chat_user() {
    let old = team(1, vec![member("Ada", Some("x"), None)]);
    let new = team(2, vec![member("Ada", Some("y"), None)]);
    let entries = diff(&old, &new);
    assert_eq!(entries.len(), 1);
    assert!(notifications(&entries).is_empty());
}

#[test]
fn chat_error_fails_refresh_and_keeps_snapshot() {
    let mut cache = SnapshotCache::new(team(5, vec![member("Ada", Some("x"), Some("U1"))]));
    let mut fields = ada();
    fields.push(("Slack ID", s("U1")));
    let response = records(vec![obj(fields)]);
    let ids = slack_ids_of(&response).unwrap();
    assert_eq!(ids, vec![Some("U1".to_string())]);
    let profile_response = obj(vec![("ok", JsonValue::Bool(false)), ("error", s("user_not_found"))]);
    // A refresh builds and commits only when every profile came back.
    let outcome = parse_profile_response(&profile_response)
        .and_then(|p| build(&response, vec![Some(p)]));
    let e = match outcome {
        Ok(t) => {
            cache.commit(t, &vec![]);
            panic!("the refresh should have failed");
        }
        Err(e) => e,
    };
    assert_eq!(e.kind, FetchErrorKind::UpstreamError(Source::Chat));
    assert_eq!(e.message, "the chat platform reported an error: user_not_found");
    assert!(e.message.contains("user_not_found"));
    assert_eq!(cache.read().refreshed_at, 5);
    assert_eq!(cache.read().current[0].bio.as_deref(), Some("x"));
}

#[test]
fn profile_without_hash_is_malformed() {
    let response = obj(vec![("profile", obj(vec![("display_name", s("ada"))]))]);
    let e = parse_profile_response(&response).unwrap_err();
    assert_eq!(e.kind, FetchErrorKind::MalformedUpstream(Source::Chat));
    let e = parse_profile_response(&obj(vec![])).unwrap_err();
    assert_eq!(e.kind, FetchErrorKind::MalformedUpstream(Source::Chat));
}

#[test]
fn profile_without_pronouns() {
    let response = obj(vec![("profile", obj(vec![("avatar_hash", s("h1")), ("display_name", s("ada"))]))]);
    let p = parse_profile_response(&response).unwrap();
    assert_eq!(p.pronouns, None);
    assert_eq!(p.avatar_hash, "h1");
    assert_eq!(p.display_name, "ada");
}

#[test]
fn wrong_token_starts_nothing() {
    let mut d = RefreshDriver::new();
    assert!(!d.begin_webhook("wrong", "s3cret"));
    assert_eq!(d.active, 0);
    assert_eq!(webhook_reply(WebhookOutcome::InvalidToken), "invalid token");
    assert!(!check_token("s3cre", "s3cret"));
    assert!(!check_token("", "s3cret"));
    assert!(check_token("s3cret", "s3cret"));
    assert!(d.begin_webhook("s3cret", "s3cret"));
    assert_eq!(d.active, 1);
    assert_eq!(webhook_reply(WebhookOutcome::Refreshed), "success!");
    assert_eq!(webhook_reply(WebhookOutcome::Failed), "failure");
}

#[test]
fn periodic_tick_skipped_while_refreshing() {
    let mut d = RefreshDriver::new();
    assert!(d.begin_webhook("k", "k"));
    assert!(!d.begin_periodic());
    d.finish();
    assert_eq!(d.active, 0);
    assert!(d.begin_periodic());
    assert!(!d.begin_periodic());
    d.finish();
    d.finish();
    assert_eq!(d.active, 0);
}

#[test]
fn stamps_never_go_back() {
    let mut d = RefreshDriver::new();
    assert_eq!(d.next_stamp(100), 100);
    assert_eq!(d.next_stamp(90), 100);
    assert_eq!(d.next_stamp(130), 130);
    assert_eq!(d.last_stamp, 130);
}

#[test]
fn failed_notifications_still_swap() {
    let mut cache = SnapshotCache::new(team(1, vec![member("Ada", Some("x"), Some("U1"))]));
    let failed = cache.commit(team(2, vec![member("Ada", Some("y"), Some("U1"))]), &vec![false, false]);
    assert_eq!(failed, 2);
    assert_eq!(cache.read().refreshed_at, 2);
    assert_eq!(cache.read().current[0].bio.as_deref(), Some("y"));
}

#[test]
fn replace_installs_whole_snapshot() {
    let mut cache = SnapshotCache::new(team(1, vec![member("Ada", Some("x"), None)]));
    cache.replace(team(2, vec![member("Bob", None, None), member("Cy", None, None)]));
    let t = cache.read();
    assert_eq!(t.refreshed_at, 2);
    assert_eq!(t.current.len(), 2);
    assert_eq!(t.current[0].name, "Bob");
}

#[test]
fn error_log_line() {
    let e = TeamFetchError::new(FetchErrorKind::MalformedRecord, "bad".to_string());
    assert_eq!(e.log(), "bad");
    assert_eq!(e.describe(), "TeamFetchError: bad");
}

#[test]
fn lookup_takes_first_key() {
    let v = obj(vec![("a", s("1")), ("a", s("2"))]);
    assert_eq!(v.get_string("a").as_deref(), Some("1"));
    assert_eq!(v.get_string("b"), None);
    assert!(s("x").get("a").is_none());
}

#[test]
fn repeated_names_are_listed() {
    let ms = vec![
        member("Ada", None, None),
        member("Bob", None, None),
        member("Ada", Some("x"), None),
        member("Ada", None, None),
    ];
    assert_eq!(duplicate_names(&ms), vec!["Ada".to_string(), "Ada".to_string()]);
    assert!(duplicate_names(&vec![member("Ada", None, None)]).is_empty());
}

#[test]
fn plan_sends_one_message_per_changed_chat_user() {
    let old = team(1, vec![
        member("Ada", Some("x"), Some("U1")),
        member("Bob", Some("b"), None),
        member("Cy", Some("c"), Some("U3")),
    ]);
    let new = team(2, vec![
        member("Cy", Some("c"), Some("U3")),
        member("Bob", Some("B"), None),
        member("Ada", Some("y"), Some("U1")),
    ]);
    let sent = plan_notifications(&old, &new);
    assert_eq!(sent.len(), 1);
    assert_eq!(sent[0].slack_id, "U1");
    assert_eq!(sent[0].text, "The following fields have changed for you: bio");
}
