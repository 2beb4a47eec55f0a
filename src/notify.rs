use vstd::prelude::*;
use vstd::string::StringExecFns;
use crate::defs::Team;
use crate::diff::{DiffEntry, EntryModel, diff, entry_view, has_entry, lemma_diff_correct, owed_entry, spec_diff};

verus! {

/// A direct message to a chat user.
#[derive(Debug)]
pub struct Notification {
    pub slack_id: String,
    pub text: String,
}

/// Field names separated by a comma and a space.
pub open spec fn join_fields(fs: Seq<Seq<char>>) -> Seq<char>
    decreases fs.len(),
{
    if fs.len() == 0 {
        Seq::empty()
    } else if fs.len() == 1 {
        fs[0]
    } else {
        join_fields(fs.drop_last()) + ", "@ + fs.last()
    }
}

/// The message that tells someone which of their fields changed.
pub open spec fn message_for(fs: Seq<Seq<char>>) -> Seq<char> {
    "The following fields have changed for you: "@ + join_fields(fs)
}

/// The messages owed for the entries up to `i`: one for each entry with a
/// chat user, in order.
pub open spec fn messages_upto(entries: Seq<EntryModel>, i: int) -> Seq<(Seq<char>, Seq<char>)>
    decreases i,
{
    if i <= 0 {
        Seq::empty()
    } else {
        let e = entries[i - 1];
        messages_upto(entries, i - 1) + match e.1 {
            Some(id) => seq![(id, message_for(e.2))],
            None => Seq::empty(),
        }
    }
}

pub open spec fn spec_messages(entries: Seq<EntryModel>) -> Seq<(Seq<char>, Seq<char>)> {
    messages_upto(entries, entries.len() as int)
}

pub open spec fn notification_view(n: Notification) -> (Seq<char>, Seq<char>) {
    (n.slack_id@, n.text@)
}

/// The message for a change of `fields`, naming them in the given order.
pub fn message_text(fields: &Vec<&'static str>) -> (r: String)
    ensures
        r@ == message_for(fields@.map_values(|f: &'static str| f@)),
{
    let ghost fs = fields@.map_values(|f: &'static str| f@);
    let mut text = String::from_str("The following fields have changed for you: ");
    let ghost prefix = text@;
    let mut i: usize = 0;
    while i < fields.len()
        invariant
            i <= fields@.len(),
            fs == fields@.map_values(|f: &'static str| f@),
            text@ == prefix + join_fields(fs.take(i as int)),
            prefix == "The following fields have changed for you: "@,
        decreases fields@.len() - i,
    {
        if i > 0 {
            text.append(", ");
        }
        text.append(fields[i]);
        proof {
            assert(fs.take(i + 1).drop_last() =~= fs.take(i as int));
            if i == 0 {
                assert(join_fields(fs.take(1)) == fs[0]);
                assert(join_fields(fs.take(0)) =~= Seq::<char>::empty());
            }
            assert(text@ =~= prefix + join_fields(fs.take(i + 1)));
        }
        i = i + 1;
    }
    assert(fs.take(fields@.len() as int) =~= fs);
    text
}

/// One message for each diff entry that names a chat user, in the order of
/// the entries; entries without a chat user are skipped.
pub fn notifications(entries: &Vec<DiffEntry>) -> (r: Vec<Notification>)
    ensures
        r@.map_values(|n: Notification| notification_view(n))
            == spec_messages(entries@.map_values(|e: DiffEntry| entry_view(e))),
{
    let ghost es = entries@.map_values(|e: DiffEntry| entry_view(e));
    let mut out: Vec<Notification> = Vec::new();
    let mut i: usize = 0;
    while i < entries.len()
        invariant
            i <= entries@.len(),
            es == entries@.map_values(|e: DiffEntry| entry_view(e)),
            out@.map_values(|n: Notification| notification_view(n)) == messages_upto(es, i as int),
        decreases entries@.len() - i,
    {
        let e = &entries[i];
        match &e.slack_id {
            Some(id) => {
                let text = message_text(&e.changed_fields);
                out.push(Notification { slack_id: id.clone(), text });
            },
            None => {},
        }
        assert(out@.map_values(|n: Notification| notification_view(n)) =~= messages_upto(es, i + 1));
        i = i + 1;
    }
    out
}

/// The messages that a refresh from `old` to `new` sends.
pub open spec fn spec_plan(old: Team, new: Team) -> Seq<(Seq<char>, Seq<char>)> {
    spec_messages(spec_diff(old, new))
}

/// The messages owed when `new` replaces `old`: one for each reported
/// member that has a chat user.
pub fn plan_notifications(old: &Team, new: &Team) -> (r: Vec<Notification>)
    ensures
        r@.map_values(|n: Notification| notification_view(n)) == spec_plan(*old, *new),
{
    notifications(&diff(old, new))
}

proof fn lemma_messages_upto(entries: Seq<EntryModel>, i: int)
    requires
        0 <= i <= entries.len(),
    ensures
        forall|t: int| #![trigger messages_upto(entries, i)[t]] 0 <= t < messages_upto(entries, i).len() ==> exists|k: int|
            0 <= k < i && #[trigger] entries[k].1 == Some(messages_upto(entries, i)[t].0)
                && messages_upto(entries, i)[t].1 == message_for(entries[k].2),
        forall|k: int| 0 <= k < i && (#[trigger] entries[k].1).is_some() ==> exists|t: int|
            0 <= t < messages_upto(entries, i).len()
                && messages_upto(entries, i)[t] == (entries[k].1->Some_0, message_for(entries[k].2)),
    decreases i,
{
    if i > 0 {
        lemma_messages_upto(entries, i - 1);
        let prev = messages_upto(entries, i - 1);
        let m = messages_upto(entries, i);
        let e = entries[i - 1];
        assert forall|t: int| #![trigger m[t]] 0 <= t < m.len() implies exists|k: int|
            0 <= k < i && #[trigger] entries[k].1 == Some(m[t].0) && m[t].1 == message_for(entries[k].2) by {
            if t < prev.len() {
                assert(m[t] == prev[t]);
            } else {
                assert(entries[i - 1].1 == Some(m[t].0));
            }
        }
        assert forall|k: int| 0 <= k < i && (#[trigger] entries[k].1).is_some() implies exists|t: int|
            0 <= t < m.len() && m[t] == (entries[k].1->Some_0, message_for(entries[k].2)) by {
            if k < i - 1 {
                let t = choose|t: int| 0 <= t < prev.len()
                    && prev[t] == (entries[k].1->Some_0, message_for(entries[k].2));
                assert(m[t] == prev[t]);
            } else {
                assert(m[prev.len() as int] == (entries[k].1->Some_0, message_for(entries[k].2)));
            }
        }
    }
}

/// A refresh from `old` to `new` sends a message only to the chat user of
/// a member that the diff owes an entry for, naming that entry's changed
/// fields; and it sends one to every chat user of such a member.
pub proof fn lemma_plan_correct(old: Team, new: Team, name: Seq<char>)
    ensures
        forall|t: int| #![trigger spec_plan(old, new)[t]] 0 <= t < spec_plan(old, new).len() ==> exists|k: int|
            0 <= k < spec_diff(old, new).len()
                && owed_entry(old.current@, new.current@, #[trigger] spec_diff(old, new)[k].0) == Some(spec_diff(old, new)[k])
                && spec_diff(old, new)[k].1 == Some(spec_plan(old, new)[t].0)
                && spec_plan(old, new)[t].1 == message_for(spec_diff(old, new)[k].2),
        owed_entry(old.current@, new.current@, name) is Some
            && owed_entry(old.current@, new.current@, name)->Some_0.1 is Some ==> exists|t: int|
            0 <= t < spec_plan(old, new).len() && spec_plan(old, new)[t] == (
                owed_entry(old.current@, new.current@, name)->Some_0.1->Some_0,
                message_for(owed_entry(old.current@, new.current@, name)->Some_0.2),
            ),
{
    let d = spec_diff(old, new);
    let p = spec_plan(old, new);
    let o = old.current@;
    let n = new.current@;
    lemma_diff_correct(old, new, name);
    lemma_messages_upto(d, d.len() as int);
    assert(p == messages_upto(d, d.len() as int));
    assert forall|t: int| #![trigger p[t]] 0 <= t < p.len() implies exists|k: int|
        0 <= k < d.len() && owed_entry(o, n, #[trigger] d[k].0) == Some(d[k])
            && d[k].1 == Some(p[t].0) && p[t].1 == message_for(d[k].2) by {
        let k = choose|k: int| 0 <= k < d.len() && #[trigger] d[k].1 == Some(p[t].0)
            && p[t].1 == message_for(d[k].2);
        assert(owed_entry(o, n, d[k].0) == Some(d[k]));
    }
    if owed_entry(o, n, name) is Some && owed_entry(o, n, name)->Some_0.1 is Some {
        assert(has_entry(d, name));
        let k = choose|k: int| 0 <= k < d.len() && d[k].0 == name;
        assert(owed_entry(o, n, d[k].0) == Some(d[k]));
        assert(d[k].1.is_some());
    }
}

} // verus!
