use vstd::prelude::*;
use crate::defs::{Team, TeamMember, tracked_changes};
use crate::json::opt_view;

verus! {

/// A member whose tracked fields changed between two snapshots.
#[derive(Debug)]
pub struct DiffEntry {
    pub member_name: String,
    /// The chat user to tell, as the older snapshot has it.
    pub slack_id: Option<String>,
    /// The names of the changed fields, in canonical order.
    pub changed_fields: Vec<&'static str>,
}

/// An entry as plain values: name, chat user and changed field names.
pub type EntryModel = (Seq<char>, Option<Seq<char>>, Seq<Seq<char>>);

pub open spec fn entry_view(e: DiffEntry) -> EntryModel {
    (e.member_name@, opt_view(e.slack_id), e.changed_fields@.map_values(|f: &'static str| f@))
}

/// The position of the first member called `name`.
pub open spec fn first_named(ms: Seq<TeamMember>, name: Seq<char>) -> Option<int>
    decreases ms.len(),
{
    if ms.len() == 0 {
        None
    } else if ms[0].name@ == name {
        Some(0)
    } else {
        match first_named(ms.drop_first(), name) {
            Some(j) => Some(j + 1),
            None => None,
        }
    }
}

/// The entry that the diff owes for `name`: there is one when the name
/// stands in both sequences and its first members there differ in a tracked
/// field.
pub open spec fn owed_entry(old: Seq<TeamMember>, new: Seq<TeamMember>, name: Seq<char>) -> Option<EntryModel> {
    match first_named(old, name) {
        Some(k) => match first_named(new, name) {
            Some(j) => if tracked_changes(old[k], new[j]).len() > 0 {
                Some((name, opt_view(old[k].slack_id), tracked_changes(old[k], new[j])))
            } else {
                None
            },
            None => None,
        },
        None => None,
    }
}

/// What the member at `k` of `old` contributes: its owed entry, when it is
/// the first member of that name.
pub open spec fn entry_for(old: Seq<TeamMember>, new: Seq<TeamMember>, k: int) -> Seq<EntryModel> {
    if first_named(old, old[k].name@) == Some(k) {
        match owed_entry(old, new, old[k].name@) {
            Some(e) => seq![e],
            None => Seq::empty(),
        }
    } else {
        Seq::empty()
    }
}

/// The entries for the first `i` members of `old`, in their order.
pub open spec fn diff_upto(old: Seq<TeamMember>, new: Seq<TeamMember>, i: int) -> Seq<EntryModel>
    decreases i,
{
    if i <= 0 {
        Seq::empty()
    } else {
        diff_upto(old, new, i - 1) + entry_for(old, new, i - 1)
    }
}

/// The entries of the diff from `old` to `new`.
pub open spec fn spec_diff(old: Team, new: Team) -> Seq<EntryModel> {
    diff_upto(old.current@, new.current@, old.current@.len() as int)
}

pub open spec fn has_entry(d: Seq<EntryModel>, name: Seq<char>) -> bool {
    exists|t: int| 0 <= t < d.len() && d[t].0 == name
}

proof fn lemma_first_named(ms: Seq<TeamMember>, name: Seq<char>)
    ensures
        match first_named(ms, name) {
            Some(k) => 0 <= k < ms.len() && ms[k].name@ == name
                && forall|j: int| 0 <= j < k ==> ms[j].name@ != name,
            None => forall|j: int| 0 <= j < ms.len() ==> ms[j].name@ != name,
        },
    decreases ms.len(),
{
    if ms.len() > 0 {
        lemma_first_named(ms.drop_first(), name);
        if ms[0].name@ != name {
            match first_named(ms.drop_first(), name) {
                Some(k) => {
                    assert forall|j: int| 0 <= j < k + 1 implies ms[j].name@ != name by {
                        if j > 0 {
                            assert(ms[j] == ms.drop_first()[j - 1]);
                        }
                    }
                },
                None => {
                    assert forall|j: int| 0 <= j < ms.len() implies ms[j].name@ != name by {
                        if j > 0 {
                            assert(ms[j] == ms.drop_first()[j - 1]);
                        }
                    }
                },
            }
        }
    }
}

proof fn lemma_first_named_at(ms: Seq<TeamMember>, name: Seq<char>, i: int)
    requires
        0 <= i <= ms.len(),
        forall|j: int| 0 <= j < i ==> ms[j].name@ != name,
    ensures
        i < ms.len() && ms[i].name@ == name ==> first_named(ms, name) == Some(i),
        i == ms.len() ==> first_named(ms, name).is_none(),
    decreases i,
{
    if i > 0 {
        lemma_first_named_at(ms.drop_first(), name, i - 1);
    } else if ms.len() > 0 && ms[0].name@ != name {
        lemma_first_named(ms, name);
    }
}

proof fn lemma_diff_upto(old: Seq<TeamMember>, new: Seq<TeamMember>, i: int)
    requires
        0 <= i <= old.len(),
    ensures
        forall|t: int| 0 <= t < diff_upto(old, new, i).len()
            ==> owed_entry(old, new, diff_upto(old, new, i)[t].0) == Some(diff_upto(old, new, i)[t]),
        forall|k: int| 0 <= k < i && first_named(old, old[k].name@) == Some(k)
            && owed_entry(old, new, old[k].name@).is_some()
            ==> has_entry(diff_upto(old, new, i), old[k].name@),
    decreases i,
{
    if i > 0 {
        lemma_diff_upto(old, new, i - 1);
        let prev = diff_upto(old, new, i - 1);
        let d = diff_upto(old, new, i);
        let name = old[i - 1].name@;
        assert(d == prev + entry_for(old, new, i - 1));
        assert forall|t: int| 0 <= t < d.len() implies owed_entry(old, new, d[t].0) == Some(d[t]) by {
            if t >= prev.len() {
                assert(first_named(old, name) == Some(i - 1));
                assert(d[t] == owed_entry(old, new, name)->Some_0);
            } else {
                assert(d[t] == prev[t]);
            }
        }
        assert forall|k: int| 0 <= k < i && first_named(old, old[k].name@) == Some(k)
            && owed_entry(old, new, old[k].name@).is_some()
            implies has_entry(d, old[k].name@) by {
            if k < i - 1 {
                let t = choose|t: int| 0 <= t < prev.len() && prev[t].0 == old[k].name@;
                assert(d[t] == prev[t]);
            } else {
                assert(d[prev.len() as int] == owed_entry(old, new, name)->Some_0);
            }
        }
    }
}

/// The diff reports a member exactly when its name stands in both
/// snapshots and the first members of that name differ in a tracked field;
/// the reported chat user and changed fields are then exactly those of that
/// pair.
pub proof fn lemma_diff_correct(old: Team, new: Team, name: Seq<char>)
    ensures
        forall|t: int| 0 <= t < spec_diff(old, new).len()
            ==> owed_entry(old.current@, new.current@, spec_diff(old, new)[t].0) == Some(spec_diff(old, new)[t]),
        has_entry(spec_diff(old, new), name) <==> owed_entry(old.current@, new.current@, name).is_some(),
{
    let o = old.current@;
    let n = new.current@;
    lemma_diff_upto(o, n, o.len() as int);
    lemma_first_named(o, name);
    if has_entry(spec_diff(old, new), name) {
        let t = choose|t: int| 0 <= t < spec_diff(old, new).len() && spec_diff(old, new)[t].0 == name;
        assert(owed_entry(o, n, spec_diff(old, new)[t].0) == Some(spec_diff(old, new)[t]));
    }
}

/// A member present in only one of the two snapshots is never reported.
pub proof fn lemma_diff_ignores_unmatched(old: Team, new: Team, name: Seq<char>)
    requires
        first_named(old.current@, name).is_none() || first_named(new.current@, name).is_none(),
    ensures
        !has_entry(spec_diff(old, new), name),
{
    lemma_diff_correct(old, new, name);
}

/// The position of the first member called `name`.
fn find_named(ms: &Vec<TeamMember>, name: &String) -> (r: Option<usize>)
    ensures
        match r {
            Some(j) => first_named(ms@, name@) == Some(j as int),
            None => first_named(ms@, name@).is_none(),
        },
{
    let mut i: usize = 0;
    while i < ms.len()
        invariant
            i <= ms@.len(),
            forall|j: int| 0 <= j < i ==> ms@[j].name@ != name@,
        decreases ms@.len() - i,
    {
        if ms[i].name == *name {
            proof {
                lemma_first_named_at(ms@, name@, i as int);
            }
            return Some(i);
        }
        i = i + 1;
    }
    proof {
        lemma_first_named_at(ms@, name@, i as int);
    }
    None
}

/// The names of the members up to `i` that repeat an earlier member's name,
/// in order.
pub open spec fn repeats_upto(ms: Seq<TeamMember>, i: int) -> Seq<Seq<char>>
    decreases i,
{
    if i <= 0 {
        Seq::empty()
    } else if first_named(ms, ms[i - 1].name@) == Some(i - 1) {
        repeats_upto(ms, i - 1)
    } else {
        repeats_upto(ms, i - 1).push(ms[i - 1].name@)
    }
}

/// The name of each member that repeats an earlier member's name, in
/// order: the diff passes over these members.
pub fn duplicate_names(ms: &Vec<TeamMember>) -> (r: Vec<String>)
    ensures
        r@.map_values(|n: String| n@) == repeats_upto(ms@, ms@.len() as int),
{
    let mut out: Vec<String> = Vec::new();
    let mut i: usize = 0;
    while i < ms.len()
        invariant
            i <= ms@.len(),
            out@.map_values(|n: String| n@) == repeats_upto(ms@, i as int),
        decreases ms@.len() - i,
    {
        let first = find_named(ms, &ms[i].name);
        let repeated = match first {
            Some(k) => k != i,
            None => true,
        };
        if repeated {
            out.push(ms[i].name.clone());
        }
        assert(out@.map_values(|n: String| n@) =~= repeats_upto(ms@, i + 1));
        i = i + 1;
    }
    out
}

/// The members of `old.current` whose tracked fields changed in
/// `new.current`, matched by name, in the order of `old.current`.
pub fn diff(old: &Team, new: &Team) -> (r: Vec<DiffEntry>)
    ensures
        r@.map_values(|e: DiffEntry| entry_view(e)) == spec_diff(*old, *new),
{
    let mut entries: Vec<DiffEntry> = Vec::new();
    let mut i: usize = 0;
    while i < old.current.len()
        invariant
            i <= old.current@.len(),
            entries@.map_values(|e: DiffEntry| entry_view(e)) == diff_upto(old.current@, new.current@, i as int),
        decreases old.current@.len() - i,
    {
        let m = &old.current[i];
        let ghost before = entries@.map_values(|e: DiffEntry| entry_view(e));
        proof {
            lemma_first_named(old.current@, m.name@);
        }
        match find_named(&old.current, &m.name) {
            Some(k) => if k == i {
                match find_named(&new.current, &m.name) {
                    Some(j) => {
                        proof {
                            lemma_first_named(new.current@, m.name@);
                        }
                        let changed_fields = m.differences(&new.current[j]);
                        if changed_fields.len() > 0 {
                            let slack_id = match &m.slack_id {
                                Some(s) => Some(s.clone()),
                                None => None,
                            };
                            entries.push(DiffEntry { member_name: m.name.clone(), slack_id, changed_fields });
                        }
                    },
                    None => {},
                }
            },
            None => {},
        }
        assert(entries@.map_values(|e: DiffEntry| entry_view(e)) =~= before + entry_for(
            old.current@,
            new.current@,
            i as int,
        ));
        i = i + 1;
    }
    entries
}

} // verus!
