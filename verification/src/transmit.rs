//! Which parameters of a saved state are sent back to VRChat, and in what
//! order. The avatar's animator emulates integers with mutually exclusive
//! toggles for tops and bottoms, so of those only the ones toggled on are
//! sent, and none at all while the swimsuit is on.
use vstd::prelude::*;
use crate::text::{has_substring, contains_str, str_eq};
use crate::params::AssParam;

verus! {

/// One parameter of a saved state file: its name, and its value where the
/// saved JSON holds a valid parameter value (`None` where it does not).
pub struct SavedEntry {
    pub name: String,
    pub value: Option<AssParam>,
}

/// One step of sending a state.
#[derive(Clone, Debug, PartialEq, Eq)]
pub enum TransmitStep {
    /// Send this parameter with this value.
    Send(String, AssParam),
    /// Leave out this parameter because the swimsuit is on.
    Skip(String),
}

/// A step of sending a state, with the name as a character sequence.
pub enum StepView {
    Send(Seq<char>, AssParam),
    Skip(Seq<char>),
}

impl View for TransmitStep {
    type V = StepView;

    open spec fn view(&self) -> StepView {
        match self {
            TransmitStep::Send(n, v) => StepView::Send(n@, *v),
            TransmitStep::Skip(n) => StepView::Skip(n@),
        }
    }
}

/// The steps for sending a saved state. `complete` is false where an entry
/// held no valid value: the steps then stop before it, as sending does.
pub struct Transmission {
    pub steps: Vec<TransmitStep>,
    pub complete: bool,
}

/// The views of a list of steps.
pub open spec fn steps_view(steps: Seq<TransmitStep>) -> Seq<StepView> {
    steps.map_values(|t: TransmitStep| t@)
}

/// The name of the swimsuit toggle.
pub open spec fn swimsuit_name() -> Seq<char> {
    "Toggles/SwimsuitOn"@
}

/// The first entry called `Toggles/SwimsuitOn` stands at `i`.
pub open spec fn first_swimsuit_at(entries: Seq<SavedEntry>, i: int) -> bool {
    &&& 0 <= i < entries.len()
    &&& entries[i].name@ == swimsuit_name()
    &&& forall|j: int| 0 <= j < i ==> #[trigger] entries[j].name@ != swimsuit_name()
}

/// The saved state has the swimsuit on: its `Toggles/SwimsuitOn` entry is
/// the toggle `true` (an invalid or float value counts as off).
pub open spec fn swimsuit_on(entries: Seq<SavedEntry>) -> bool {
    exists|i: int|
        first_swimsuit_at(entries, i) && #[trigger] entries[i].value == Some(AssParam::Bool(true))
}

/// The name belongs to a top or a bottom.
pub open spec fn is_top_or_bottom(name: Seq<char>) -> bool {
    has_substring(name, "Top"@) || has_substring(name, "Bot"@)
}

/// The steps for one saved parameter: tops and bottoms are skipped while the
/// swimsuit is on, and otherwise sent only when toggled on; swimsuit toggles
/// are not sent here; everything else is sent as saved.
pub open spec fn entry_steps(name: Seq<char>, v: AssParam, swimsuit: bool) -> Seq<StepView> {
    if is_top_or_bottom(name) && swimsuit {
        seq![StepView::Skip(name)]
    } else if is_top_or_bottom(name) {
        if v == AssParam::Bool(true) {
            seq![StepView::Send(name, AssParam::Bool(true))]
        } else {
            Seq::empty()
        }
    } else if !has_substring(name, "Toggles/Swimsuit"@) {
        seq![StepView::Send(name, v)]
    } else {
        Seq::empty()
    }
}

/// The steps for the entries in order, and whether every entry held a
/// valid value (the steps stop at the first that did not).
pub open spec fn planned(entries: Seq<SavedEntry>, swimsuit: bool) -> (Seq<StepView>, bool)
    decreases entries.len(),
{
    if entries.len() == 0 {
        (Seq::empty(), true)
    } else {
        let (before, ok) = planned(entries.drop_last(), swimsuit);
        if !ok {
            (before, false)
        } else {
            match entries.last().value {
                None => (before, false),
                Some(v) => (before + entry_steps(entries.last().name@, v, swimsuit), true),
            }
        }
    }
}

/// All steps for sending the saved state `entries`: the swimsuit toggle
/// first where it is on, then the steps of each entry.
pub open spec fn transmission(entries: Seq<SavedEntry>) -> (Seq<StepView>, bool) {
    let swim = swimsuit_on(entries);
    let lead = if swim {
        seq![StepView::Send(swimsuit_name(), AssParam::Bool(true))]
    } else {
        Seq::empty()
    };
    (lead + planned(entries, swim).0, planned(entries, swim).1)
}

/// Whether the saved state has the swimsuit on.
pub fn is_swimsuit_on(entries: &Vec<SavedEntry>) -> (r: bool)
    ensures
        r == swimsuit_on(entries@),
{
    let mut i: usize = 0;
    while i < entries.len()
        invariant
            i <= entries@.len(),
            forall|j: int| 0 <= j < i ==> #[trigger] entries@[j].name@ != swimsuit_name(),
        decreases entries.len() - i,
    {
        if str_eq(entries[i].name.as_str(), "Toggles/SwimsuitOn") {
            proof {
                assert(first_swimsuit_at(entries@, i as int));
                assert forall|k: int| first_swimsuit_at(entries@, k) implies k == i by {
                    if k < i {
                        assert(entries@[k].name@ != swimsuit_name());
                    }
                    if k > i {
                        assert(entries@[i as int].name@ != swimsuit_name());
                    }
                }
            }
            return match entries[i].value {
                Some(AssParam::Bool(b)) => b,
                _ => false,
            };
        }
        i = i + 1;
    }
    false
}

/// The steps for one saved parameter, appended to `steps`.
fn push_entry_steps(steps: &mut Vec<TransmitStep>, name: &String, v: AssParam, swimsuit: bool)
    ensures
        steps_view(final(steps)@) == steps_view(old(steps)@) + entry_steps(name@, v, swimsuit),
{
    let ghost start = old(steps)@;
    let top_or_bottom = contains_str(name.as_str(), "Top") || contains_str(name.as_str(), "Bot");
    if top_or_bottom && swimsuit {
        steps.push(TransmitStep::Skip(name.clone()));
    } else if top_or_bottom {
        match v {
            AssParam::Bool(true) => {
                steps.push(TransmitStep::Send(name.clone(), AssParam::Bool(true)));
            },
            _ => {},
        }
    } else if !contains_str(name.as_str(), "Toggles/Swimsuit") {
        steps.push(TransmitStep::Send(name.clone(), v));
    }
    assert(steps_view(steps@) =~= steps_view(start) + entry_steps(name@, v, swimsuit));
}

/// The steps for sending the saved state `entries` (in the order the state
/// file lists them).
pub fn plan_transmission(entries: &Vec<SavedEntry>) -> (r: Transmission)
    ensures
        (steps_view(r.steps@), r.complete) == transmission(entries@),
{
    let swim = is_swimsuit_on(entries);
    let mut steps: Vec<TransmitStep> = Vec::new();
    if swim {
        steps.push(TransmitStep::Send("Toggles/SwimsuitOn".to_owned(), AssParam::Bool(true)));
    }
    let ghost lead = steps_view(steps@);
    assert(lead =~= (if swim {
        seq![StepView::Send(swimsuit_name(), AssParam::Bool(true))]
    } else {
        Seq::empty()
    }));
    let mut i: usize = 0;
    while i < entries.len()
        invariant
            i <= entries@.len(),
            swim == swimsuit_on(entries@),
            lead == (if swim {
                seq![StepView::Send(swimsuit_name(), AssParam::Bool(true))]
            } else {
                Seq::empty()
            }),
            planned(entries@.take(i as int), swim).1,
            steps_view(steps@) == lead + planned(entries@.take(i as int), swim).0,
        decreases entries.len() - i,
    {
        assert(entries@.take(i + 1).drop_last() =~= entries@.take(i as int));
        assert(entries@.take(i + 1).last() == entries@[i as int]);
        match entries[i].value {
            None => {
                proof {
                    lemma_planned_stops(entries@, swim, i + 1);
                }
                return Transmission { steps, complete: false };
            },
            Some(v) => {
                push_entry_steps(&mut steps, &entries[i].name, v, swim);
                assert(steps_view(steps@) =~= lead + planned(entries@.take(i + 1), swim).0);
            },
        }
        i = i + 1;
    }
    assert(entries@.take(entries.len() as int) =~= entries@);
    Transmission { steps, complete: true }
}

/// Once an entry held no valid value, later entries change nothing.
proof fn lemma_planned_stops(entries: Seq<SavedEntry>, swimsuit: bool, i: int)
    requires
        0 <= i <= entries.len(),
        !planned(entries.take(i), swimsuit).1,
    ensures
        planned(entries, swimsuit) == planned(entries.take(i), swimsuit),
    decreases entries.len() - i,
{
    if i == entries.len() {
        assert(entries.take(i) =~= entries);
    } else {
        assert(entries.take(i + 1).drop_last() =~= entries.take(i));
        lemma_planned_stops(entries, swimsuit, i + 1);
    }
}

/// Every step of `planned` is sent or skipped for one of the entries, with
/// the value of that entry: the steps for each entry come from
/// `entry_steps`.
proof fn lemma_planned_from_entries(entries: Seq<SavedEntry>, swimsuit: bool, k: int)
    requires
        0 <= k < planned(entries, swimsuit).0.len(),
    ensures
        exists|i: int|
            #![trigger entries[i]]
            0 <= i < entries.len() && entries[i].value is Some && entry_steps(
                entries[i].name@,
                entries[i].value->Some_0,
                swimsuit,
            ).contains(planned(entries, swimsuit).0[k]),
    decreases entries.len(),
{
    let t = entries.drop_last();
    let (before, ok) = planned(t, swimsuit);
    if k < before.len() {
        lemma_planned_from_entries(t, swimsuit, k);
        let i = choose|i: int|
            #![trigger t[i]]
            0 <= i < t.len() && t[i].value is Some && entry_steps(
                t[i].name@,
                t[i].value->Some_0,
                swimsuit,
            ).contains(planned(t, swimsuit).0[k]);
        assert(entries[i] == t[i]);
    } else {
        let last = entries.len() - 1;
        let es = entry_steps(entries[last].name@, entries[last].value->Some_0, swimsuit);
        assert(es[k - before.len()] == planned(entries, swimsuit).0[k]);
        assert(es.contains(planned(entries, swimsuit).0[k]));
    }
}

/// While the swimsuit is on, no top or bottom is sent; while it is off, a
/// top or bottom is sent only as the toggle `true`.
pub proof fn tops_and_bottoms_follow_swimsuit(entries: Seq<SavedEntry>, k: int)
    requires
        0 <= k < transmission(entries).0.len(),
    ensures
        match transmission(entries).0[k] {
            StepView::Send(name, v) => is_top_or_bottom(name) ==> !swimsuit_on(entries) && v
                == AssParam::Bool(true),
            StepView::Skip(name) => swimsuit_on(entries) && is_top_or_bottom(name),
        },
{
    let swim = swimsuit_on(entries);
    let lead_len: int = if swim { 1 } else { 0 };
    if k < lead_len {
        let name = swimsuit_name();
        assert(!has_substring(name, "Top"@)) by {
            reveal_strlit("Toggles/SwimsuitOn");
            reveal_strlit("Top");
            assert forall|i: int| !crate::text::occurs_at(name, "Top"@, i) by {
                if 0 <= i && i + 3 <= name.len() {
                    assert(name.subrange(i, i + 3)[0] == name[i]);
                    assert(name.subrange(i, i + 3)[1] == name[i + 1]);
                    assert(name.subrange(i, i + 3)[2] == name[i + 2]);
                }
            }
        }
        assert(!has_substring(name, "Bot"@)) by {
            reveal_strlit("Toggles/SwimsuitOn");
            reveal_strlit("Bot");
            assert forall|i: int| !crate::text::occurs_at(name, "Bot"@, i) by {
                if 0 <= i && i + 3 <= name.len() {
                    assert(name.subrange(i, i + 3)[0] == name[i]);
                    assert(name.subrange(i, i + 3)[1] == name[i + 1]);
                    assert(name.subrange(i, i + 3)[2] == name[i + 2]);
                }
            }
        }
    } else {
        let p = planned(entries, swim).0;
        assert(transmission(entries).0[k] == p[k - lead_len]);
        lemma_planned_from_entries(entries, swim, k - lead_len);
    }
}

/// Nothing is sent that the state does not hold: every value sent is the
/// saved value of an entry of that name, or `true` for the swimsuit toggle
/// that leads.
pub proof fn sends_only_saved_values(entries: Seq<SavedEntry>, k: int)
    requires
        0 <= k < transmission(entries).0.len(),
    ensures
        match transmission(entries).0[k] {
            StepView::Send(name, v) => (k == 0 && swimsuit_on(entries) && name == swimsuit_name()
                && v == AssParam::Bool(true)) || exists|i: int|
                #![trigger entries[i]]
                0 <= i < entries.len() && entries[i].name@ == name && entries[i].value == Some(v),
            StepView::Skip(_) => true,
        },
{
    let swim = swimsuit_on(entries);
    let lead_len: int = if swim { 1 } else { 0 };
    if k >= lead_len {
        let p = planned(entries, swim).0;
        assert(transmission(entries).0[k] == p[k - lead_len]);
        lemma_planned_from_entries(entries, swim, k - lead_len);
        let i = choose|i: int|
            #![trigger entries[i]]
            0 <= i < entries.len() && entries[i].value is Some && entry_steps(
                entries[i].name@,
                entries[i].value->Some_0,
                swim,
            ).contains(p[k - lead_len]);
    }
}

/// With every entry valid, the steps of each entry stand in `planned`.
proof fn lemma_planned_has_entry_steps(entries: Seq<SavedEntry>, swimsuit: bool, i: int, j: int)
    requires
        planned(entries, swimsuit).1,
        0 <= i < entries.len(),
        entries[i].value is Some,
        0 <= j < entry_steps(entries[i].name@, entries[i].value->Some_0, swimsuit).len(),
    ensures
        planned(entries, swimsuit).0.contains(
            entry_steps(entries[i].name@, entries[i].value->Some_0, swimsuit)[j],
        ),
    decreases entries.len(),
{
    let t = entries.drop_last();
    let (before, ok) = planned(t, swimsuit);
    let es = entry_steps(entries[i].name@, entries[i].value->Some_0, swimsuit);
    if i < entries.len() - 1 {
        assert(t[i] == entries[i]);
        lemma_planned_has_entry_steps(t, swimsuit, i, j);
        let k = choose|k: int| 0 <= k < before.len() && before[k] == es[j];
        assert(planned(entries, swimsuit).0[k] == es[j]);
    } else {
        assert(planned(entries, swimsuit).0[before.len() + j] == es[j]);
    }
}

/// A fully valid saved state sends back each parameter that is neither a
/// top or bottom nor a swimsuit toggle, with its saved value.
pub proof fn sends_every_plain_parameter(entries: Seq<SavedEntry>, i: int)
    requires
        transmission(entries).1,
        0 <= i < entries.len(),
        entries[i].value is Some,
        !is_top_or_bottom(entries[i].name@),
        !has_substring(entries[i].name@, "Toggles/Swimsuit"@),
    ensures
        transmission(entries).0.contains(StepView::Send(entries[i].name@, entries[i].value->Some_0)),
{
    let swim = swimsuit_on(entries);
    let step = StepView::Send(entries[i].name@, entries[i].value->Some_0);
    assert(entry_steps(entries[i].name@, entries[i].value->Some_0, swim)[0] == step);
    lemma_planned_has_entry_steps(entries, swim, i, 0);
    let p = planned(entries, swim).0;
    let k = choose|k: int| 0 <= k < p.len() && p[k] == step;
    let lead_len: int = if swim { 1 } else { 0 };
    assert(transmission(entries).0[lead_len + k] == step);
}

/// With the swimsuit off, every top or bottom saved as toggled on is sent.
pub proof fn sends_every_top_or_bottom_that_is_on(entries: Seq<SavedEntry>, i: int)
    requires
        transmission(entries).1,
        !swimsuit_on(entries),
        0 <= i < entries.len(),
        entries[i].value == Some(AssParam::Bool(true)),
        is_top_or_bottom(entries[i].name@),
    ensures
        transmission(entries).0.contains(StepView::Send(entries[i].name@, AssParam::Bool(true))),
{
    let step = StepView::Send(entries[i].name@, AssParam::Bool(true));
    assert(entry_steps(entries[i].name@, AssParam::Bool(true), false)[0] == step);
    lemma_planned_has_entry_steps(entries, false, i, 0);
    let p = planned(entries, false).0;
    let k = choose|k: int| 0 <= k < p.len() && p[k] == step;
    assert(transmission(entries).0[k] == step);
}

/// Only an entry named exactly `Toggles/SwimsuitOn` decides whether the
/// swimsuit is on: an entry of any other name, put before or after the
/// others, changes nothing.
pub proof fn other_entries_do_not_decide_swimsuit(other: SavedEntry, entries: Seq<SavedEntry>)
    requires
        other.name@ != "Toggles/SwimsuitOn"@,
    ensures
        swimsuit_on(seq![other] + entries) == swimsuit_on(entries),
        swimsuit_on(entries.push(other)) == swimsuit_on(entries),
{
    let front = seq![other] + entries;
    let back = entries.push(other);
    if swimsuit_on(front) {
        let i = choose|i: int|
            first_swimsuit_at(front, i) && #[trigger] front[i].value == Some(AssParam::Bool(true));
        assert(i >= 1);
        assert(front[i] == entries[i - 1]);
        assert forall|j: int| 0 <= j < i - 1 implies #[trigger] entries[j].name@ != swimsuit_name() by {
            assert(front[j + 1] == entries[j]);
        }
        assert(first_swimsuit_at(entries, i - 1));
    }
    if swimsuit_on(entries) {
        let i = choose|i: int|
            first_swimsuit_at(entries, i) && #[trigger] entries[i].value == Some(AssParam::Bool(true));
        assert(front[i + 1] == entries[i]);
        assert forall|j: int| 0 <= j < i + 1 implies #[trigger] front[j].name@ != swimsuit_name() by {
            if j > 0 {
                assert(front[j] == entries[j - 1]);
            }
        }
        assert(first_swimsuit_at(front, i + 1));
        assert(back[i] == entries[i]);
        assert forall|j: int| 0 <= j < i implies #[trigger] back[j].name@ != swimsuit_name() by {
            assert(back[j] == entries[j]);
        }
        assert(first_swimsuit_at(back, i));
    }
    if swimsuit_on(back) {
        let i = choose|i: int|
            first_swimsuit_at(back, i) && #[trigger] back[i].value == Some(AssParam::Bool(true));
        assert(i < entries.len());
        assert(back[i] == entries[i]);
        assert forall|j: int| 0 <= j < i implies #[trigger] entries[j].name@ != swimsuit_name() by {
            assert(back[j] == entries[j]);
        }
        assert(first_swimsuit_at(entries, i));
    }
}

/// A leading `Toggles/SwimsuitOn` entry decides: the swimsuit is on exactly
/// when that entry is the toggle `true`, whatever follows.
pub proof fn first_swimsuit_entry_decides(first: SavedEntry, entries: Seq<SavedEntry>)
    requires
        first.name@ == "Toggles/SwimsuitOn"@,
    ensures
        swimsuit_on(seq![first] + entries) == (first.value == Some(AssParam::Bool(true))),
{
    let front = seq![first] + entries;
    assert(front[0] == first);
    assert(first_swimsuit_at(front, 0));
    if swimsuit_on(front) {
        let i = choose|i: int|
            first_swimsuit_at(front, i) && #[trigger] front[i].value == Some(AssParam::Bool(true));
        if i > 0 {
            assert(front[0].name@ != swimsuit_name());
        }
    }
}

/// Without a `Toggles/SwimsuitOn` entry the swimsuit is off.
pub proof fn no_swimsuit_entry_means_off(entries: Seq<SavedEntry>)
    requires
        forall|i: int| 0 <= i < entries.len() ==> #[trigger] entries[i].name@ != "Toggles/SwimsuitOn"@,
    ensures
        !swimsuit_on(entries),
{
}

} // verus!
