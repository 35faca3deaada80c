//! Reading an avatar's file of VRChat's local avatar data, and the search
//! for that file among the user directories: which operation comes next,
//! given what the last one found. The program around performs each
//! operation (listing directories, reading files, narrowing floats) and
//! reports back.
use vstd::prelude::*;
use crate::params::{
    AnimationParameter, AnimationParameterView, ParameterList, apply_entries, default_parameters,
    parameters_view, vrc_state_to_map,
};
use crate::paths::avatar_file_path;

verus! {

#[verifier::external_type_specification]
#[verifier::external_body]
pub struct ExJsonError(serde_json::Error);

/// One entry of `animationParameters` as the file holds it.
pub struct RawAnimationParameter {
    /// The JSON text of the entry's `name` (a JSON string shows with its quotes).
    pub name_json: String,
    /// The entry's `value` as an `i64`, where it is one.
    pub int_value: Option<i64>,
    /// The entry's `value` as an `f64`, by the bits of that `f64`, where the
    /// value is a number.
    pub f64_bits: Option<u64>,
}

/// The entries as plain values: name text, integer value, `f64` bits.
pub open spec fn raw_view(ps: Seq<RawAnimationParameter>) -> Seq<(Seq<char>, Option<i64>, Option<u64>)> {
    Seq::new(ps.len(), |i: int| (ps[i].name_json@, ps[i].int_value, ps[i].f64_bits))
}

/// What an avatar data file with the text `text` holds, as `serde_json`
/// reads it: `None` where the text is no JSON; else the entries of its
/// `animationParameters` array (none where there is no such array), each as
/// the JSON text of its `name`, its `value` as an `i64` and its `value` as
/// the bits of an `f64`.
pub uninterp spec fn avatar_data_json(text: Seq<char>) -> Option<Seq<(Seq<char>, Option<i64>, Option<u64>)>>;

/// `serde_json::from_str::<serde_json::Value>` on `text`, with the entries
/// of `animationParameters` read out of the value (`Value`'s indexing,
/// `as_array`, `to_string`, `as_i64`, `as_f64` with `to_bits`). The claim:
/// the outcome is what `avatar_data_json` names for the text.
#[verifier::external_body]
fn parse_avatar_data(text: &str) -> (r: Result<Vec<RawAnimationParameter>, serde_json::Error>)
    ensures
        match avatar_data_json(text@) {
            Some(entries) => (r matches Ok(v) && raw_view(v@) == entries),
            None => r is Err,
        },
{
    match serde_json::from_str::<serde_json::Value>(text) {
        Ok(state) => Ok(match state["animationParameters"].as_array() {
            Some(ps) => ps.iter().map(|p| RawAnimationParameter {
                name_json: p["name"].to_string(),
                int_value: p["value"].as_i64(),
                f64_bits: p["value"].as_f64().map(|f| f.to_bits()),
            }).collect(),
            None => Vec::new(),
        }),
        Err(e) => Err(e),
    }
}

/// The entries as the parameter reading takes them: name and integer as the
/// file holds them, the float as the given `f32` bits.
pub open spec fn narrowed_view(raw: Seq<RawAnimationParameter>, f32_bits: Seq<Option<u32>>) -> Seq<
    AnimationParameterView,
> {
    Seq::new(
        raw.len(),
        |i: int|
            AnimationParameterView {
                name_json: raw[i].name_json@,
                int_value: raw[i].int_value,
                float_bits: f32_bits[i],
            },
    )
}

/// The entries with each value's float given as the bits of an `f32`
/// (`f32_bits[i]` for entry `i`).
pub fn narrowed_parameters(raw: &Vec<RawAnimationParameter>, f32_bits: &Vec<Option<u32>>) -> (r: Vec<
    AnimationParameter,
>)
    requires
        raw@.len() == f32_bits@.len(),
    ensures
        parameters_view(r@) == narrowed_view(raw@, f32_bits@),
{
    let mut r: Vec<AnimationParameter> = Vec::new();
    let mut i: usize = 0;
    while i < raw.len()
        invariant
            i <= raw@.len(),
            raw@.len() == f32_bits@.len(),
            r@.len() == i,
            forall|j: int|
                0 <= j < i ==> #[trigger] r@[j]@ == narrowed_view(raw@, f32_bits@)[j],
        decreases raw.len() - i,
    {
        r.push(
            AnimationParameter {
                name_json: raw[i].name_json.clone(),
                int_value: raw[i].int_value,
                float_bits: f32_bits[i],
            },
        );
        i = i + 1;
    }
    assert(parameters_view(r@) =~= narrowed_view(raw@, f32_bits@));
    r
}

/// What the last operation of the search for an avatar's data found.
pub enum AvatarSearchEvent {
    /// Nothing has been done yet.
    Started,
    /// The next user directory, by its path text, or `None` where that
    /// directory entry could not be read.
    Entry(Option<String>),
    /// No user directory is left.
    Exhausted,
    /// The text of the avatar's file in the last user directory, or `None`
    /// where there is no readable such file.
    FileRead(Option<String>),
    /// The file's entries, with the `f32` bits of each value's float.
    Narrowed(Vec<RawAnimationParameter>, Vec<Option<u32>>),
}

/// The next operation of the search.
pub enum AvatarSearchAction {
    /// Go on to the next user directory.
    NextEntry,
    /// Read the file with this path.
    ReadFile(String),
    /// Narrow the `f64` values of these entries to `f32`.
    Narrow(Vec<RawAnimationParameter>),
    /// The file found holds no valid JSON: the search ends with no
    /// parameters.
    Invalid(serde_json::Error),
    /// The search is over: the avatar's parameters, or `None` where no user
    /// directory holds a readable file for the avatar.
    Done(Option<ParameterList>),
}

/// The next step of the search for the data of avatar `avatar_id`: each user
/// directory in turn is looked into for a file named by the avatar id; the
/// first readable one decides: its parameters where it holds valid JSON, no
/// parameters where it does not.
pub fn avatar_search_step(avatar_id: &str, event: AvatarSearchEvent) -> (r: AvatarSearchAction)
    requires
        event matches AvatarSearchEvent::Narrowed(raw, bits) ==> raw@.len() == bits@.len(),
    ensures
        match event {
            AvatarSearchEvent::Started => r is NextEntry,
            AvatarSearchEvent::Entry(None) => r is NextEntry,
            AvatarSearchEvent::Entry(Some(dir)) => (r matches AvatarSearchAction::ReadFile(path)
                && path@ == dir@ + "\\"@ + avatar_id@),
            AvatarSearchEvent::Exhausted => r matches AvatarSearchAction::Done(None),
            AvatarSearchEvent::FileRead(None) => r is NextEntry,
            AvatarSearchEvent::FileRead(Some(text)) => match avatar_data_json(text@) {
                Some(entries) => (r matches AvatarSearchAction::Narrow(raw) && raw_view(raw@)
                    == entries),
                None => r is Invalid,
            },
            AvatarSearchEvent::Narrowed(raw, bits) => (r matches AvatarSearchAction::Done(Some(m))
                && m@ == apply_entries(default_parameters(), narrowed_view(raw@, bits@))),
        },
{
    match event {
        AvatarSearchEvent::Started => AvatarSearchAction::NextEntry,
        AvatarSearchEvent::Entry(None) => AvatarSearchAction::NextEntry,
        AvatarSearchEvent::Entry(Some(dir)) => AvatarSearchAction::ReadFile(
            avatar_file_path(dir.as_str(), avatar_id),
        ),
        AvatarSearchEvent::Exhausted => AvatarSearchAction::Done(None),
        AvatarSearchEvent::FileRead(None) => AvatarSearchAction::NextEntry,
        AvatarSearchEvent::FileRead(Some(text)) => match parse_avatar_data(text.as_str()) {
            Ok(raw) => AvatarSearchAction::Narrow(raw),
            Err(e) => AvatarSearchAction::Invalid(e),
        },
        AvatarSearchEvent::Narrowed(raw, bits) => {
            let params = narrowed_parameters(&raw, &bits);
            AvatarSearchAction::Done(Some(vrc_state_to_map(&params)))
        },
    }
}

} // verus!
