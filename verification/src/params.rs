//! The avatar's parameters: their values, the list of parameters that the
//! saver tracks, and how VRChat's local avatar data fills that list in.
use vstd::prelude::*;
use crate::text::{has_substring, occurs_at, strip_char, contains_str, str_eq, without_char};

verus! {

/// The value of one avatar parameter. A float is held as the bit pattern of
/// its `f32` (`f32::to_bits`); the library never computes with it.
#[derive(Clone, Copy, Debug, PartialEq, Eq, Structural)]
pub enum AssParam {
    Bool(bool),
    Float(u32),
}

/// A map from parameter name to value, with no name twice.
pub struct ParameterList {
    entries: Vec<(String, AssParam)>,
}

/// The map that a list of (name, value) entries stands for.
pub open spec fn entries_map(s: Seq<(String, AssParam)>) -> Map<Seq<char>, AssParam>
    decreases s.len(),
{
    if s.len() == 0 {
        Map::empty()
    } else {
        entries_map(s.drop_last()).insert(s.last().0@, s.last().1)
    }
}

/// No name occurs twice among the entries.
pub open spec fn distinct_names(s: Seq<(String, AssParam)>) -> bool {
    forall|i: int, j: int|
        0 <= i < s.len() && 0 <= j < s.len() && i != j ==> #[trigger] s[i].0@ != #[trigger] s[j].0@
}

proof fn lemma_entries_map_dom(s: Seq<(String, AssParam)>, k: Seq<char>)
    ensures
        entries_map(s).dom().contains(k) <==> exists|i: int| 0 <= i < s.len() && #[trigger] s[i].0@ == k,
    decreases s.len(),
{
    if s.len() > 0 {
        lemma_entries_map_dom(s.drop_last(), k);
        if entries_map(s.drop_last()).dom().contains(k) {
            let i = choose|i: int| 0 <= i < s.drop_last().len() && #[trigger] s.drop_last()[i].0@ == k;
            assert(s[i].0@ == k);
        }
        if exists|i: int| 0 <= i < s.len() && #[trigger] s[i].0@ == k {
            let i = choose|i: int| 0 <= i < s.len() && #[trigger] s[i].0@ == k;
            if i < s.len() - 1 {
                assert(s.drop_last()[i].0@ == k);
            }
        }
    }
}

proof fn lemma_entries_map_at(s: Seq<(String, AssParam)>, i: int)
    requires
        distinct_names(s),
        0 <= i < s.len(),
    ensures
        entries_map(s).dom().contains(s[i].0@),
        entries_map(s)[s[i].0@] == s[i].1,
    decreases s.len(),
{
    if i < s.len() - 1 {
        let t = s.drop_last();
        assert(distinct_names(t)) by {
            assert forall|a: int, b: int|
                0 <= a < t.len() && 0 <= b < t.len() && a != b implies #[trigger] t[a].0@
                != #[trigger] t[b].0@ by {
                assert(t[a] == s[a] && t[b] == s[b]);
            }
        }
        assert(t[i] == s[i]);
        lemma_entries_map_at(t, i);
        assert(s[s.len() - 1].0@ != s[i].0@);
    }
}

proof fn lemma_entries_map_update(s: Seq<(String, AssParam)>, i: int, v: AssParam)
    requires
        0 <= i < s.len(),
        distinct_names(s),
    ensures
        entries_map(s.update(i, (s[i].0, v))) == entries_map(s).insert(s[i].0@, v),
    decreases s.len(),
{
    let u = s.update(i, (s[i].0, v));
    if i == s.len() - 1 {
        assert(u.drop_last() =~= s.drop_last());
    } else {
        let t = s.drop_last();
        assert(distinct_names(t)) by {
            assert forall|a: int, b: int|
                0 <= a < t.len() && 0 <= b < t.len() && a != b implies #[trigger] t[a].0@
                != #[trigger] t[b].0@ by {
                assert(t[a] == s[a] && t[b] == s[b]);
            }
        }
        assert(t[i] == s[i]);
        lemma_entries_map_update(t, i, v);
        assert(u.drop_last() =~= t.update(i, (t[i].0, v)));
        assert(s[s.len() - 1].0@ != s[i].0@);
        assert(entries_map(u) =~= entries_map(s).insert(s[i].0@, v));
    }
}

impl View for ParameterList {
    type V = Map<Seq<char>, AssParam>;

    /// The parameters as a map from name to value.
    closed spec fn view(&self) -> Map<Seq<char>, AssParam> {
        entries_map(self.entries@)
    }
}

impl ParameterList {
    #[verifier::type_invariant]
    spec fn names_distinct(self) -> bool {
        distinct_names(self.entries@)
    }

    /// A list with no parameter (`HashMap::new()`).
    pub fn new() -> (r: Self)
        ensures
            r@ == Map::<Seq<char>, AssParam>::empty(),
    {
        ParameterList { entries: Vec::new() }
    }

    /// Where `name` stands among the entries, if it does.
    fn position(&self, name: &str) -> (r: Option<usize>)
        ensures
            match r {
                Some(i) => i < self.entries@.len() && self.entries@[i as int].0@ == name@,
                None => !self@.dom().contains(name@),
            },
    {
        let mut i: usize = 0;
        while i < self.entries.len()
            invariant
                i <= self.entries@.len(),
                forall|j: int| 0 <= j < i ==> #[trigger] self.entries@[j].0@ != name@,
            decreases self.entries.len() - i,
        {
            if str_eq(self.entries[i].0.as_str(), name) {
                return Some(i);
            }
            i = i + 1;
        }
        proof {
            lemma_entries_map_dom(self.entries@, name@);
        }
        None
    }

    /// Whether a parameter called `name` is in the list (`contains_key`).
    pub fn contains_key(&self, name: &str) -> (r: bool)
        ensures
            r == self@.dom().contains(name@),
    {
        proof {
            use_type_invariant(self);
        }
        match self.position(name) {
            Some(i) => {
                proof {
                    lemma_entries_map_at(self.entries@, i as int);
                }
                true
            },
            None => false,
        }
    }

    /// The value of the parameter called `name` (`get`).
    pub fn get(&self, name: &str) -> (r: Option<AssParam>)
        ensures
            r == (if self@.dom().contains(name@) {
                Some(self@[name@])
            } else {
                None
            }),
    {
        proof {
            use_type_invariant(self);
        }
        match self.position(name) {
            Some(i) => {
                proof {
                    lemma_entries_map_at(self.entries@, i as int);
                }
                Some(self.entries[i].1)
            },
            None => None,
        }
    }

    /// Sets the parameter `name` to `value`, adding it where it is not there
    /// yet (`insert`).
    pub fn insert(&mut self, name: &str, value: AssParam)
        ensures
            final(self)@ == old(self)@.insert(name@, value),
    {
        proof {
            use_type_invariant(&*self);
        }
        let pos = self.position(name);
        let mut entries: Vec<(String, AssParam)> = Vec::new();
        std::mem::swap(&mut entries, &mut self.entries);
        let ghost before = entries@;
        match pos {
            Some(i) => {
                let key = entries[i].0.clone();
                entries.set(i, (key, value));
                proof {
                    assert(entries@ =~= before.update(i as int, (before[i as int].0, value)));
                    lemma_entries_map_update(before, i as int, value);
                    assert(distinct_names(entries@)) by {
                        assert forall|a: int, b: int|
                            0 <= a < entries@.len() && 0 <= b < entries@.len() && a != b
                                implies #[trigger] entries@[a].0@ != #[trigger] entries@[b].0@ by {
                            assert(entries@[a].0@ == before[a].0@);
                            assert(entries@[b].0@ == before[b].0@);
                        }
                    }
                }
            },
            None => {
                entries.push((name.to_owned(), value));
                proof {
                    assert(entries@.drop_last() =~= before);
                    assert forall|j: int| 0 <= j < before.len() implies #[trigger] before[j].0@
                        != name@ by {
                        lemma_entries_map_dom(before, name@);
                    }
                    assert(distinct_names(entries@)) by {
                        assert forall|a: int, b: int|
                            0 <= a < entries@.len() && 0 <= b < entries@.len() && a != b
                                implies #[trigger] entries@[a].0@ != #[trigger] entries@[b].0@ by {
                            if a < before.len() && b < before.len() {
                                assert(entries@[a] == before[a] && entries@[b] == before[b]);
                            } else if a < before.len() {
                                assert(entries@[a] == before[a]);
                            } else {
                                assert(entries@[b] == before[b]);
                            }
                        }
                    }
                }
            },
        }
        self.entries = entries;
    }

    /// The number of parameters.
    pub fn len(&self) -> (r: usize)
        ensures
            r as nat == self@.dom().len(),
    {
        proof {
            use_type_invariant(self);
            lemma_entries_map_len(self.entries@);
        }
        self.entries.len()
    }

    /// The parameters as (name, value) pairs, each name once.
    pub fn to_vec(&self) -> (r: Vec<(String, AssParam)>)
        ensures
            entries_map(r@) == self@,
            distinct_names(r@),
            r@.len() == self@.dom().len(),
    {
        proof {
            use_type_invariant(self);
            lemma_entries_map_len(self.entries@);
        }
        let mut r: Vec<(String, AssParam)> = Vec::new();
        let mut i: usize = 0;
        while i < self.entries.len()
            invariant
                i <= self.entries@.len(),
                r@.len() == i,
                forall|j: int| 0 <= j < i ==> #[trigger] r@[j] == self.entries@[j],
            decreases self.entries.len() - i,
        {
            let name = self.entries[i].0.clone();
            r.push((name, self.entries[i].1));
            i = i + 1;
        }
        assert(r@ =~= self.entries@);
        r
    }
}

proof fn lemma_entries_map_len(s: Seq<(String, AssParam)>)
    requires
        distinct_names(s),
    ensures
        entries_map(s).dom().finite(),
        entries_map(s).dom().len() == s.len(),
    decreases s.len(),
{
    if s.len() > 0 {
        let t = s.drop_last();
        assert(distinct_names(t)) by {
            assert forall|a: int, b: int|
                0 <= a < t.len() && 0 <= b < t.len() && a != b implies #[trigger] t[a].0@
                != #[trigger] t[b].0@ by {
                assert(t[a] == s[a] && t[b] == s[b]);
            }
        }
        lemma_entries_map_len(t);
        lemma_entries_map_dom(t, s.last().0@);
        if entries_map(t).dom().contains(s.last().0@) {
            let i = choose|i: int| 0 <= i < t.len() && #[trigger] t[i].0@ == s.last().0@;
            assert(s[i].0@ == s[s.len() - 1].0@);
        }
    }
}


/// The parameters that the saver tracks, each with its value before any
/// avatar data is read: `Mat/Hue` and `Mat/Colors/HairHue` are floats (0.0),
/// all others toggles.
pub open spec fn default_parameters() -> Map<Seq<char>, AssParam> {
    Map::<Seq<char>, AssParam>::empty()
        .insert("Toggles/SwimsuitOn"@, AssParam::Bool(true))
        .insert("Toggles/JacketOn"@, AssParam::Bool(true))
        .insert("Toggles/Tops/CropOn"@, AssParam::Bool(false))
        .insert("Toggles/Tops/SportsBraOn"@, AssParam::Bool(false))
        .insert("Toggles/Tops/TankTopOn"@, AssParam::Bool(true))
        .insert("Toggles/Tops/NSFW"@, AssParam::Bool(false))
        .insert("Toggles/Acc/BeanieOff"@, AssParam::Bool(false))
        .insert("Toggles/Acc/GlovesOff"@, AssParam::Bool(false))
        .insert("Toggles/Acc/HeadphonesOff"@, AssParam::Bool(false))
        .insert("Toggles/Acc/MaskOff"@, AssParam::Bool(false))
        .insert("Toggles/Acc/ThighSocksOn"@, AssParam::Bool(true))
        .insert("Toggles/Acc/CalfSocksOn"@, AssParam::Bool(false))
        .insert("Toggles/Acc/SleevesOff"@, AssParam::Bool(false))
        .insert("Toggles/Acc/HolotagArmOff"@, AssParam::Bool(false))
        .insert("Toggles/Acc/HolotagThighOff"@, AssParam::Bool(false))
        .insert("Toggles/Acc/RunningShoeOff"@, AssParam::Bool(false))
        .insert("Toggles/Bottoms/PantiesOn"@, AssParam::Bool(false))
        .insert("Toggles/Bottoms/AssPantsOn"@, AssParam::Bool(true))
        .insert("Toggles/Bottoms/PantsOn"@, AssParam::Bool(false))
        .insert("Toggles/Bottoms/NSFW"@, AssParam::Bool(false))
        .insert("Toggles/Acc/GlassesOff"@, AssParam::Bool(false))
        .insert("Toggles/Acc/BackpackOff"@, AssParam::Bool(false))
        .insert("Toggles/Acc/DogtagsOff"@, AssParam::Bool(false))
        .insert("Toggles/Acc/LipRingsOff"@, AssParam::Bool(false))
        .insert("Toggles/Acc/EarringsOff"@, AssParam::Bool(false))
        .insert("Hair/ShortOn"@, AssParam::Bool(false))
        .insert("Hair/PonyOn"@, AssParam::Bool(false))
        .insert("Hair/LongOn"@, AssParam::Bool(true))
        .insert("Nails/Normal"@, AssParam::Bool(false))
        .insert("Nails/Square"@, AssParam::Bool(false))
        .insert("Nails/Almond"@, AssParam::Bool(false))
        .insert("Nails/Longer"@, AssParam::Bool(false))
        .insert("Nails/Stilletto"@, AssParam::Bool(true))
        .insert("Mat/Hue"@, AssParam::Float(0))
        .insert("Mat/Colors/HairHue"@, AssParam::Float(0))
        .insert("Mat/Colors/HairColored"@, AssParam::Bool(true))
        .insert("Mat/Cyberpunk"@, AssParam::Bool(true))
        .insert("Mat/HairBlack"@, AssParam::Bool(false))
        .insert("Mat/HairWhite"@, AssParam::Bool(false))
        .insert("Mat/HairBlonde"@, AssParam::Bool(true))
        .insert("Mat/Monochromatic"@, AssParam::Bool(false))
        .insert("Mat/AudioLink"@, AssParam::Bool(false))
        .insert("Mat/Colors/AssPantsDark"@, AssParam::Bool(true))
        .insert("Mat/Colors/BackpackDark"@, AssParam::Bool(false))
        .insert("Mat/Colors/BeanieDark"@, AssParam::Bool(true))
        .insert("Mat/Colors/GlovesDark"@, AssParam::Bool(true))
        .insert("Mat/Colors/HeadphonesDark"@, AssParam::Bool(true))
        .insert("Mat/Colors/JacketDark"@, AssParam::Bool(false))
        .insert("Mat/Colors/MaskDark"@, AssParam::Bool(true))
        .insert("Mat/Colors/ShoeDark"@, AssParam::Bool(false))
        .insert("Mat/Colors/SleevesDark"@, AssParam::Bool(true))
        .insert("Mat/Colors/SwimsuitDark"@, AssParam::Bool(false))
        .insert("Mat/Colors/PantsDark"@, AssParam::Bool(false))
        .insert("Mat/Colors/SportsBraDark"@, AssParam::Bool(true))
        .insert("Mat/Colors/TankTopDark"@, AssParam::Bool(true))
        .insert("Mat/Colors/CropDark"@, AssParam::Bool(true))
}

/// The list of tracked parameters with their starting values.
pub fn new_parameter_list() -> (r: ParameterList)
    ensures
        r@ == default_parameters(),
{
    let mut r = ParameterList::new();
    r.insert("Toggles/SwimsuitOn", AssParam::Bool(true));
    r.insert("Toggles/JacketOn", AssParam::Bool(true));
    r.insert("Toggles/Tops/CropOn", AssParam::Bool(false));
    r.insert("Toggles/Tops/SportsBraOn", AssParam::Bool(false));
    r.insert("Toggles/Tops/TankTopOn", AssParam::Bool(true));
    r.insert("Toggles/Tops/NSFW", AssParam::Bool(false));
    r.insert("Toggles/Acc/BeanieOff", AssParam::Bool(false));
    r.insert("Toggles/Acc/GlovesOff", AssParam::Bool(false));
    r.insert("Toggles/Acc/HeadphonesOff", AssParam::Bool(false));
    r.insert("Toggles/Acc/MaskOff", AssParam::Bool(false));
    r.insert("Toggles/Acc/ThighSocksOn", AssParam::Bool(true));
    r.insert("Toggles/Acc/CalfSocksOn", AssParam::Bool(false));
    r.insert("Toggles/Acc/SleevesOff", AssParam::Bool(false));
    r.insert("Toggles/Acc/HolotagArmOff", AssParam::Bool(false));
    r.insert("Toggles/Acc/HolotagThighOff", AssParam::Bool(false));
    r.insert("Toggles/Acc/RunningShoeOff", AssParam::Bool(false));
    r.insert("Toggles/Bottoms/PantiesOn", AssParam::Bool(false));
    r.insert("Toggles/Bottoms/AssPantsOn", AssParam::Bool(true));
    r.insert("Toggles/Bottoms/PantsOn", AssParam::Bool(false));
    r.insert("Toggles/Bottoms/NSFW", AssParam::Bool(false));
    r.insert("Toggles/Acc/GlassesOff", AssParam::Bool(false));
    r.insert("Toggles/Acc/BackpackOff", AssParam::Bool(false));
    r.insert("Toggles/Acc/DogtagsOff", AssParam::Bool(false));
    r.insert("Toggles/Acc/LipRingsOff", AssParam::Bool(false));
    r.insert("Toggles/Acc/EarringsOff", AssParam::Bool(false));
    r.insert("Hair/ShortOn", AssParam::Bool(false));
    r.insert("Hair/PonyOn", AssParam::Bool(false));
    r.insert("Hair/LongOn", AssParam::Bool(true));
    r.insert("Nails/Normal", AssParam::Bool(false));
    r.insert("Nails/Square", AssParam::Bool(false));
    r.insert("Nails/Almond", AssParam::Bool(false));
    r.insert("Nails/Longer", AssParam::Bool(false));
    r.insert("Nails/Stilletto", AssParam::Bool(true));
    r.insert("Mat/Hue", AssParam::Float(0));
    r.insert("Mat/Colors/HairHue", AssParam::Float(0));
    r.insert("Mat/Colors/HairColored", AssParam::Bool(true));
    r.insert("Mat/Cyberpunk", AssParam::Bool(true));
    r.insert("Mat/HairBlack", AssParam::Bool(false));
    r.insert("Mat/HairWhite", AssParam::Bool(false));
    r.insert("Mat/HairBlonde", AssParam::Bool(true));
    r.insert("Mat/Monochromatic", AssParam::Bool(false));
    r.insert("Mat/AudioLink", AssParam::Bool(false));
    r.insert("Mat/Colors/AssPantsDark", AssParam::Bool(true));
    r.insert("Mat/Colors/BackpackDark", AssParam::Bool(false));
    r.insert("Mat/Colors/BeanieDark", AssParam::Bool(true));
    r.insert("Mat/Colors/GlovesDark", AssParam::Bool(true));
    r.insert("Mat/Colors/HeadphonesDark", AssParam::Bool(true));
    r.insert("Mat/Colors/JacketDark", AssParam::Bool(false));
    r.insert("Mat/Colors/MaskDark", AssParam::Bool(true));
    r.insert("Mat/Colors/ShoeDark", AssParam::Bool(false));
    r.insert("Mat/Colors/SleevesDark", AssParam::Bool(true));
    r.insert("Mat/Colors/SwimsuitDark", AssParam::Bool(false));
    r.insert("Mat/Colors/PantsDark", AssParam::Bool(false));
    r.insert("Mat/Colors/SportsBraDark", AssParam::Bool(true));
    r.insert("Mat/Colors/TankTopDark", AssParam::Bool(true));
    r.insert("Mat/Colors/CropDark", AssParam::Bool(true));
    r
}

/// What a read gives back of a write: right after `insert(name, v)`, `get`
/// of `name` gives `v`, and every other parameter keeps its presence and
/// value.
pub proof fn get_after_insert(
    m: Map<Seq<char>, AssParam>,
    name: Seq<char>,
    v: AssParam,
    other: Seq<char>,
)
    ensures
        m.insert(name, v).dom().contains(name),
        m.insert(name, v)[name] == v,
        other != name ==> (m.insert(name, v).dom().contains(other) == m.dom().contains(other)),
        other != name && m.dom().contains(other) ==> m.insert(name, v)[other] == m[other],
{
}

/// Setting a parameter that is already in the list keeps the set of names
/// and the number of parameters.
pub proof fn insert_tracked_keeps_names(m: Map<Seq<char>, AssParam>, name: Seq<char>, v: AssParam)
    requires
        m.dom().contains(name),
    ensures
        m.insert(name, v).dom() == m.dom(),
{
    assert(m.insert(name, v).dom() =~= m.dom());
}

/// One entry of `animationParameters` in VRChat's local avatar data, as the
/// saver reads it.
pub struct AnimationParameter {
    /// The JSON text of the entry's `name` (a JSON string shows with its quotes).
    pub name_json: String,
    /// The entry's `value` as an `i64`, where it is one.
    pub int_value: Option<i64>,
    /// The entry's `value` read as an `f64` and narrowed to `f32`, as the bits
    /// of that `f32`, where the value is a number.
    pub float_bits: Option<u32>,
}

/// What an entry of avatar data is, with its name text as a character
/// sequence.
pub struct AnimationParameterView {
    pub name_json: Seq<char>,
    pub int_value: Option<i64>,
    pub float_bits: Option<u32>,
}

impl View for AnimationParameter {
    type V = AnimationParameterView;

    open spec fn view(&self) -> AnimationParameterView {
        AnimationParameterView {
            name_json: self.name_json@,
            int_value: self.int_value,
            float_bits: self.float_bits,
        }
    }
}

/// The views of a list of entries.
pub open spec fn parameters_view(ps: Seq<AnimationParameter>) -> Seq<AnimationParameterView> {
    ps.map_values(|p: AnimationParameter| p@)
}

/// The parameter name an entry speaks of: its JSON text without quote marks.
pub open spec fn entry_name(p: AnimationParameterView) -> Seq<char> {
    strip_char(p.name_json, '"')
}

/// The value an entry gives the parameter `name`: a float (0.0 where the
/// value is no number) for a name that contains `Hue`, else the toggle
/// "value is the integer 1".
pub open spec fn entry_value(name: Seq<char>, p: AnimationParameterView) -> AssParam {
    if has_substring(name, "Hue"@) {
        AssParam::Float(
            match p.float_bits {
                Some(b) => b,
                None => 0,
            },
        )
    } else {
        AssParam::Bool(
            match p.int_value {
                Some(v) => v == 1,
                None => false,
            },
        )
    }
}

/// `m` after one entry of avatar data: a tracked parameter takes the entry's
/// value; an entry for any other name changes nothing.
pub open spec fn apply_entry(m: Map<Seq<char>, AssParam>, p: AnimationParameterView) -> Map<
    Seq<char>,
    AssParam,
> {
    let name = entry_name(p);
    if m.dom().contains(name) {
        m.insert(name, entry_value(name, p))
    } else {
        m
    }
}

/// `m` after the entries `ps`, in order.
pub open spec fn apply_entries(m: Map<Seq<char>, AssParam>, ps: Seq<AnimationParameterView>) -> Map<
    Seq<char>,
    AssParam,
>
    decreases ps.len(),
{
    if ps.len() == 0 {
        m
    } else {
        apply_entry(apply_entries(m, ps.drop_last()), ps.last())
    }
}

/// The tracked parameters as VRChat's local avatar data sets them: the
/// starting list, with each entry for a tracked name applied in order.
pub fn vrc_state_to_map(params: &Vec<AnimationParameter>) -> (r: ParameterList)
    ensures
        r@ == apply_entries(default_parameters(), parameters_view(params@)),
{
    let mut map = new_parameter_list();
    let mut i: usize = 0;
    while i < params.len()
        invariant
            i <= params@.len(),
            map@ == apply_entries(default_parameters(), parameters_view(params@).take(i as int)),
        decreases params.len() - i,
    {
        let p = &params[i];
        let name = without_char(p.name_json.as_str(), '"');
        assert(parameters_view(params@).take(i + 1).drop_last() =~= parameters_view(params@).take(i as int));
        assert(parameters_view(params@).take(i + 1).last() == params@[i as int]@);
        if map.contains_key(name.as_str()) {
            if contains_str(name.as_str(), "Hue") {
                let bits = match p.float_bits {
                    Some(b) => b,
                    None => 0,
                };
                map.insert(name.as_str(), AssParam::Float(bits));
            } else {
                let v = match p.int_value {
                    Some(v) => v,
                    None => 0,
                };
                map.insert(name.as_str(), AssParam::Bool(v == 1));
            }
        }
        i = i + 1;
    }
    assert(parameters_view(params@).take(params.len() as int) =~= parameters_view(params@));
    map
}

/// Reading avatar data never adds or drops a parameter: whatever the
/// entries, the names are those of the list it starts from.
pub proof fn avatar_data_keeps_names(m: Map<Seq<char>, AssParam>, ps: Seq<AnimationParameterView>)
    ensures
        apply_entries(m, ps).dom() == m.dom(),
    decreases ps.len(),
{
    if ps.len() > 0 {
        avatar_data_keeps_names(m, ps.drop_last());
        let prev = apply_entries(m, ps.drop_last());
        let name = entry_name(ps.last());
        if prev.dom().contains(name) {
            assert(prev.insert(name, entry_value(name, ps.last())).dom() =~= prev.dom());
        }
    }
}

/// An entry for a name that is not tracked changes nothing, wherever it
/// stands.
pub proof fn untracked_entry_is_ignored(m: Map<Seq<char>, AssParam>, p: AnimationParameterView)
    requires
        !m.dom().contains(entry_name(p)),
    ensures
        apply_entry(m, p) == m,
{
}

/// The last entry for a tracked name decides that parameter's value.
pub proof fn last_entry_decides(m: Map<Seq<char>, AssParam>, ps: Seq<AnimationParameterView>, i: int)
    requires
        0 <= i < ps.len(),
        m.dom().contains(entry_name(ps[i])),
        forall|j: int| i < j < ps.len() ==> entry_name(#[trigger] ps[j]) != entry_name(ps[i]),
    ensures
        apply_entries(m, ps)[entry_name(ps[i])] == entry_value(entry_name(ps[i]), ps[i]),
    decreases ps.len(),
{
    let name = entry_name(ps[i]);
    let t = ps.drop_last();
    if i == ps.len() - 1 {
        avatar_data_keeps_names(m, t);
    } else {
        assert(t[i] == ps[i]);
        assert forall|j: int| i < j < t.len() implies entry_name(#[trigger] t[j]) != entry_name(t[i]) by {
            assert(t[j] == ps[j]);
        }
        last_entry_decides(m, t, i);
        assert(entry_name(ps[ps.len() - 1]) != name);
    }
}

/// Every parameter of `m` is a float exactly when its name contains `Hue`.
pub open spec fn floats_are_hues(m: Map<Seq<char>, AssParam>) -> bool {
    forall|k: Seq<char>|
        #[trigger] m.dom().contains(k) ==> (m[k] is Float <==> has_substring(k, "Hue"@))
}

/// A name in which no `H` is followed by `ue` does not contain `Hue`.
proof fn lemma_no_hue(k: Seq<char>)
    requires
        forall|i: int|
            0 <= i && i + 2 < k.len() ==> !(#[trigger] k[i] == 'H' && k[i + 1] == 'u' && k[i + 2] == 'e'),
    ensures
        !has_substring(k, "Hue"@),
{
    reveal_strlit("Hue");
    assert forall|i: int| !occurs_at(k, "Hue"@, i) by {
        if 0 <= i && i + 3 <= k.len() {
            let w = k.subrange(i, i + 3);
            assert(w[0] == k[i] && w[1] == k[i + 1] && w[2] == k[i + 2]);
        }
    }
}

/// A name with `Hue` at position `i` contains `Hue`.
proof fn lemma_hue_at(k: Seq<char>, i: int)
    requires
        0 <= i && i + 3 <= k.len(),
        k[i] == 'H' && k[i + 1] == 'u' && k[i + 2] == 'e',
    ensures
        has_substring(k, "Hue"@),
{
    reveal_strlit("Hue");
    assert(k.subrange(i, i + 3) =~= "Hue"@);
    assert(occurs_at(k, "Hue"@, i));
}

proof fn lemma_insert_keeps_kinds(m: Map<Seq<char>, AssParam>, k: Seq<char>, v: AssParam)
    requires
        floats_are_hues(m),
        v is Float <==> has_substring(k, "Hue"@),
    ensures
        floats_are_hues(m.insert(k, v)),
{
}

/// In the starting list, a parameter is a float exactly when its name
/// contains `Hue`.
pub proof fn default_floats_are_hues()
    ensures
        floats_are_hues(default_parameters()),
{
    let m0 = Map::<Seq<char>, AssParam>::empty();
    let m1 = m0.insert("Toggles/SwimsuitOn"@, AssParam::Bool(true));
    assert(!has_substring("Toggles/SwimsuitOn"@, "Hue"@)) by {
        reveal_strlit("Toggles/SwimsuitOn");
        lemma_no_hue("Toggles/SwimsuitOn"@);
    }
    lemma_insert_keeps_kinds(m0, "Toggles/SwimsuitOn"@, AssParam::Bool(true));
    let m2 = m1.insert("Toggles/JacketOn"@, AssParam::Bool(true));
    assert(!has_substring("Toggles/JacketOn"@, "Hue"@)) by {
        reveal_strlit("Toggles/JacketOn");
        lemma_no_hue("Toggles/JacketOn"@);
    }
    lemma_insert_keeps_kinds(m1, "Toggles/JacketOn"@, AssParam::Bool(true));
    let m3 = m2.insert("Toggles/Tops/CropOn"@, AssParam::Bool(false));
    assert(!has_substring("Toggles/Tops/CropOn"@, "Hue"@)) by {
        reveal_strlit("Toggles/Tops/CropOn");
        lemma_no_hue("Toggles/Tops/CropOn"@);
    }
    lemma_insert_keeps_kinds(m2, "Toggles/Tops/CropOn"@, AssParam::Bool(false));
    let m4 = m3.insert("Toggles/Tops/SportsBraOn"@, AssParam::Bool(false));
    assert(!has_substring("Toggles/Tops/SportsBraOn"@, "Hue"@)) by {
        reveal_strlit("Toggles/Tops/SportsBraOn");
        lemma_no_hue("Toggles/Tops/SportsBraOn"@);
    }
    lemma_insert_keeps_kinds(m3, "Toggles/Tops/SportsBraOn"@, AssParam::Bool(false));
    let m5 = m4.insert("Toggles/Tops/TankTopOn"@, AssParam::Bool(true));
    assert(!has_substring("Toggles/Tops/TankTopOn"@, "Hue"@)) by {
        reveal_strlit("Toggles/Tops/TankTopOn");
        lemma_no_hue("Toggles/Tops/TankTopOn"@);
    }
    lemma_insert_keeps_kinds(m4, "Toggles/Tops/TankTopOn"@, AssParam::Bool(true));
    let m6 = m5.insert("Toggles/Tops/NSFW"@, AssParam::Bool(false));
    assert(!has_substring("Toggles/Tops/NSFW"@, "Hue"@)) by {
        reveal_strlit("Toggles/Tops/NSFW");
        lemma_no_hue("Toggles/Tops/NSFW"@);
    }
    lemma_insert_keeps_kinds(m5, "Toggles/Tops/NSFW"@, AssParam::Bool(false));
    let m7 = m6.insert("Toggles/Acc/BeanieOff"@, AssParam::Bool(false));
    assert(!has_substring("Toggles/Acc/BeanieOff"@, "Hue"@)) by {
        reveal_strlit("Toggles/Acc/BeanieOff");
        lemma_no_hue("Toggles/Acc/BeanieOff"@);
    }
    lemma_insert_keeps_kinds(m6, "Toggles/Acc/BeanieOff"@, AssParam::Bool(false));
    let m8 = m7.insert("Toggles/Acc/GlovesOff"@, AssParam::Bool(false));
    assert(!has_substring("Toggles/Acc/GlovesOff"@, "Hue"@)) by {
        reveal_strlit("Toggles/Acc/GlovesOff");
        lemma_no_hue("Toggles/Acc/GlovesOff"@);
    }
    lemma_insert_keeps_kinds(m7, "Toggles/Acc/GlovesOff"@, AssParam::Bool(false));
    let m9 = m8.insert("Toggles/Acc/HeadphonesOff"@, AssParam::Bool(false));
    assert(!has_substring("Toggles/Acc/HeadphonesOff"@, "Hue"@)) by {
        reveal_strlit("Toggles/Acc/HeadphonesOff");
        lemma_no_hue("Toggles/Acc/HeadphonesOff"@);
    }
    lemma_insert_keeps_kinds(m8, "Toggles/Acc/HeadphonesOff"@, AssParam::Bool(false));
    let m10 = m9.insert("Toggles/Acc/MaskOff"@, AssParam::Bool(false));
    assert(!has_substring("Toggles/Acc/MaskOff"@, "Hue"@)) by {
        reveal_strlit("Toggles/Acc/MaskOff");
        lemma_no_hue("Toggles/Acc/MaskOff"@);
    }
    lemma_insert_keeps_kinds(m9, "Toggles/Acc/MaskOff"@, AssParam::Bool(false));
    let m11 = m10.insert("Toggles/Acc/ThighSocksOn"@, AssParam::Bool(true));
    assert(!has_substring("Toggles/Acc/ThighSocksOn"@, "Hue"@)) by {
        reveal_strlit("Toggles/Acc/ThighSocksOn");
        lemma_no_hue("Toggles/Acc/ThighSocksOn"@);
    }
    lemma_insert_keeps_kinds(m10, "Toggles/Acc/ThighSocksOn"@, AssParam::Bool(true));
    let m12 = m11.insert("Toggles/Acc/CalfSocksOn"@, AssParam::Bool(false));
    assert(!has_substring("Toggles/Acc/CalfSocksOn"@, "Hue"@)) by {
        reveal_strlit("Toggles/Acc/CalfSocksOn");
        lemma_no_hue("Toggles/Acc/CalfSocksOn"@);
    }
    lemma_insert_keeps_kinds(m11, "Toggles/Acc/CalfSocksOn"@, AssParam::Bool(false));
    let m13 = m12.insert("Toggles/Acc/SleevesOff"@, AssParam::Bool(false));
    assert(!has_substring("Toggles/Acc/SleevesOff"@, "Hue"@)) by {
        reveal_strlit("Toggles/Acc/SleevesOff");
        lemma_no_hue("Toggles/Acc/SleevesOff"@);
    }
    lemma_insert_keeps_kinds(m12, "Toggles/Acc/SleevesOff"@, AssParam::Bool(false));
    let m14 = m13.insert("Toggles/Acc/HolotagArmOff"@, AssParam::Bool(false));
    assert(!has_substring("Toggles/Acc/HolotagArmOff"@, "Hue"@)) by {
        reveal_strlit("Toggles/Acc/HolotagArmOff");
        lemma_no_hue("Toggles/Acc/HolotagArmOff"@);
    }
    lemma_insert_keeps_kinds(m13, "Toggles/Acc/HolotagArmOff"@, AssParam::Bool(false));
    let m15 = m14.insert("Toggles/Acc/HolotagThighOff"@, AssParam::Bool(false));
    assert(!has_substring("Toggles/Acc/HolotagThighOff"@, "Hue"@)) by {
        reveal_strlit("Toggles/Acc/HolotagThighOff");
        lemma_no_hue("Toggles/Acc/HolotagThighOff"@);
    }
    lemma_insert_keeps_kinds(m14, "Toggles/Acc/HolotagThighOff"@, AssParam::Bool(false));
    let m16 = m15.insert("Toggles/Acc/RunningShoeOff"@, AssParam::Bool(false));
    assert(!has_substring("Toggles/Acc/RunningShoeOff"@, "Hue"@)) by {
        reveal_strlit("Toggles/Acc/RunningShoeOff");
        lemma_no_hue("Toggles/Acc/RunningShoeOff"@);
    }
    lemma_insert_keeps_kinds(m15, "Toggles/Acc/RunningShoeOff"@, AssParam::Bool(false));
    let m17 = m16.insert("Toggles/Bottoms/PantiesOn"@, AssParam::Bool(false));
    assert(!has_substring("Toggles/Bottoms/PantiesOn"@, "Hue"@)) by {
        reveal_strlit("Toggles/Bottoms/PantiesOn");
        lemma_no_hue("Toggles/Bottoms/PantiesOn"@);
    }
    lemma_insert_keeps_kinds(m16, "Toggles/Bottoms/PantiesOn"@, AssParam::Bool(false));
    let m18 = m17.insert("Toggles/Bottoms/AssPantsOn"@, AssParam::Bool(true));
    assert(!has_substring("Toggles/Bottoms/AssPantsOn"@, "Hue"@)) by {
        reveal_strlit("Toggles/Bottoms/AssPantsOn");
        lemma_no_hue("Toggles/Bottoms/AssPantsOn"@);
    }
    lemma_insert_keeps_kinds(m17, "Toggles/Bottoms/AssPantsOn"@, AssParam::Bool(true));
    let m19 = m18.insert("Toggles/Bottoms/PantsOn"@, AssParam::Bool(false));
    assert(!has_substring("Toggles/Bottoms/PantsOn"@, "Hue"@)) by {
        reveal_strlit("Toggles/Bottoms/PantsOn");
        lemma_no_hue("Toggles/Bottoms/PantsOn"@);
    }
    lemma_insert_keeps_kinds(m18, "Toggles/Bottoms/PantsOn"@, AssParam::Bool(false));
    let m20 = m19.insert("Toggles/Bottoms/NSFW"@, AssParam::Bool(false));
    assert(!has_substring("Toggles/Bottoms/NSFW"@, "Hue"@)) by {
        reveal_strlit("Toggles/Bottoms/NSFW");
        lemma_no_hue("Toggles/Bottoms/NSFW"@);
    }
    lemma_insert_keeps_kinds(m19, "Toggles/Bottoms/NSFW"@, AssParam::Bool(false));
    let m21 = m20.insert("Toggles/Acc/GlassesOff"@, AssParam::Bool(false));
    assert(!has_substring("Toggles/Acc/GlassesOff"@, "Hue"@)) by {
        reveal_strlit("Toggles/Acc/GlassesOff");
        lemma_no_hue("Toggles/Acc/GlassesOff"@);
    }
    lemma_insert_keeps_kinds(m20, "Toggles/Acc/GlassesOff"@, AssParam::Bool(false));
    let m22 = m21.insert("Toggles/Acc/BackpackOff"@, AssParam::Bool(false));
    assert(!has_substring("Toggles/Acc/BackpackOff"@, "Hue"@)) by {
        reveal_strlit("Toggles/Acc/BackpackOff");
        lemma_no_hue("Toggles/Acc/BackpackOff"@);
    }
    lemma_insert_keeps_kinds(m21, "Toggles/Acc/BackpackOff"@, AssParam::Bool(false));
    let m23 = m22.insert("Toggles/Acc/DogtagsOff"@, AssParam::Bool(false));
    assert(!has_substring("Toggles/Acc/DogtagsOff"@, "Hue"@)) by {
        reveal_strlit("Toggles/Acc/DogtagsOff");
        lemma_no_hue("Toggles/Acc/DogtagsOff"@);
    }
    lemma_insert_keeps_kinds(m22, "Toggles/Acc/DogtagsOff"@, AssParam::Bool(false));
    let m24 = m23.insert("Toggles/Acc/LipRingsOff"@, AssParam::Bool(false));
    assert(!has_substring("Toggles/Acc/LipRingsOff"@, "Hue"@)) by {
        reveal_strlit("Toggles/Acc/LipRingsOff");
        lemma_no_hue("Toggles/Acc/LipRingsOff"@);
    }
    lemma_insert_keeps_kinds(m23, "Toggles/Acc/LipRingsOff"@, AssParam::Bool(false));
    let m25 = m24.insert("Toggles/Acc/EarringsOff"@, AssParam::Bool(false));
    assert(!has_substring("Toggles/Acc/EarringsOff"@, "Hue"@)) by {
        reveal_strlit("Toggles/Acc/EarringsOff");
        lemma_no_hue("Toggles/Acc/EarringsOff"@);
    }
    lemma_insert_keeps_kinds(m24, "Toggles/Acc/EarringsOff"@, AssParam::Bool(false));
    let m26 = m25.insert("Hair/ShortOn"@, AssParam::Bool(false));
    assert(!has_substring("Hair/ShortOn"@, "Hue"@)) by {
        reveal_strlit("Hair/ShortOn");
        lemma_no_hue("Hair/ShortOn"@);
    }
    lemma_insert_keeps_kinds(m25, "Hair/ShortOn"@, AssParam::Bool(false));
    let m27 = m26.insert("Hair/PonyOn"@, AssParam::Bool(false));
    assert(!has_substring("Hair/PonyOn"@, "Hue"@)) by {
        reveal_strlit("Hair/PonyOn");
        lemma_no_hue("Hair/PonyOn"@);
    }
    lemma_insert_keeps_kinds(m26, "Hair/PonyOn"@, AssParam::Bool(false));
    let m28 = m27.insert("Hair/LongOn"@, AssParam::Bool(true));
    assert(!has_substring("Hair/LongOn"@, "Hue"@)) by {
        reveal_strlit("Hair/LongOn");
        lemma_no_hue("Hair/LongOn"@);
    }
    lemma_insert_keeps_kinds(m27, "Hair/LongOn"@, AssParam::Bool(true));
    let m29 = m28.insert("Nails/Normal"@, AssParam::Bool(false));
    assert(!has_substring("Nails/Normal"@, "Hue"@)) by {
        reveal_strlit("Nails/Normal");
        lemma_no_hue("Nails/Normal"@);
    }
    lemma_insert_keeps_kinds(m28, "Nails/Normal"@, AssParam::Bool(false));
    let m30 = m29.insert("Nails/Square"@, AssParam::Bool(false));
    assert(!has_substring("Nails/Square"@, "Hue"@)) by {
        reveal_strlit("Nails/Square");
        lemma_no_hue("Nails/Square"@);
    }
    lemma_insert_keeps_kinds(m29, "Nails/Square"@, AssParam::Bool(false));
    let m31 = m30.insert("Nails/Almond"@, AssParam::Bool(false));
    assert(!has_substring("Nails/Almond"@, "Hue"@)) by {
        reveal_strlit("Nails/Almond");
        lemma_no_hue("Nails/Almond"@);
    }
    lemma_insert_keeps_kinds(m30, "Nails/Almond"@, AssParam::Bool(false));
    let m32 = m31.insert("Nails/Longer"@, AssParam::Bool(false));
    assert(!has_substring("Nails/Longer"@, "Hue"@)) by {
        reveal_strlit("Nails/Longer");
        lemma_no_hue("Nails/Longer"@);
    }
    lemma_insert_keeps_kinds(m31, "Nails/Longer"@, AssParam::Bool(false));
    let m33 = m32.insert("Nails/Stilletto"@, AssParam::Bool(true));
    assert(!has_substring("Nails/Stilletto"@, "Hue"@)) by {
        reveal_strlit("Nails/Stilletto");
        lemma_no_hue("Nails/Stilletto"@);
    }
    lemma_insert_keeps_kinds(m32, "Nails/Stilletto"@, AssParam::Bool(true));
    let m34 = m33.insert("Mat/Hue"@, AssParam::Float(0));
    assert(has_substring("Mat/Hue"@, "Hue"@)) by {
        reveal_strlit("Mat/Hue");
        lemma_hue_at("Mat/Hue"@, 4);
    }
    lemma_insert_keeps_kinds(m33, "Mat/Hue"@, AssParam::Float(0));
    let m35 = m34.insert("Mat/Colors/HairHue"@, AssParam::Float(0));
    assert(has_substring("Mat/Colors/HairHue"@, "Hue"@)) by {
        reveal_strlit("Mat/Colors/HairHue");
        lemma_hue_at("Mat/Colors/HairHue"@, 15);
    }
    lemma_insert_keeps_kinds(m34, "Mat/Colors/HairHue"@, AssParam::Float(0));
    let m36 = m35.insert("Mat/Colors/HairColored"@, AssParam::Bool(true));
    assert(!has_substring("Mat/Colors/HairColored"@, "Hue"@)) by {
        reveal_strlit("Mat/Colors/HairColored");
        lemma_no_hue("Mat/Colors/HairColored"@);
    }
    lemma_insert_keeps_kinds(m35, "Mat/Colors/HairColored"@, AssParam::Bool(true));
    let m37 = m36.insert("Mat/Cyberpunk"@, AssParam::Bool(true));
    assert(!has_substring("Mat/Cyberpunk"@, "Hue"@)) by {
        reveal_strlit("Mat/Cyberpunk");
        lemma_no_hue("Mat/Cyberpunk"@);
    }
    lemma_insert_keeps_kinds(m36, "Mat/Cyberpunk"@, AssParam::Bool(true));
    let m38 = m37.insert("Mat/HairBlack"@, AssParam::Bool(false));
    assert(!has_substring("Mat/HairBlack"@, "Hue"@)) by {
        reveal_strlit("Mat/HairBlack");
        lemma_no_hue("Mat/HairBlack"@);
    }
    lemma_insert_keeps_kinds(m37, "Mat/HairBlack"@, AssParam::Bool(false));
    let m39 = m38.insert("Mat/HairWhite"@, AssParam::Bool(false));
    assert(!has_substring("Mat/HairWhite"@, "Hue"@)) by {
        reveal_strlit("Mat/HairWhite");
        lemma_no_hue("Mat/HairWhite"@);
    }
    lemma_insert_keeps_kinds(m38, "Mat/HairWhite"@, AssParam::Bool(false));
    let m40 = m39.insert("Mat/HairBlonde"@, AssParam::Bool(true));
    assert(!has_substring("Mat/HairBlonde"@, "Hue"@)) by {
        reveal_strlit("Mat/HairBlonde");
        lemma_no_hue("Mat/HairBlonde"@);
    }
    lemma_insert_keeps_kinds(m39, "Mat/HairBlonde"@, AssParam::Bool(true));
    let m41 = m40.insert("Mat/Monochromatic"@, AssParam::Bool(false));
    assert(!has_substring("Mat/Monochromatic"@, "Hue"@)) by {
        reveal_strlit("Mat/Monochromatic");
        lemma_no_hue("Mat/Monochromatic"@);
    }
    lemma_insert_keeps_kinds(m40, "Mat/Monochromatic"@, AssParam::Bool(false));
    let m42 = m41.insert("Mat/AudioLink"@, AssParam::Bool(false));
    assert(!has_substring("Mat/AudioLink"@, "Hue"@)) by {
        reveal_strlit("Mat/AudioLink");
        lemma_no_hue("Mat/AudioLink"@);
    }
    lemma_insert_keeps_kinds(m41, "Mat/AudioLink"@, AssParam::Bool(false));
    let m43 = m42.insert("Mat/Colors/AssPantsDark"@, AssParam::Bool(true));
    assert(!has_substring("Mat/Colors/AssPantsDark"@, "Hue"@)) by {
        reveal_strlit("Mat/Colors/AssPantsDark");
        lemma_no_hue("Mat/Colors/AssPantsDark"@);
    }
    lemma_insert_keeps_kinds(m42, "Mat/Colors/AssPantsDark"@, AssParam::Bool(true));
    let m44 = m43.insert("Mat/Colors/BackpackDark"@, AssParam::Bool(false));
    assert(!has_substring("Mat/Colors/BackpackDark"@, "Hue"@)) by {
        reveal_strlit("Mat/Colors/BackpackDark");
        lemma_no_hue("Mat/Colors/BackpackDark"@);
    }
    lemma_insert_keeps_kinds(m43, "Mat/Colors/BackpackDark"@, AssParam::Bool(false));
    let m45 = m44.insert("Mat/Colors/BeanieDark"@, AssParam::Bool(true));
    assert(!has_substring("Mat/Colors/BeanieDark"@, "Hue"@)) by {
        reveal_strlit("Mat/Colors/BeanieDark");
        lemma_no_hue("Mat/Colors/BeanieDark"@);
    }
    lemma_insert_keeps_kinds(m44, "Mat/Colors/BeanieDark"@, AssParam::Bool(true));
    let m46 = m45.insert("Mat/Colors/GlovesDark"@, AssParam::Bool(true));
    assert(!has_substring("Mat/Colors/GlovesDark"@, "Hue"@)) by {
        reveal_strlit("Mat/Colors/GlovesDark");
        lemma_no_hue("Mat/Colors/GlovesDark"@);
    }
    lemma_insert_keeps_kinds(m45, "Mat/Colors/GlovesDark"@, AssParam::Bool(true));
    let m47 = m46.insert("Mat/Colors/HeadphonesDark"@, AssParam::Bool(true));
    assert(!has_substring("Mat/Colors/HeadphonesDark"@, "Hue"@)) by {
        reveal_strlit("Mat/Colors/HeadphonesDark");
        lemma_no_hue("Mat/Colors/HeadphonesDark"@);
    }
    lemma_insert_keeps_kinds(m46, "Mat/Colors/HeadphonesDark"@, AssParam::Bool(true));
    let m48 = m47.insert("Mat/Colors/JacketDark"@, AssParam::Bool(false));
    assert(!has_substring("Mat/Colors/JacketDark"@, "Hue"@)) by {
        reveal_strlit("Mat/Colors/JacketDark");
        lemma_no_hue("Mat/Colors/JacketDark"@);
    }
    lemma_insert_keeps_kinds(m47, "Mat/Colors/JacketDark"@, AssParam::Bool(false));
    let m49 = m48.insert("Mat/Colors/MaskDark"@, AssParam::Bool(true));
    assert(!has_substring("Mat/Colors/MaskDark"@, "Hue"@)) by {
        reveal_strlit("Mat/Colors/MaskDark");
        lemma_no_hue("Mat/Colors/MaskDark"@);
    }
    lemma_insert_keeps_kinds(m48, "Mat/Colors/MaskDark"@, AssParam::Bool(true));
    let m50 = m49.insert("Mat/Colors/ShoeDark"@, AssParam::Bool(false));
    assert(!has_substring("Mat/Colors/ShoeDark"@, "Hue"@)) by {
        reveal_strlit("Mat/Colors/ShoeDark");
        lemma_no_hue("Mat/Colors/ShoeDark"@);
    }
    lemma_insert_keeps_kinds(m49, "Mat/Colors/ShoeDark"@, AssParam::Bool(false));
    let m51 = m50.insert("Mat/Colors/SleevesDark"@, AssParam::Bool(true));
    assert(!has_substring("Mat/Colors/SleevesDark"@, "Hue"@)) by {
        reveal_strlit("Mat/Colors/SleevesDark");
        lemma_no_hue("Mat/Colors/SleevesDark"@);
    }
    lemma_insert_keeps_kinds(m50, "Mat/Colors/SleevesDark"@, AssParam::Bool(true));
    let m52 = m51.insert("Mat/Colors/SwimsuitDark"@, AssParam::Bool(false));
    assert(!has_substring("Mat/Colors/SwimsuitDark"@, "Hue"@)) by {
        reveal_strlit("Mat/Colors/SwimsuitDark");
        lemma_no_hue("Mat/Colors/SwimsuitDark"@);
    }
    lemma_insert_keeps_kinds(m51, "Mat/Colors/SwimsuitDark"@, AssParam::Bool(false));
    let m53 = m52.insert("Mat/Colors/PantsDark"@, AssParam::Bool(false));
    assert(!has_substring("Mat/Colors/PantsDark"@, "Hue"@)) by {
        reveal_strlit("Mat/Colors/PantsDark");
        lemma_no_hue("Mat/Colors/PantsDark"@);
    }
    lemma_insert_keeps_kinds(m52, "Mat/Colors/PantsDark"@, AssParam::Bool(false));
    let m54 = m53.insert("Mat/Colors/SportsBraDark"@, AssParam::Bool(true));
    assert(!has_substring("Mat/Colors/SportsBraDark"@, "Hue"@)) by {
        reveal_strlit("Mat/Colors/SportsBraDark");
        lemma_no_hue("Mat/Colors/SportsBraDark"@);
    }
    lemma_insert_keeps_kinds(m53, "Mat/Colors/SportsBraDark"@, AssParam::Bool(true));
    let m55 = m54.insert("Mat/Colors/TankTopDark"@, AssParam::Bool(true));
    assert(!has_substring("Mat/Colors/TankTopDark"@, "Hue"@)) by {
        reveal_strlit("Mat/Colors/TankTopDark");
        lemma_no_hue("Mat/Colors/TankTopDark"@);
    }
    lemma_insert_keeps_kinds(m54, "Mat/Colors/TankTopDark"@, AssParam::Bool(true));
    let m56 = m55.insert("Mat/Colors/CropDark"@, AssParam::Bool(true));
    assert(!has_substring("Mat/Colors/CropDark"@, "Hue"@)) by {
        reveal_strlit("Mat/Colors/CropDark");
        lemma_no_hue("Mat/Colors/CropDark"@);
    }
    lemma_insert_keeps_kinds(m55, "Mat/Colors/CropDark"@, AssParam::Bool(true));
    assert(m56 == default_parameters());
}

/// Each entry keeps the rule "a float exactly when the name contains
/// `Hue`": the value an entry gives is a float exactly for such names.
pub proof fn avatar_data_keeps_kinds(m: Map<Seq<char>, AssParam>, ps: Seq<AnimationParameterView>)
    requires
        floats_are_hues(m),
    ensures
        floats_are_hues(apply_entries(m, ps)),
    decreases ps.len(),
{
    if ps.len() > 0 {
        avatar_data_keeps_kinds(m, ps.drop_last());
        let prev = apply_entries(m, ps.drop_last());
        let name = entry_name(ps.last());
        if prev.dom().contains(name) {
            lemma_insert_keeps_kinds(prev, name, entry_value(name, ps.last()));
        }
    }
}

/// After reading avatar data, the tracked parameters are exactly the
/// starting ones, and a parameter is a float exactly when its name contains
/// `Hue`.
pub proof fn read_parameters_keep_names_and_kinds(ps: Seq<AnimationParameterView>)
    ensures
        apply_entries(default_parameters(), ps).dom() == default_parameters().dom(),
        floats_are_hues(apply_entries(default_parameters(), ps)),
{
    avatar_data_keeps_names(default_parameters(), ps);
    default_floats_are_hues();
    avatar_data_keeps_kinds(default_parameters(), ps);
}

/// A tracked parameter that no entry names keeps the value it had.
pub proof fn unnamed_parameter_keeps_value(
    m: Map<Seq<char>, AssParam>,
    ps: Seq<AnimationParameterView>,
    k: Seq<char>,
)
    requires
        m.dom().contains(k),
        forall|j: int| 0 <= j < ps.len() ==> entry_name(#[trigger] ps[j]) != k,
    ensures
        apply_entries(m, ps).dom().contains(k),
        apply_entries(m, ps)[k] == m[k],
    decreases ps.len(),
{
    if ps.len() > 0 {
        let t = ps.drop_last();
        assert forall|j: int| 0 <= j < t.len() implies entry_name(#[trigger] t[j]) != k by {
            assert(t[j] == ps[j]);
        }
        unnamed_parameter_keeps_value(m, t, k);
        assert(entry_name(ps[ps.len() - 1]) != k);
        avatar_data_keeps_names(m, t);
    }
}

/// Each name of the starting list differs from those listed after it.
proof fn lemma_distinct_from_later_0()
    ensures
        "Toggles/SwimsuitOn"@ != "Toggles/JacketOn"@,
        "Toggles/SwimsuitOn"@ != "Toggles/Tops/CropOn"@,
        "Toggles/SwimsuitOn"@ != "Toggles/Tops/SportsBraOn"@,
        "Toggles/SwimsuitOn"@ != "Toggles/Tops/TankTopOn"@,
        "Toggles/SwimsuitOn"@ != "Toggles/Tops/NSFW"@,
        "Toggles/SwimsuitOn"@ != "Toggles/Acc/BeanieOff"@,
        "Toggles/SwimsuitOn"@ != "Toggles/Acc/GlovesOff"@,
        "Toggles/SwimsuitOn"@ != "Toggles/Acc/HeadphonesOff"@,
        "Toggles/SwimsuitOn"@ != "Toggles/Acc/MaskOff"@,
        "Toggles/SwimsuitOn"@ != "Toggles/Acc/ThighSocksOn"@,
        "Toggles/SwimsuitOn"@ != "Toggles/Acc/CalfSocksOn"@,
        "Toggles/SwimsuitOn"@ != "Toggles/Acc/SleevesOff"@,
        "Toggles/SwimsuitOn"@ != "Toggles/Acc/HolotagArmOff"@,
        "Toggles/SwimsuitOn"@ != "Toggles/Acc/HolotagThighOff"@,
        "Toggles/SwimsuitOn"@ != "Toggles/Acc/RunningShoeOff"@,
        "Toggles/SwimsuitOn"@ != "Toggles/Bottoms/PantiesOn"@,
        "Toggles/SwimsuitOn"@ != "Toggles/Bottoms/AssPantsOn"@,
        "Toggles/SwimsuitOn"@ != "Toggles/Bottoms/PantsOn"@,
        "Toggles/SwimsuitOn"@ != "Toggles/Bottoms/NSFW"@,
        "Toggles/SwimsuitOn"@ != "Toggles/Acc/GlassesOff"@,
        "Toggles/SwimsuitOn"@ != "Toggles/Acc/BackpackOff"@,
        "Toggles/SwimsuitOn"@ != "Toggles/Acc/DogtagsOff"@,
        "Toggles/SwimsuitOn"@ != "Toggles/Acc/LipRingsOff"@,
        "Toggles/SwimsuitOn"@ != "Toggles/Acc/EarringsOff"@,
        "Toggles/SwimsuitOn"@ != "Hair/ShortOn"@,
        "Toggles/SwimsuitOn"@ != "Hair/PonyOn"@,
        "Toggles/SwimsuitOn"@ != "Hair/LongOn"@,
        "Toggles/SwimsuitOn"@ != "Nails/Normal"@,
        "Toggles/SwimsuitOn"@ != "Nails/Square"@,
        "Toggles/SwimsuitOn"@ != "Nails/Almond"@,
        "Toggles/SwimsuitOn"@ != "Nails/Longer"@,
        "Toggles/SwimsuitOn"@ != "Nails/Stilletto"@,
        "Toggles/SwimsuitOn"@ != "Mat/Hue"@,
        "Toggles/SwimsuitOn"@ != "Mat/Colors/HairHue"@,
        "Toggles/SwimsuitOn"@ != "Mat/Colors/HairColored"@,
        "Toggles/SwimsuitOn"@ != "Mat/Cyberpunk"@,
        "Toggles/SwimsuitOn"@ != "Mat/HairBlack"@,
        "Toggles/SwimsuitOn"@ != "Mat/HairWhite"@,
        "Toggles/SwimsuitOn"@ != "Mat/HairBlonde"@,
        "Toggles/SwimsuitOn"@ != "Mat/Monochromatic"@,
        "Toggles/SwimsuitOn"@ != "Mat/AudioLink"@,
        "Toggles/SwimsuitOn"@ != "Mat/Colors/AssPantsDark"@,
        "Toggles/SwimsuitOn"@ != "Mat/Colors/BackpackDark"@,
        "Toggles/SwimsuitOn"@ != "Mat/Colors/BeanieDark"@,
        "Toggles/SwimsuitOn"@ != "Mat/Colors/GlovesDark"@,
        "Toggles/SwimsuitOn"@ != "Mat/Colors/HeadphonesDark"@,
        "Toggles/SwimsuitOn"@ != "Mat/Colors/JacketDark"@,
        "Toggles/SwimsuitOn"@ != "Mat/Colors/MaskDark"@,
        "Toggles/SwimsuitOn"@ != "Mat/Colors/ShoeDark"@,
        "Toggles/SwimsuitOn"@ != "Mat/Colors/SleevesDark"@,
        "Toggles/SwimsuitOn"@ != "Mat/Colors/SwimsuitDark"@,
        "Toggles/SwimsuitOn"@ != "Mat/Colors/PantsDark"@,
        "Toggles/SwimsuitOn"@ != "Mat/Colors/SportsBraDark"@,
        "Toggles/SwimsuitOn"@ != "Mat/Colors/TankTopDark"@,
        "Toggles/SwimsuitOn"@ != "Mat/Colors/CropDark"@,
{
    reveal_strlit("Toggles/SwimsuitOn");
    reveal_strlit("Toggles/JacketOn");
    assert("Toggles/SwimsuitOn"@.len() != "Toggles/JacketOn"@.len());
    reveal_strlit("Toggles/Tops/CropOn");
    assert("Toggles/SwimsuitOn"@.len() != "Toggles/Tops/CropOn"@.len());
    reveal_strlit("Toggles/Tops/SportsBraOn");
    assert("Toggles/SwimsuitOn"@.len() != "Toggles/Tops/SportsBraOn"@.len());
    reveal_strlit("Toggles/Tops/TankTopOn");
    assert("Toggles/SwimsuitOn"@.len() != "Toggles/Tops/TankTopOn"@.len());
    reveal_strlit("Toggles/Tops/NSFW");
    assert("Toggles/SwimsuitOn"@.len() != "Toggles/Tops/NSFW"@.len());
    reveal_strlit("Toggles/Acc/BeanieOff");
    assert("Toggles/SwimsuitOn"@.len() != "Toggles/Acc/BeanieOff"@.len());
    reveal_strlit("Toggles/Acc/GlovesOff");
    assert("Toggles/SwimsuitOn"@.len() != "Toggles/Acc/GlovesOff"@.len());
    reveal_strlit("Toggles/Acc/HeadphonesOff");
    assert("Toggles/SwimsuitOn"@.len() != "Toggles/Acc/HeadphonesOff"@.len());
    reveal_strlit("Toggles/Acc/MaskOff");
    assert("Toggles/SwimsuitOn"@.len() != "Toggles/Acc/MaskOff"@.len());
    reveal_strlit("Toggles/Acc/ThighSocksOn");
    assert("Toggles/SwimsuitOn"@.len() != "Toggles/Acc/ThighSocksOn"@.len());
    reveal_strlit("Toggles/Acc/CalfSocksOn");
    assert("Toggles/SwimsuitOn"@.len() != "Toggles/Acc/CalfSocksOn"@.len());
    reveal_strlit("Toggles/Acc/SleevesOff");
    assert("Toggles/SwimsuitOn"@.len() != "Toggles/Acc/SleevesOff"@.len());
    reveal_strlit("Toggles/Acc/HolotagArmOff");
    assert("Toggles/SwimsuitOn"@.len() != "Toggles/Acc/HolotagArmOff"@.len());
    reveal_strlit("Toggles/Acc/HolotagThighOff");
    assert("Toggles/SwimsuitOn"@.len() != "Toggles/Acc/HolotagThighOff"@.len());
    reveal_strlit("Toggles/Acc/RunningShoeOff");
    assert("Toggles/SwimsuitOn"@.len() != "Toggles/Acc/RunningShoeOff"@.len());
    reveal_strlit("Toggles/Bottoms/PantiesOn");
    assert("Toggles/SwimsuitOn"@.len() != "Toggles/Bottoms/PantiesOn"@.len());
    reveal_strlit("Toggles/Bottoms/AssPantsOn");
    assert("Toggles/SwimsuitOn"@.len() != "Toggles/Bottoms/AssPantsOn"@.len());
    reveal_strlit("Toggles/Bottoms/PantsOn");
    assert("Toggles/SwimsuitOn"@.len() != "Toggles/Bottoms/PantsOn"@.len());
    reveal_strlit("Toggles/Bottoms/NSFW");
    assert("Toggles/SwimsuitOn"@.len() != "Toggles/Bottoms/NSFW"@.len());
    reveal_strlit("Toggles/Acc/GlassesOff");
    assert("Toggles/SwimsuitOn"@.len() != "Toggles/Acc/GlassesOff"@.len());
    reveal_strlit("Toggles/Acc/BackpackOff");
    assert("Toggles/SwimsuitOn"@.len() != "Toggles/Acc/BackpackOff"@.len());
    reveal_strlit("Toggles/Acc/DogtagsOff");
    assert("Toggles/SwimsuitOn"@.len() != "Toggles/Acc/DogtagsOff"@.len());
    reveal_strlit("Toggles/Acc/LipRingsOff");
    assert("Toggles/SwimsuitOn"@.len() != "Toggles/Acc/LipRingsOff"@.len());
    reveal_strlit("Toggles/Acc/EarringsOff");
    assert("Toggles/SwimsuitOn"@.len() != "Toggles/Acc/EarringsOff"@.len());
    reveal_strlit("Hair/ShortOn");
    assert("Toggles/SwimsuitOn"@.len() != "Hair/ShortOn"@.len());
    reveal_strlit("Hair/PonyOn");
    assert("Toggles/SwimsuitOn"@.len() != "Hair/PonyOn"@.len());
    reveal_strlit("Hair/LongOn");
    assert("Toggles/SwimsuitOn"@.len() != "Hair/LongOn"@.len());
    reveal_strlit("Nails/Normal");
    assert("Toggles/SwimsuitOn"@.len() != "Nails/Normal"@.len());
    reveal_strlit("Nails/Square");
    assert("Toggles/SwimsuitOn"@.len() != "Nails/Square"@.len());
    reveal_strlit("Nails/Almond");
    assert("Toggles/SwimsuitOn"@.len() != "Nails/Almond"@.len());
    reveal_strlit("Nails/Longer");
    assert("Toggles/SwimsuitOn"@.len() != "Nails/Longer"@.len());
    reveal_strlit("Nails/Stilletto");
    assert("Toggles/SwimsuitOn"@.len() != "Nails/Stilletto"@.len());
    reveal_strlit("Mat/Hue");
    assert("Toggles/SwimsuitOn"@.len() != "Mat/Hue"@.len());
    reveal_strlit("Mat/Colors/HairHue");
    assert("Toggles/SwimsuitOn"@[0] != "Mat/Colors/HairHue"@[0]);
    reveal_strlit("Mat/Colors/HairColored");
    assert("Toggles/SwimsuitOn"@.len() != "Mat/Colors/HairColored"@.len());
    reveal_strlit("Mat/Cyberpunk");
    assert("Toggles/SwimsuitOn"@.len() != "Mat/Cyberpunk"@.len());
    reveal_strlit("Mat/HairBlack");
    assert("Toggles/SwimsuitOn"@.len() != "Mat/HairBlack"@.len());
    reveal_strlit("Mat/HairWhite");
    assert("Toggles/SwimsuitOn"@.len() != "Mat/HairWhite"@.len());
    reveal_strlit("Mat/HairBlonde");
    assert("Toggles/SwimsuitOn"@.len() != "Mat/HairBlonde"@.len());
    reveal_strlit("Mat/Monochromatic");
    assert("Toggles/SwimsuitOn"@.len() != "Mat/Monochromatic"@.len());
    reveal_strlit("Mat/AudioLink");
    assert("Toggles/SwimsuitOn"@.len() != "Mat/AudioLink"@.len());
    reveal_strlit("Mat/Colors/AssPantsDark");
    assert("Toggles/SwimsuitOn"@.len() != "Mat/Colors/AssPantsDark"@.len());
    reveal_strlit("Mat/Colors/BackpackDark");
    assert("Toggles/SwimsuitOn"@.len() != "Mat/Colors/BackpackDark"@.len());
    reveal_strlit("Mat/Colors/BeanieDark");
    assert("Toggles/SwimsuitOn"@.len() != "Mat/Colors/BeanieDark"@.len());
    reveal_strlit("Mat/Colors/GlovesDark");
    assert("Toggles/SwimsuitOn"@.len() != "Mat/Colors/GlovesDark"@.len());
    reveal_strlit("Mat/Colors/HeadphonesDark");
    assert("Toggles/SwimsuitOn"@.len() != "Mat/Colors/HeadphonesDark"@.len());
    reveal_strlit("Mat/Colors/JacketDark");
    assert("Toggles/SwimsuitOn"@.len() != "Mat/Colors/JacketDark"@.len());
    reveal_strlit("Mat/Colors/MaskDark");
    assert("Toggles/SwimsuitOn"@.len() != "Mat/Colors/MaskDark"@.len());
    reveal_strlit("Mat/Colors/ShoeDark");
    assert("Toggles/SwimsuitOn"@.len() != "Mat/Colors/ShoeDark"@.len());
    reveal_strlit("Mat/Colors/SleevesDark");
    assert("Toggles/SwimsuitOn"@.len() != "Mat/Colors/SleevesDark"@.len());
    reveal_strlit("Mat/Colors/SwimsuitDark");
    assert("Toggles/SwimsuitOn"@.len() != "Mat/Colors/SwimsuitDark"@.len());
    reveal_strlit("Mat/Colors/PantsDark");
    assert("Toggles/SwimsuitOn"@.len() != "Mat/Colors/PantsDark"@.len());
    reveal_strlit("Mat/Colors/SportsBraDark");
    assert("Toggles/SwimsuitOn"@.len() != "Mat/Colors/SportsBraDark"@.len());
    reveal_strlit("Mat/Colors/TankTopDark");
    assert("Toggles/SwimsuitOn"@.len() != "Mat/Colors/TankTopDark"@.len());
    reveal_strlit("Mat/Colors/CropDark");
    assert("Toggles/SwimsuitOn"@.len() != "Mat/Colors/CropDark"@.len());
}

proof fn lemma_distinct_from_later_1()
    ensures
        "Toggles/JacketOn"@ != "Toggles/Tops/CropOn"@,
        "Toggles/JacketOn"@ != "Toggles/Tops/SportsBraOn"@,
        "Toggles/JacketOn"@ != "Toggles/Tops/TankTopOn"@,
        "Toggles/JacketOn"@ != "Toggles/Tops/NSFW"@,
        "Toggles/JacketOn"@ != "Toggles/Acc/BeanieOff"@,
        "Toggles/JacketOn"@ != "Toggles/Acc/GlovesOff"@,
        "Toggles/JacketOn"@ != "Toggles/Acc/HeadphonesOff"@,
        "Toggles/JacketOn"@ != "Toggles/Acc/MaskOff"@,
        "Toggles/JacketOn"@ != "Toggles/Acc/ThighSocksOn"@,
        "Toggles/JacketOn"@ != "Toggles/Acc/CalfSocksOn"@,
        "Toggles/JacketOn"@ != "Toggles/Acc/SleevesOff"@,
        "Toggles/JacketOn"@ != "Toggles/Acc/HolotagArmOff"@,
        "Toggles/JacketOn"@ != "Toggles/Acc/HolotagThighOff"@,
        "Toggles/JacketOn"@ != "Toggles/Acc/RunningShoeOff"@,
        "Toggles/JacketOn"@ != "Toggles/Bottoms/PantiesOn"@,
        "Toggles/JacketOn"@ != "Toggles/Bottoms/AssPantsOn"@,
        "Toggles/JacketOn"@ != "Toggles/Bottoms/PantsOn"@,
        "Toggles/JacketOn"@ != "Toggles/Bottoms/NSFW"@,
        "Toggles/JacketOn"@ != "Toggles/Acc/GlassesOff"@,
        "Toggles/JacketOn"@ != "Toggles/Acc/BackpackOff"@,
        "Toggles/JacketOn"@ != "Toggles/Acc/DogtagsOff"@,
        "Toggles/JacketOn"@ != "Toggles/Acc/LipRingsOff"@,
        "Toggles/JacketOn"@ != "Toggles/Acc/EarringsOff"@,
        "Toggles/JacketOn"@ != "Hair/ShortOn"@,
        "Toggles/JacketOn"@ != "Hair/PonyOn"@,
        "Toggles/JacketOn"@ != "Hair/LongOn"@,
        "Toggles/JacketOn"@ != "Nails/Normal"@,
        "Toggles/JacketOn"@ != "Nails/Square"@,
        "Toggles/JacketOn"@ != "Nails/Almond"@,
        "Toggles/JacketOn"@ != "Nails/Longer"@,
        "Toggles/JacketOn"@ != "Nails/Stilletto"@,
        "Toggles/JacketOn"@ != "Mat/Hue"@,
        "Toggles/JacketOn"@ != "Mat/Colors/HairHue"@,
        "Toggles/JacketOn"@ != "Mat/Colors/HairColored"@,
        "Toggles/JacketOn"@ != "Mat/Cyberpunk"@,
        "Toggles/JacketOn"@ != "Mat/HairBlack"@,
        "Toggles/JacketOn"@ != "Mat/HairWhite"@,
        "Toggles/JacketOn"@ != "Mat/HairBlonde"@,
        "Toggles/JacketOn"@ != "Mat/Monochromatic"@,
        "Toggles/JacketOn"@ != "Mat/AudioLink"@,
        "Toggles/JacketOn"@ != "Mat/Colors/AssPantsDark"@,
        "Toggles/JacketOn"@ != "Mat/Colors/BackpackDark"@,
        "Toggles/JacketOn"@ != "Mat/Colors/BeanieDark"@,
        "Toggles/JacketOn"@ != "Mat/Colors/GlovesDark"@,
        "Toggles/JacketOn"@ != "Mat/Colors/HeadphonesDark"@,
        "Toggles/JacketOn"@ != "Mat/Colors/JacketDark"@,
        "Toggles/JacketOn"@ != "Mat/Colors/MaskDark"@,
        "Toggles/JacketOn"@ != "Mat/Colors/ShoeDark"@,
        "Toggles/JacketOn"@ != "Mat/Colors/SleevesDark"@,
        "Toggles/JacketOn"@ != "Mat/Colors/SwimsuitDark"@,
        "Toggles/JacketOn"@ != "Mat/Colors/PantsDark"@,
        "Toggles/JacketOn"@ != "Mat/Colors/SportsBraDark"@,
        "Toggles/JacketOn"@ != "Mat/Colors/TankTopDark"@,
        "Toggles/JacketOn"@ != "Mat/Colors/CropDark"@,
{
    reveal_strlit("Toggles/JacketOn");
    reveal_strlit("Toggles/Tops/CropOn");
    assert("Toggles/JacketOn"@.len() != "Toggles/Tops/CropOn"@.len());
    reveal_strlit("Toggles/Tops/SportsBraOn");
    assert("Toggles/JacketOn"@.len() != "Toggles/Tops/SportsBraOn"@.len());
    reveal_strlit("Toggles/Tops/TankTopOn");
    assert("Toggles/JacketOn"@.len() != "Toggles/Tops/TankTopOn"@.len());
    reveal_strlit("Toggles/Tops/NSFW");
    assert("Toggles/JacketOn"@.len() != "Toggles/Tops/NSFW"@.len());
    reveal_strlit("Toggles/Acc/BeanieOff");
    assert("Toggles/JacketOn"@.len() != "Toggles/Acc/BeanieOff"@.len());
    reveal_strlit("Toggles/Acc/GlovesOff");
    assert("Toggles/JacketOn"@.len() != "Toggles/Acc/GlovesOff"@.len());
    reveal_strlit("Toggles/Acc/HeadphonesOff");
    assert("Toggles/JacketOn"@.len() != "Toggles/Acc/HeadphonesOff"@.len());
    reveal_strlit("Toggles/Acc/MaskOff");
    assert("Toggles/JacketOn"@.len() != "Toggles/Acc/MaskOff"@.len());
    reveal_strlit("Toggles/Acc/ThighSocksOn");
    assert("Toggles/JacketOn"@.len() != "Toggles/Acc/ThighSocksOn"@.len());
    reveal_strlit("Toggles/Acc/CalfSocksOn");
    assert("Toggles/JacketOn"@.len() != "Toggles/Acc/CalfSocksOn"@.len());
    reveal_strlit("Toggles/Acc/SleevesOff");
    assert("Toggles/JacketOn"@.len() != "Toggles/Acc/SleevesOff"@.len());
    reveal_strlit("Toggles/Acc/HolotagArmOff");
    assert("Toggles/JacketOn"@.len() != "Toggles/Acc/HolotagArmOff"@.len());
    reveal_strlit("Toggles/Acc/HolotagThighOff");
    assert("Toggles/JacketOn"@.len() != "Toggles/Acc/HolotagThighOff"@.len());
    reveal_strlit("Toggles/Acc/RunningShoeOff");
    assert("Toggles/JacketOn"@.len() != "Toggles/Acc/RunningShoeOff"@.len());
    reveal_strlit("Toggles/Bottoms/PantiesOn");
    assert("Toggles/JacketOn"@.len() != "Toggles/Bottoms/PantiesOn"@.len());
    reveal_strlit("Toggles/Bottoms/AssPantsOn");
    assert("Toggles/JacketOn"@.len() != "Toggles/Bottoms/AssPantsOn"@.len());
    reveal_strlit("Toggles/Bottoms/PantsOn");
    assert("Toggles/JacketOn"@.len() != "Toggles/Bottoms/PantsOn"@.len());
    reveal_strlit("Toggles/Bottoms/NSFW");
    assert("Toggles/JacketOn"@.len() != "Toggles/Bottoms/NSFW"@.len());
    reveal_strlit("Toggles/Acc/GlassesOff");
    assert("Toggles/JacketOn"@.len() != "Toggles/Acc/GlassesOff"@.len());
    reveal_strlit("Toggles/Acc/BackpackOff");
    assert("Toggles/JacketOn"@.len() != "Toggles/Acc/BackpackOff"@.len());
    reveal_strlit("Toggles/Acc/DogtagsOff");
    assert("Toggles/JacketOn"@.len() != "Toggles/Acc/DogtagsOff"@.len());
    reveal_strlit("Toggles/Acc/LipRingsOff");
    assert("Toggles/JacketOn"@.len() != "Toggles/Acc/LipRingsOff"@.len());
    reveal_strlit("Toggles/Acc/EarringsOff");
    assert("Toggles/JacketOn"@.len() != "Toggles/Acc/EarringsOff"@.len());
    reveal_strlit("Hair/ShortOn");
    assert("Toggles/JacketOn"@.len() != "Hair/ShortOn"@.len());
    reveal_strlit("Hair/PonyOn");
    assert("Toggles/JacketOn"@.len() != "Hair/PonyOn"@.len());
    reveal_strlit("Hair/LongOn");
    assert("Toggles/JacketOn"@.len() != "Hair/LongOn"@.len());
    reveal_strlit("Nails/Normal");
    assert("Toggles/JacketOn"@.len() != "Nails/Normal"@.len());
    reveal_strlit("Nails/Square");
    assert("Toggles/JacketOn"@.len() != "Nails/Square"@.len());
    reveal_strlit("Nails/Almond");
    assert("Toggles/JacketOn"@.len() != "Nails/Almond"@.len());
    reveal_strlit("Nails/Longer");
    assert("Toggles/JacketOn"@.len() != "Nails/Longer"@.len());
    reveal_strlit("Nails/Stilletto");
    assert("Toggles/JacketOn"@.len() != "Nails/Stilletto"@.len());
    reveal_strlit("Mat/Hue");
    assert("Toggles/JacketOn"@.len() != "Mat/Hue"@.len());
    reveal_strlit("Mat/Colors/HairHue");
    assert("Toggles/JacketOn"@.len() != "Mat/Colors/HairHue"@.len());
    reveal_strlit("Mat/Colors/HairColored");
    assert("Toggles/JacketOn"@.len() != "Mat/Colors/HairColored"@.len());
    reveal_strlit("Mat/Cyberpunk");
    assert("Toggles/JacketOn"@.len() != "Mat/Cyberpunk"@.len());
    reveal_strlit("Mat/HairBlack");
    assert("Toggles/JacketOn"@.len() != "Mat/HairBlack"@.len());
    reveal_strlit("Mat/HairWhite");
    assert("Toggles/JacketOn"@.len() != "Mat/HairWhite"@.len());
    reveal_strlit("Mat/HairBlonde");
    assert("Toggles/JacketOn"@.len() != "Mat/HairBlonde"@.len());
    reveal_strlit("Mat/Monochromatic");
    assert("Toggles/JacketOn"@.len() != "Mat/Monochromatic"@.len());
    reveal_strlit("Mat/AudioLink");
    assert("Toggles/JacketOn"@.len() != "Mat/AudioLink"@.len());
    reveal_strlit("Mat/Colors/AssPantsDark");
    assert("Toggles/JacketOn"@.len() != "Mat/Colors/AssPantsDark"@.len());
    reveal_strlit("Mat/Colors/BackpackDark");
    assert("Toggles/JacketOn"@.len() != "Mat/Colors/BackpackDark"@.len());
    reveal_strlit("Mat/Colors/BeanieDark");
    assert("Toggles/JacketOn"@.len() != "Mat/Colors/BeanieDark"@.len());
    reveal_strlit("Mat/Colors/GlovesDark");
    assert("Toggles/JacketOn"@.len() != "Mat/Colors/GlovesDark"@.len());
    reveal_strlit("Mat/Colors/HeadphonesDark");
    assert("Toggles/JacketOn"@.len() != "Mat/Colors/HeadphonesDark"@.len());
    reveal_strlit("Mat/Colors/JacketDark");
    assert("Toggles/JacketOn"@.len() != "Mat/Colors/JacketDark"@.len());
    reveal_strlit("Mat/Colors/MaskDark");
    assert("Toggles/JacketOn"@.len() != "Mat/Colors/MaskDark"@.len());
    reveal_strlit("Mat/Colors/ShoeDark");
    assert("Toggles/JacketOn"@.len() != "Mat/Colors/ShoeDark"@.len());
    reveal_strlit("Mat/Colors/SleevesDark");
    assert("Toggles/JacketOn"@.len() != "Mat/Colors/SleevesDark"@.len());
    reveal_strlit("Mat/Colors/SwimsuitDark");
    assert("Toggles/JacketOn"@.len() != "Mat/Colors/SwimsuitDark"@.len());
    reveal_strlit("Mat/Colors/PantsDark");
    assert("Toggles/JacketOn"@.len() != "Mat/Colors/PantsDark"@.len());
    reveal_strlit("Mat/Colors/SportsBraDark");
    assert("Toggles/JacketOn"@.len() != "Mat/Colors/SportsBraDark"@.len());
    reveal_strlit("Mat/Colors/TankTopDark");
    assert("Toggles/JacketOn"@.len() != "Mat/Colors/TankTopDark"@.len());
    reveal_strlit("Mat/Colors/CropDark");
    assert("Toggles/JacketOn"@.len() != "Mat/Colors/CropDark"@.len());
}

proof fn lemma_distinct_from_later_2()
    ensures
        "Toggles/Tops/CropOn"@ != "Toggles/Tops/SportsBraOn"@,
        "Toggles/Tops/CropOn"@ != "Toggles/Tops/TankTopOn"@,
        "Toggles/Tops/CropOn"@ != "Toggles/Tops/NSFW"@,
        "Toggles/Tops/CropOn"@ != "Toggles/Acc/BeanieOff"@,
        "Toggles/Tops/CropOn"@ != "Toggles/Acc/GlovesOff"@,
        "Toggles/Tops/CropOn"@ != "Toggles/Acc/HeadphonesOff"@,
        "Toggles/Tops/CropOn"@ != "Toggles/Acc/MaskOff"@,
        "Toggles/Tops/CropOn"@ != "Toggles/Acc/ThighSocksOn"@,
        "Toggles/Tops/CropOn"@ != "Toggles/Acc/CalfSocksOn"@,
        "Toggles/Tops/CropOn"@ != "Toggles/Acc/SleevesOff"@,
        "Toggles/Tops/CropOn"@ != "Toggles/Acc/HolotagArmOff"@,
        "Toggles/Tops/CropOn"@ != "Toggles/Acc/HolotagThighOff"@,
        "Toggles/Tops/CropOn"@ != "Toggles/Acc/RunningShoeOff"@,
        "Toggles/Tops/CropOn"@ != "Toggles/Bottoms/PantiesOn"@,
        "Toggles/Tops/CropOn"@ != "Toggles/Bottoms/AssPantsOn"@,
        "Toggles/Tops/CropOn"@ != "Toggles/Bottoms/PantsOn"@,
        "Toggles/Tops/CropOn"@ != "Toggles/Bottoms/NSFW"@,
        "Toggles/Tops/CropOn"@ != "Toggles/Acc/GlassesOff"@,
        "Toggles/Tops/CropOn"@ != "Toggles/Acc/BackpackOff"@,
        "Toggles/Tops/CropOn"@ != "Toggles/Acc/DogtagsOff"@,
        "Toggles/Tops/CropOn"@ != "Toggles/Acc/LipRingsOff"@,
        "Toggles/Tops/CropOn"@ != "Toggles/Acc/EarringsOff"@,
        "Toggles/Tops/CropOn"@ != "Hair/ShortOn"@,
        "Toggles/Tops/CropOn"@ != "Hair/PonyOn"@,
        "Toggles/Tops/CropOn"@ != "Hair/LongOn"@,
        "Toggles/Tops/CropOn"@ != "Nails/Normal"@,
        "Toggles/Tops/CropOn"@ != "Nails/Square"@,
        "Toggles/Tops/CropOn"@ != "Nails/Almond"@,
        "Toggles/Tops/CropOn"@ != "Nails/Longer"@,
        "Toggles/Tops/CropOn"@ != "Nails/Stilletto"@,
        "Toggles/Tops/CropOn"@ != "Mat/Hue"@,
        "Toggles/Tops/CropOn"@ != "Mat/Colors/HairHue"@,
        "Toggles/Tops/CropOn"@ != "Mat/Colors/HairColored"@,
        "Toggles/Tops/CropOn"@ != "Mat/Cyberpunk"@,
        "Toggles/Tops/CropOn"@ != "Mat/HairBlack"@,
        "Toggles/Tops/CropOn"@ != "Mat/HairWhite"@,
        "Toggles/Tops/CropOn"@ != "Mat/HairBlonde"@,
        "Toggles/Tops/CropOn"@ != "Mat/Monochromatic"@,
        "Toggles/Tops/CropOn"@ != "Mat/AudioLink"@,
        "Toggles/Tops/CropOn"@ != "Mat/Colors/AssPantsDark"@,
        "Toggles/Tops/CropOn"@ != "Mat/Colors/BackpackDark"@,
        "Toggles/Tops/CropOn"@ != "Mat/Colors/BeanieDark"@,
        "Toggles/Tops/CropOn"@ != "Mat/Colors/GlovesDark"@,
        "Toggles/Tops/CropOn"@ != "Mat/Colors/HeadphonesDark"@,
        "Toggles/Tops/CropOn"@ != "Mat/Colors/JacketDark"@,
        "Toggles/Tops/CropOn"@ != "Mat/Colors/MaskDark"@,
        "Toggles/Tops/CropOn"@ != "Mat/Colors/ShoeDark"@,
        "Toggles/Tops/CropOn"@ != "Mat/Colors/SleevesDark"@,
        "Toggles/Tops/CropOn"@ != "Mat/Colors/SwimsuitDark"@,
        "Toggles/Tops/CropOn"@ != "Mat/Colors/PantsDark"@,
        "Toggles/Tops/CropOn"@ != "Mat/Colors/SportsBraDark"@,
        "Toggles/Tops/CropOn"@ != "Mat/Colors/TankTopDark"@,
        "Toggles/Tops/CropOn"@ != "Mat/Colors/CropDark"@,
{
    reveal_strlit("Toggles/Tops/CropOn");
    reveal_strlit("Toggles/Tops/SportsBraOn");
    assert("Toggles/Tops/CropOn"@.len() != "Toggles/Tops/SportsBraOn"@.len());
    reveal_strlit("Toggles/Tops/TankTopOn");
    assert("Toggles/Tops/CropOn"@.len() != "Toggles/Tops/TankTopOn"@.len());
    reveal_strlit("Toggles/Tops/NSFW");
    assert("Toggles/Tops/CropOn"@.len() != "Toggles/Tops/NSFW"@.len());
    reveal_strlit("Toggles/Acc/BeanieOff");
    assert("Toggles/Tops/CropOn"@.len() != "Toggles/Acc/BeanieOff"@.len());
    reveal_strlit("Toggles/Acc/GlovesOff");
    assert("Toggles/Tops/CropOn"@.len() != "Toggles/Acc/GlovesOff"@.len());
    reveal_strlit("Toggles/Acc/HeadphonesOff");
    assert("Toggles/Tops/CropOn"@.len() != "Toggles/Acc/HeadphonesOff"@.len());
    reveal_strlit("Toggles/Acc/MaskOff");
    assert("Toggles/Tops/CropOn"@[8] != "Toggles/Acc/MaskOff"@[8]);
    reveal_strlit("Toggles/Acc/ThighSocksOn");
    assert("Toggles/Tops/CropOn"@.len() != "Toggles/Acc/ThighSocksOn"@.len());
    reveal_strlit("Toggles/Acc/CalfSocksOn");
    assert("Toggles/Tops/CropOn"@.len() != "Toggles/Acc/CalfSocksOn"@.len());
    reveal_strlit("Toggles/Acc/SleevesOff");
    assert("Toggles/Tops/CropOn"@.len() != "Toggles/Acc/SleevesOff"@.len());
    reveal_strlit("Toggles/Acc/HolotagArmOff");
    assert("Toggles/Tops/CropOn"@.len() != "Toggles/Acc/HolotagArmOff"@.len());
    reveal_strlit("Toggles/Acc/HolotagThighOff");
    assert("Toggles/Tops/CropOn"@.len() != "Toggles/Acc/HolotagThighOff"@.len());
    reveal_strlit("Toggles/Acc/RunningShoeOff");
    assert("Toggles/Tops/CropOn"@.len() != "Toggles/Acc/RunningShoeOff"@.len());
    reveal_strlit("Toggles/Bottoms/PantiesOn");
    assert("Toggles/Tops/CropOn"@.len() != "Toggles/Bottoms/PantiesOn"@.len());
    reveal_strlit("Toggles/Bottoms/AssPantsOn");
    assert("Toggles/Tops/CropOn"@.len() != "Toggles/Bottoms/AssPantsOn"@.len());
    reveal_strlit("Toggles/Bottoms/PantsOn");
    assert("Toggles/Tops/CropOn"@.len() != "Toggles/Bottoms/PantsOn"@.len());
    reveal_strlit("Toggles/Bottoms/NSFW");
    assert("Toggles/Tops/CropOn"@.len() != "Toggles/Bottoms/NSFW"@.len());
    reveal_strlit("Toggles/Acc/GlassesOff");
    assert("Toggles/Tops/CropOn"@.len() != "Toggles/Acc/GlassesOff"@.len());
    reveal_strlit("Toggles/Acc/BackpackOff");
    assert("Toggles/Tops/CropOn"@.len() != "Toggles/Acc/BackpackOff"@.len());
    reveal_strlit("Toggles/Acc/DogtagsOff");
    assert("Toggles/Tops/CropOn"@.len() != "Toggles/Acc/DogtagsOff"@.len());
    reveal_strlit("Toggles/Acc/LipRingsOff");
    assert("Toggles/Tops/CropOn"@.len() != "Toggles/Acc/LipRingsOff"@.len());
    reveal_strlit("Toggles/Acc/EarringsOff");
    assert("Toggles/Tops/CropOn"@.len() != "Toggles/Acc/EarringsOff"@.len());
    reveal_strlit("Hair/ShortOn");
    assert("Toggles/Tops/CropOn"@.len() != "Hair/ShortOn"@.len());
    reveal_strlit("Hair/PonyOn");
    assert("Toggles/Tops/CropOn"@.len() != "Hair/PonyOn"@.len());
    reveal_strlit("Hair/LongOn");
    assert("Toggles/Tops/CropOn"@.len() != "Hair/LongOn"@.len());
    reveal_strlit("Nails/Normal");
    assert("Toggles/Tops/CropOn"@.len() != "Nails/Normal"@.len());
    reveal_strlit("Nails/Square");
    assert("Toggles/Tops/CropOn"@.len() != "Nails/Square"@.len());
    reveal_strlit("Nails/Almond");
    assert("Toggles/Tops/CropOn"@.len() != "Nails/Almond"@.len());
    reveal_strlit("Nails/Longer");
    assert("Toggles/Tops/CropOn"@.len() != "Nails/Longer"@.len());
    reveal_strlit("Nails/Stilletto");
    assert("Toggles/Tops/CropOn"@.len() != "Nails/Stilletto"@.len());
    reveal_strlit("Mat/Hue");
    assert("Toggles/Tops/CropOn"@.len() != "Mat/Hue"@.len());
    reveal_strlit("Mat/Colors/HairHue");
    assert("Toggles/Tops/CropOn"@.len() != "Mat/Colors/HairHue"@.len());
    reveal_strlit("Mat/Colors/HairColored");
    assert("Toggles/Tops/CropOn"@.len() != "Mat/Colors/HairColored"@.len());
    reveal_strlit("Mat/Cyberpunk");
    assert("Toggles/Tops/CropOn"@.len() != "Mat/Cyberpunk"@.len());
    reveal_strlit("Mat/HairBlack");
    assert("Toggles/Tops/CropOn"@.len() != "Mat/HairBlack"@.len());
    reveal_strlit("Mat/HairWhite");
    assert("Toggles/Tops/CropOn"@.len() != "Mat/HairWhite"@.len());
    reveal_strlit("Mat/HairBlonde");
    assert("Toggles/Tops/CropOn"@.len() != "Mat/HairBlonde"@.len());
    reveal_strlit("Mat/Monochromatic");
    assert("Toggles/Tops/CropOn"@.len() != "Mat/Monochromatic"@.len());
    reveal_strlit("Mat/AudioLink");
    assert("Toggles/Tops/CropOn"@.len() != "Mat/AudioLink"@.len());
    reveal_strlit("Mat/Colors/AssPantsDark");
    assert("Toggles/Tops/CropOn"@.len() != "Mat/Colors/AssPantsDark"@.len());
    reveal_strlit("Mat/Colors/BackpackDark");
    assert("Toggles/Tops/CropOn"@.len() != "Mat/Colors/BackpackDark"@.len());
    reveal_strlit("Mat/Colors/BeanieDark");
    assert("Toggles/Tops/CropOn"@.len() != "Mat/Colors/BeanieDark"@.len());
    reveal_strlit("Mat/Colors/GlovesDark");
    assert("Toggles/Tops/CropOn"@.len() != "Mat/Colors/GlovesDark"@.len());
    reveal_strlit("Mat/Colors/HeadphonesDark");
    assert("Toggles/Tops/CropOn"@.len() != "Mat/Colors/HeadphonesDark"@.len());
    reveal_strlit("Mat/Colors/JacketDark");
    assert("Toggles/Tops/CropOn"@.len() != "Mat/Colors/JacketDark"@.len());
    reveal_strlit("Mat/Colors/MaskDark");
    assert("Toggles/Tops/CropOn"@[0] != "Mat/Colors/MaskDark"@[0]);
    reveal_strlit("Mat/Colors/ShoeDark");
    assert("Toggles/Tops/CropOn"@[0] != "Mat/Colors/ShoeDark"@[0]);
    reveal_strlit("Mat/Colors/SleevesDark");
    assert("Toggles/Tops/CropOn"@.len() != "Mat/Colors/SleevesDark"@.len());
    reveal_strlit("Mat/Colors/SwimsuitDark");
    assert("Toggles/Tops/CropOn"@.len() != "Mat/Colors/SwimsuitDark"@.len());
    reveal_strlit("Mat/Colors/PantsDark");
    assert("Toggles/Tops/CropOn"@.len() != "Mat/Colors/PantsDark"@.len());
    reveal_strlit("Mat/Colors/SportsBraDark");
    assert("Toggles/Tops/CropOn"@.len() != "Mat/Colors/SportsBraDark"@.len());
    reveal_strlit("Mat/Colors/TankTopDark");
    assert("Toggles/Tops/CropOn"@.len() != "Mat/Colors/TankTopDark"@.len());
    reveal_strlit("Mat/Colors/CropDark");
    assert("Toggles/Tops/CropOn"@[0] != "Mat/Colors/CropDark"@[0]);
}

proof fn lemma_distinct_from_later_3()
    ensures
        "Toggles/Tops/SportsBraOn"@ != "Toggles/Tops/TankTopOn"@,
        "Toggles/Tops/SportsBraOn"@ != "Toggles/Tops/NSFW"@,
        "Toggles/Tops/SportsBraOn"@ != "Toggles/Acc/BeanieOff"@,
        "Toggles/Tops/SportsBraOn"@ != "Toggles/Acc/GlovesOff"@,
        "Toggles/Tops/SportsBraOn"@ != "Toggles/Acc/HeadphonesOff"@,
        "Toggles/Tops/SportsBraOn"@ != "Toggles/Acc/MaskOff"@,
        "Toggles/Tops/SportsBraOn"@ != "Toggles/Acc/ThighSocksOn"@,
        "Toggles/Tops/SportsBraOn"@ != "Toggles/Acc/CalfSocksOn"@,
        "Toggles/Tops/SportsBraOn"@ != "Toggles/Acc/SleevesOff"@,
        "Toggles/Tops/SportsBraOn"@ != "Toggles/Acc/HolotagArmOff"@,
        "Toggles/Tops/SportsBraOn"@ != "Toggles/Acc/HolotagThighOff"@,
        "Toggles/Tops/SportsBraOn"@ != "Toggles/Acc/RunningShoeOff"@,
        "Toggles/Tops/SportsBraOn"@ != "Toggles/Bottoms/PantiesOn"@,
        "Toggles/Tops/SportsBraOn"@ != "Toggles/Bottoms/AssPantsOn"@,
        "Toggles/Tops/SportsBraOn"@ != "Toggles/Bottoms/PantsOn"@,
        "Toggles/Tops/SportsBraOn"@ != "Toggles/Bottoms/NSFW"@,
        "Toggles/Tops/SportsBraOn"@ != "Toggles/Acc/GlassesOff"@,
        "Toggles/Tops/SportsBraOn"@ != "Toggles/Acc/BackpackOff"@,
        "Toggles/Tops/SportsBraOn"@ != "Toggles/Acc/DogtagsOff"@,
        "Toggles/Tops/SportsBraOn"@ != "Toggles/Acc/LipRingsOff"@,
        "Toggles/Tops/SportsBraOn"@ != "Toggles/Acc/EarringsOff"@,
        "Toggles/Tops/SportsBraOn"@ != "Hair/ShortOn"@,
        "Toggles/Tops/SportsBraOn"@ != "Hair/PonyOn"@,
        "Toggles/Tops/SportsBraOn"@ != "Hair/LongOn"@,
        "Toggles/Tops/SportsBraOn"@ != "Nails/Normal"@,
        "Toggles/Tops/SportsBraOn"@ != "Nails/Square"@,
        "Toggles/Tops/SportsBraOn"@ != "Nails/Almond"@,
        "Toggles/Tops/SportsBraOn"@ != "Nails/Longer"@,
        "Toggles/Tops/SportsBraOn"@ != "Nails/Stilletto"@,
        "Toggles/Tops/SportsBraOn"@ != "Mat/Hue"@,
        "Toggles/Tops/SportsBraOn"@ != "Mat/Colors/HairHue"@,
        "Toggles/Tops/SportsBraOn"@ != "Mat/Colors/HairColored"@,
        "Toggles/Tops/SportsBraOn"@ != "Mat/Cyberpunk"@,
        "Toggles/Tops/SportsBraOn"@ != "Mat/HairBlack"@,
        "Toggles/Tops/SportsBraOn"@ != "Mat/HairWhite"@,
        "Toggles/Tops/SportsBraOn"@ != "Mat/HairBlonde"@,
        "Toggles/Tops/SportsBraOn"@ != "Mat/Monochromatic"@,
        "Toggles/Tops/SportsBraOn"@ != "Mat/AudioLink"@,
        "Toggles/Tops/SportsBraOn"@ != "Mat/Colors/AssPantsDark"@,
        "Toggles/Tops/SportsBraOn"@ != "Mat/Colors/BackpackDark"@,
        "Toggles/Tops/SportsBraOn"@ != "Mat/Colors/BeanieDark"@,
        "Toggles/Tops/SportsBraOn"@ != "Mat/Colors/GlovesDark"@,
        "Toggles/Tops/SportsBraOn"@ != "Mat/Colors/HeadphonesDark"@,
        "Toggles/Tops/SportsBraOn"@ != "Mat/Colors/JacketDark"@,
        "Toggles/Tops/SportsBraOn"@ != "Mat/Colors/MaskDark"@,
        "Toggles/Tops/SportsBraOn"@ != "Mat/Colors/ShoeDark"@,
        "Toggles/Tops/SportsBraOn"@ != "Mat/Colors/SleevesDark"@,
        "Toggles/Tops/SportsBraOn"@ != "Mat/Colors/SwimsuitDark"@,
        "Toggles/Tops/SportsBraOn"@ != "Mat/Colors/PantsDark"@,
        "Toggles/Tops/SportsBraOn"@ != "Mat/Colors/SportsBraDark"@,
        "Toggles/Tops/SportsBraOn"@ != "Mat/Colors/TankTopDark"@,
        "Toggles/Tops/SportsBraOn"@ != "Mat/Colors/CropDark"@,
{
    reveal_strlit("Toggles/Tops/SportsBraOn");
    reveal_strlit("Toggles/Tops/TankTopOn");
    assert("Toggles/Tops/SportsBraOn"@.len() != "Toggles/Tops/TankTopOn"@.len());
    reveal_strlit("Toggles/Tops/NSFW");
    assert("Toggles/Tops/SportsBraOn"@.len() != "Toggles/Tops/NSFW"@.len());
    reveal_strlit("Toggles/Acc/BeanieOff");
    assert("Toggles/Tops/SportsBraOn"@.len() != "Toggles/Acc/BeanieOff"@.len());
    reveal_strlit("Toggles/Acc/GlovesOff");
    assert("Toggles/Tops/SportsBraOn"@.len() != "Toggles/Acc/GlovesOff"@.len());
    reveal_strlit("Toggles/Acc/HeadphonesOff");
    assert("Toggles/Tops/SportsBraOn"@.len() != "Toggles/Acc/HeadphonesOff"@.len());
    reveal_strlit("Toggles/Acc/MaskOff");
    assert("Toggles/Tops/SportsBraOn"@.len() != "Toggles/Acc/MaskOff"@.len());
    reveal_strlit("Toggles/Acc/ThighSocksOn");
    assert("Toggles/Tops/SportsBraOn"@[8] != "Toggles/Acc/ThighSocksOn"@[8]);
    reveal_strlit("Toggles/Acc/CalfSocksOn");
    assert("Toggles/Tops/SportsBraOn"@.len() != "Toggles/Acc/CalfSocksOn"@.len());
    reveal_strlit("Toggles/Acc/SleevesOff");
    assert("Toggles/Tops/SportsBraOn"@.len() != "Toggles/Acc/SleevesOff"@.len());
    reveal_strlit("Toggles/Acc/HolotagArmOff");
    assert("Toggles/Tops/SportsBraOn"@.len() != "Toggles/Acc/HolotagArmOff"@.len());
    reveal_strlit("Toggles/Acc/HolotagThighOff");
    assert("Toggles/Tops/SportsBraOn"@.len() != "Toggles/Acc/HolotagThighOff"@.len());
    reveal_strlit("Toggles/Acc/RunningShoeOff");
    assert("Toggles/Tops/SportsBraOn"@.len() != "Toggles/Acc/RunningShoeOff"@.len());
    reveal_strlit("Toggles/Bottoms/PantiesOn");
    assert("Toggles/Tops/SportsBraOn"@.len() != "Toggles/Bottoms/PantiesOn"@.len());
    reveal_strlit("Toggles/Bottoms/AssPantsOn");
    assert("Toggles/Tops/SportsBraOn"@.len() != "Toggles/Bottoms/AssPantsOn"@.len());
    reveal_strlit("Toggles/Bottoms/PantsOn");
    assert("Toggles/Tops/SportsBraOn"@.len() != "Toggles/Bottoms/PantsOn"@.len());
    reveal_strlit("Toggles/Bottoms/NSFW");
    assert("Toggles/Tops/SportsBraOn"@.len() != "Toggles/Bottoms/NSFW"@.len());
    reveal_strlit("Toggles/Acc/GlassesOff");
    assert("Toggles/Tops/SportsBraOn"@.len() != "Toggles/Acc/GlassesOff"@.len());
    reveal_strlit("Toggles/Acc/BackpackOff");
    assert("Toggles/Tops/SportsBraOn"@.len() != "Toggles/Acc/BackpackOff"@.len());
    reveal_strlit("Toggles/Acc/DogtagsOff");
    assert("Toggles/Tops/SportsBraOn"@.len() != "Toggles/Acc/DogtagsOff"@.len());
    reveal_strlit("Toggles/Acc/LipRingsOff");
    assert("Toggles/Tops/SportsBraOn"@.len() != "Toggles/Acc/LipRingsOff"@.len());
    reveal_strlit("Toggles/Acc/EarringsOff");
    assert("Toggles/Tops/SportsBraOn"@.len() != "Toggles/Acc/EarringsOff"@.len());
    reveal_strlit("Hair/ShortOn");
    assert("Toggles/Tops/SportsBraOn"@.len() != "Hair/ShortOn"@.len());
    reveal_strlit("Hair/PonyOn");
    assert("Toggles/Tops/SportsBraOn"@.len() != "Hair/PonyOn"@.len());
    reveal_strlit("Hair/LongOn");
    assert("Toggles/Tops/SportsBraOn"@.len() != "Hair/LongOn"@.len());
    reveal_strlit("Nails/Normal");
    assert("Toggles/Tops/SportsBraOn"@.len() != "Nails/Normal"@.len());
    reveal_strlit("Nails/Square");
    assert("Toggles/Tops/SportsBraOn"@.len() != "Nails/Square"@.len());
    reveal_strlit("Nails/Almond");
    assert("Toggles/Tops/SportsBraOn"@.len() != "Nails/Almond"@.len());
    reveal_strlit("Nails/Longer");
    assert("Toggles/Tops/SportsBraOn"@.len() != "Nails/Longer"@.len());
    reveal_strlit("Nails/Stilletto");
    assert("Toggles/Tops/SportsBraOn"@.len() != "Nails/Stilletto"@.len());
    reveal_strlit("Mat/Hue");
    assert("Toggles/Tops/SportsBraOn"@.len() != "Mat/Hue"@.len());
    reveal_strlit("Mat/Colors/HairHue");
    assert("Toggles/Tops/SportsBraOn"@.len() != "Mat/Colors/HairHue"@.len());
    reveal_strlit("Mat/Colors/HairColored");
    assert("Toggles/Tops/SportsBraOn"@.len() != "Mat/Colors/HairColored"@.len());
    reveal_strlit("Mat/Cyberpunk");
    assert("Toggles/Tops/SportsBraOn"@.len() != "Mat/Cyberpunk"@.len());
    reveal_strlit("Mat/HairBlack");
    assert("Toggles/Tops/SportsBraOn"@.len() != "Mat/HairBlack"@.len());
    reveal_strlit("Mat/HairWhite");
    assert("Toggles/Tops/SportsBraOn"@.len() != "Mat/HairWhite"@.len());
    reveal_strlit("Mat/HairBlonde");
    assert("Toggles/Tops/SportsBraOn"@.len() != "Mat/HairBlonde"@.len());
    reveal_strlit("Mat/Monochromatic");
    assert("Toggles/Tops/SportsBraOn"@.len() != "Mat/Monochromatic"@.len());
    reveal_strlit("Mat/AudioLink");
    assert("Toggles/Tops/SportsBraOn"@.len() != "Mat/AudioLink"@.len());
    reveal_strlit("Mat/Colors/AssPantsDark");
    assert("Toggles/Tops/SportsBraOn"@.len() != "Mat/Colors/AssPantsDark"@.len());
    reveal_strlit("Mat/Colors/BackpackDark");
    assert("Toggles/Tops/SportsBraOn"@.len() != "Mat/Colors/BackpackDark"@.len());
    reveal_strlit("Mat/Colors/BeanieDark");
    assert("Toggles/Tops/SportsBraOn"@.len() != "Mat/Colors/BeanieDark"@.len());
    reveal_strlit("Mat/Colors/GlovesDark");
    assert("Toggles/Tops/SportsBraOn"@.len() != "Mat/Colors/GlovesDark"@.len());
    reveal_strlit("Mat/Colors/HeadphonesDark");
    assert("Toggles/Tops/SportsBraOn"@.len() != "Mat/Colors/HeadphonesDark"@.len());
    reveal_strlit("Mat/Colors/JacketDark");
    assert("Toggles/Tops/SportsBraOn"@.len() != "Mat/Colors/JacketDark"@.len());
    reveal_strlit("Mat/Colors/MaskDark");
    assert("Toggles/Tops/SportsBraOn"@.len() != "Mat/Colors/MaskDark"@.len());
    reveal_strlit("Mat/Colors/ShoeDark");
    assert("Toggles/Tops/SportsBraOn"@.len() != "Mat/Colors/ShoeDark"@.len());
    reveal_strlit("Mat/Colors/SleevesDark");
    assert("Toggles/Tops/SportsBraOn"@.len() != "Mat/Colors/SleevesDark"@.len());
    reveal_strlit("Mat/Colors/SwimsuitDark");
    assert("Toggles/Tops/SportsBraOn"@.len() != "Mat/Colors/SwimsuitDark"@.len());
    reveal_strlit("Mat/Colors/PantsDark");
    assert("Toggles/Tops/SportsBraOn"@.len() != "Mat/Colors/PantsDark"@.len());
    reveal_strlit("Mat/Colors/SportsBraDark");
    assert("Toggles/Tops/SportsBraOn"@[0] != "Mat/Colors/SportsBraDark"@[0]);
    reveal_strlit("Mat/Colors/TankTopDark");
    assert("Toggles/Tops/SportsBraOn"@.len() != "Mat/Colors/TankTopDark"@.len());
    reveal_strlit("Mat/Colors/CropDark");
    assert("Toggles/Tops/SportsBraOn"@.len() != "Mat/Colors/CropDark"@.len());
}

proof fn lemma_distinct_from_later_4()
    ensures
        "Toggles/Tops/TankTopOn"@ != "Toggles/Tops/NSFW"@,
        "Toggles/Tops/TankTopOn"@ != "Toggles/Acc/BeanieOff"@,
        "Toggles/Tops/TankTopOn"@ != "Toggles/Acc/GlovesOff"@,
        "Toggles/Tops/TankTopOn"@ != "Toggles/Acc/HeadphonesOff"@,
        "Toggles/Tops/TankTopOn"@ != "Toggles/Acc/MaskOff"@,
        "Toggles/Tops/TankTopOn"@ != "Toggles/Acc/ThighSocksOn"@,
        "Toggles/Tops/TankTopOn"@ != "Toggles/Acc/CalfSocksOn"@,
        "Toggles/Tops/TankTopOn"@ != "Toggles/Acc/SleevesOff"@,
        "Toggles/Tops/TankTopOn"@ != "Toggles/Acc/HolotagArmOff"@,
        "Toggles/Tops/TankTopOn"@ != "Toggles/Acc/HolotagThighOff"@,
        "Toggles/Tops/TankTopOn"@ != "Toggles/Acc/RunningShoeOff"@,
        "Toggles/Tops/TankTopOn"@ != "Toggles/Bottoms/PantiesOn"@,
        "Toggles/Tops/TankTopOn"@ != "Toggles/Bottoms/AssPantsOn"@,
        "Toggles/Tops/TankTopOn"@ != "Toggles/Bottoms/PantsOn"@,
        "Toggles/Tops/TankTopOn"@ != "Toggles/Bottoms/NSFW"@,
        "Toggles/Tops/TankTopOn"@ != "Toggles/Acc/GlassesOff"@,
        "Toggles/Tops/TankTopOn"@ != "Toggles/Acc/BackpackOff"@,
        "Toggles/Tops/TankTopOn"@ != "Toggles/Acc/DogtagsOff"@,
        "Toggles/Tops/TankTopOn"@ != "Toggles/Acc/LipRingsOff"@,
        "Toggles/Tops/TankTopOn"@ != "Toggles/Acc/EarringsOff"@,
        "Toggles/Tops/TankTopOn"@ != "Hair/ShortOn"@,
        "Toggles/Tops/TankTopOn"@ != "Hair/PonyOn"@,
        "Toggles/Tops/TankTopOn"@ != "Hair/LongOn"@,
        "Toggles/Tops/TankTopOn"@ != "Nails/Normal"@,
        "Toggles/Tops/TankTopOn"@ != "Nails/Square"@,
        "Toggles/Tops/TankTopOn"@ != "Nails/Almond"@,
        "Toggles/Tops/TankTopOn"@ != "Nails/Longer"@,
        "Toggles/Tops/TankTopOn"@ != "Nails/Stilletto"@,
        "Toggles/Tops/TankTopOn"@ != "Mat/Hue"@,
        "Toggles/Tops/TankTopOn"@ != "Mat/Colors/HairHue"@,
        "Toggles/Tops/TankTopOn"@ != "Mat/Colors/HairColored"@,
        "Toggles/Tops/TankTopOn"@ != "Mat/Cyberpunk"@,
        "Toggles/Tops/TankTopOn"@ != "Mat/HairBlack"@,
        "Toggles/Tops/TankTopOn"@ != "Mat/HairWhite"@,
        "Toggles/Tops/TankTopOn"@ != "Mat/HairBlonde"@,
        "Toggles/Tops/TankTopOn"@ != "Mat/Monochromatic"@,
        "Toggles/Tops/TankTopOn"@ != "Mat/AudioLink"@,
        "Toggles/Tops/TankTopOn"@ != "Mat/Colors/AssPantsDark"@,
        "Toggles/Tops/TankTopOn"@ != "Mat/Colors/BackpackDark"@,
        "Toggles/Tops/TankTopOn"@ != "Mat/Colors/BeanieDark"@,
        "Toggles/Tops/TankTopOn"@ != "Mat/Colors/GlovesDark"@,
        "Toggles/Tops/TankTopOn"@ != "Mat/Colors/HeadphonesDark"@,
        "Toggles/Tops/TankTopOn"@ != "Mat/Colors/JacketDark"@,
        "Toggles/Tops/TankTopOn"@ != "Mat/Colors/MaskDark"@,
        "Toggles/Tops/TankTopOn"@ != "Mat/Colors/ShoeDark"@,
        "Toggles/Tops/TankTopOn"@ != "Mat/Colors/SleevesDark"@,
        "Toggles/Tops/TankTopOn"@ != "Mat/Colors/SwimsuitDark"@,
        "Toggles/Tops/TankTopOn"@ != "Mat/Colors/PantsDark"@,
        "Toggles/Tops/TankTopOn"@ != "Mat/Colors/SportsBraDark"@,
        "Toggles/Tops/TankTopOn"@ != "Mat/Colors/TankTopDark"@,
        "Toggles/Tops/TankTopOn"@ != "Mat/Colors/CropDark"@,
{
    reveal_strlit("Toggles/Tops/TankTopOn");
    reveal_strlit("Toggles/Tops/NSFW");
    assert("Toggles/Tops/TankTopOn"@.len() != "Toggles/Tops/NSFW"@.len());
    reveal_strlit("Toggles/Acc/BeanieOff");
    assert("Toggles/Tops/TankTopOn"@.len() != "Toggles/Acc/BeanieOff"@.len());
    reveal_strlit("Toggles/Acc/GlovesOff");
    assert("Toggles/Tops/TankTopOn"@.len() != "Toggles/Acc/GlovesOff"@.len());
    reveal_strlit("Toggles/Acc/HeadphonesOff");
    assert("Toggles/Tops/TankTopOn"@.len() != "Toggles/Acc/HeadphonesOff"@.len());
    reveal_strlit("Toggles/Acc/MaskOff");
    assert("Toggles/Tops/TankTopOn"@.len() != "Toggles/Acc/MaskOff"@.len());
    reveal_strlit("Toggles/Acc/ThighSocksOn");
    assert("Toggles/Tops/TankTopOn"@.len() != "Toggles/Acc/ThighSocksOn"@.len());
    reveal_strlit("Toggles/Acc/CalfSocksOn");
    assert("Toggles/Tops/TankTopOn"@.len() != "Toggles/Acc/CalfSocksOn"@.len());
    reveal_strlit("Toggles/Acc/SleevesOff");
    assert("Toggles/Tops/TankTopOn"@[8] != "Toggles/Acc/SleevesOff"@[8]);
    reveal_strlit("Toggles/Acc/HolotagArmOff");
    assert("Toggles/Tops/TankTopOn"@.len() != "Toggles/Acc/HolotagArmOff"@.len());
    reveal_strlit("Toggles/Acc/HolotagThighOff");
    assert("Toggles/Tops/TankTopOn"@.len() != "Toggles/Acc/HolotagThighOff"@.len());
    reveal_strlit("Toggles/Acc/RunningShoeOff");
    assert("Toggles/Tops/TankTopOn"@.len() != "Toggles/Acc/RunningShoeOff"@.len());
    reveal_strlit("Toggles/Bottoms/PantiesOn");
    assert("Toggles/Tops/TankTopOn"@.len() != "Toggles/Bottoms/PantiesOn"@.len());
    reveal_strlit("Toggles/Bottoms/AssPantsOn");
    assert("Toggles/Tops/TankTopOn"@.len() != "Toggles/Bottoms/AssPantsOn"@.len());
    reveal_strlit("Toggles/Bottoms/PantsOn");
    assert("Toggles/Tops/TankTopOn"@.len() != "Toggles/Bottoms/PantsOn"@.len());
    reveal_strlit("Toggles/Bottoms/NSFW");
    assert("Toggles/Tops/TankTopOn"@.len() != "Toggles/Bottoms/NSFW"@.len());
    reveal_strlit("Toggles/Acc/GlassesOff");
    assert("Toggles/Tops/TankTopOn"@[8] != "Toggles/Acc/GlassesOff"@[8]);
    reveal_strlit("Toggles/Acc/BackpackOff");
    assert("Toggles/Tops/TankTopOn"@.len() != "Toggles/Acc/BackpackOff"@.len());
    reveal_strlit("Toggles/Acc/DogtagsOff");
    assert("Toggles/Tops/TankTopOn"@[8] != "Toggles/Acc/DogtagsOff"@[8]);
    reveal_strlit("Toggles/Acc/LipRingsOff");
    assert("Toggles/Tops/TankTopOn"@.len() != "Toggles/Acc/LipRingsOff"@.len());
    reveal_strlit("Toggles/Acc/EarringsOff");
    assert("Toggles/Tops/TankTopOn"@.len() != "Toggles/Acc/EarringsOff"@.len());
    reveal_strlit("Hair/ShortOn");
    assert("Toggles/Tops/TankTopOn"@.len() != "Hair/ShortOn"@.len());
    reveal_strlit("Hair/PonyOn");
    assert("Toggles/Tops/TankTopOn"@.len() != "Hair/PonyOn"@.len());
    reveal_strlit("Hair/LongOn");
    assert("Toggles/Tops/TankTopOn"@.len() != "Hair/LongOn"@.len());
    reveal_strlit("Nails/Normal");
    assert("Toggles/Tops/TankTopOn"@.len() != "Nails/Normal"@.len());
    reveal_strlit("Nails/Square");
    assert("Toggles/Tops/TankTopOn"@.len() != "Nails/Square"@.len());
    reveal_strlit("Nails/Almond");
    assert("Toggles/Tops/TankTopOn"@.len() != "Nails/Almond"@.len());
    reveal_strlit("Nails/Longer");
    assert("Toggles/Tops/TankTopOn"@.len() != "Nails/Longer"@.len());
    reveal_strlit("Nails/Stilletto");
    assert("Toggles/Tops/TankTopOn"@.len() != "Nails/Stilletto"@.len());
    reveal_strlit("Mat/Hue");
    assert("Toggles/Tops/TankTopOn"@.len() != "Mat/Hue"@.len());
    reveal_strlit("Mat/Colors/HairHue");
    assert("Toggles/Tops/TankTopOn"@.len() != "Mat/Colors/HairHue"@.len());
    reveal_strlit("Mat/Colors/HairColored");
    assert("Toggles/Tops/TankTopOn"@[0] != "Mat/Colors/HairColored"@[0]);
    reveal_strlit("Mat/Cyberpunk");
    assert("Toggles/Tops/TankTopOn"@.len() != "Mat/Cyberpunk"@.len());
    reveal_strlit("Mat/HairBlack");
    assert("Toggles/Tops/TankTopOn"@.len() != "Mat/HairBlack"@.len());
    reveal_strlit("Mat/HairWhite");
    assert("Toggles/Tops/TankTopOn"@.len() != "Mat/HairWhite"@.len());
    reveal_strlit("Mat/HairBlonde");
    assert("Toggles/Tops/TankTopOn"@.len() != "Mat/HairBlonde"@.len());
    reveal_strlit("Mat/Monochromatic");
    assert("Toggles/Tops/TankTopOn"@.len() != "Mat/Monochromatic"@.len());
    reveal_strlit("Mat/AudioLink");
    assert("Toggles/Tops/TankTopOn"@.len() != "Mat/AudioLink"@.len());
    reveal_strlit("Mat/Colors/AssPantsDark");
    assert("Toggles/Tops/TankTopOn"@.len() != "Mat/Colors/AssPantsDark"@.len());
    reveal_strlit("Mat/Colors/BackpackDark");
    assert("Toggles/Tops/TankTopOn"@.len() != "Mat/Colors/BackpackDark"@.len());
    reveal_strlit("Mat/Colors/BeanieDark");
    assert("Toggles/Tops/TankTopOn"@.len() != "Mat/Colors/BeanieDark"@.len());
    reveal_strlit("Mat/Colors/GlovesDark");
    assert("Toggles/Tops/TankTopOn"@.len() != "Mat/Colors/GlovesDark"@.len());
    reveal_strlit("Mat/Colors/HeadphonesDark");
    assert("Toggles/Tops/TankTopOn"@.len() != "Mat/Colors/HeadphonesDark"@.len());
    reveal_strlit("Mat/Colors/JacketDark");
    assert("Toggles/Tops/TankTopOn"@.len() != "Mat/Colors/JacketDark"@.len());
    reveal_strlit("Mat/Colors/MaskDark");
    assert("Toggles/Tops/TankTopOn"@.len() != "Mat/Colors/MaskDark"@.len());
    reveal_strlit("Mat/Colors/ShoeDark");
    assert("Toggles/Tops/TankTopOn"@.len() != "Mat/Colors/ShoeDark"@.len());
    reveal_strlit("Mat/Colors/SleevesDark");
    assert("Toggles/Tops/TankTopOn"@[0] != "Mat/Colors/SleevesDark"@[0]);
    reveal_strlit("Mat/Colors/SwimsuitDark");
    assert("Toggles/Tops/TankTopOn"@.len() != "Mat/Colors/SwimsuitDark"@.len());
    reveal_strlit("Mat/Colors/PantsDark");
    assert("Toggles/Tops/TankTopOn"@.len() != "Mat/Colors/PantsDark"@.len());
    reveal_strlit("Mat/Colors/SportsBraDark");
    assert("Toggles/Tops/TankTopOn"@.len() != "Mat/Colors/SportsBraDark"@.len());
    reveal_strlit("Mat/Colors/TankTopDark");
    assert("Toggles/Tops/TankTopOn"@[0] != "Mat/Colors/TankTopDark"@[0]);
    reveal_strlit("Mat/Colors/CropDark");
    assert("Toggles/Tops/TankTopOn"@.len() != "Mat/Colors/CropDark"@.len());
}

proof fn lemma_distinct_from_later_5()
    ensures
        "Toggles/Tops/NSFW"@ != "Toggles/Acc/BeanieOff"@,
        "Toggles/Tops/NSFW"@ != "Toggles/Acc/GlovesOff"@,
        "Toggles/Tops/NSFW"@ != "Toggles/Acc/HeadphonesOff"@,
        "Toggles/Tops/NSFW"@ != "Toggles/Acc/MaskOff"@,
        "Toggles/Tops/NSFW"@ != "Toggles/Acc/ThighSocksOn"@,
        "Toggles/Tops/NSFW"@ != "Toggles/Acc/CalfSocksOn"@,
        "Toggles/Tops/NSFW"@ != "Toggles/Acc/SleevesOff"@,
        "Toggles/Tops/NSFW"@ != "Toggles/Acc/HolotagArmOff"@,
        "Toggles/Tops/NSFW"@ != "Toggles/Acc/HolotagThighOff"@,
        "Toggles/Tops/NSFW"@ != "Toggles/Acc/RunningShoeOff"@,
        "Toggles/Tops/NSFW"@ != "Toggles/Bottoms/PantiesOn"@,
        "Toggles/Tops/NSFW"@ != "Toggles/Bottoms/AssPantsOn"@,
        "Toggles/Tops/NSFW"@ != "Toggles/Bottoms/PantsOn"@,
        "Toggles/Tops/NSFW"@ != "Toggles/Bottoms/NSFW"@,
        "Toggles/Tops/NSFW"@ != "Toggles/Acc/GlassesOff"@,
        "Toggles/Tops/NSFW"@ != "Toggles/Acc/BackpackOff"@,
        "Toggles/Tops/NSFW"@ != "Toggles/Acc/DogtagsOff"@,
        "Toggles/Tops/NSFW"@ != "Toggles/Acc/LipRingsOff"@,
        "Toggles/Tops/NSFW"@ != "Toggles/Acc/EarringsOff"@,
        "Toggles/Tops/NSFW"@ != "Hair/ShortOn"@,
        "Toggles/Tops/NSFW"@ != "Hair/PonyOn"@,
        "Toggles/Tops/NSFW"@ != "Hair/LongOn"@,
        "Toggles/Tops/NSFW"@ != "Nails/Normal"@,
        "Toggles/Tops/NSFW"@ != "Nails/Square"@,
        "Toggles/Tops/NSFW"@ != "Nails/Almond"@,
        "Toggles/Tops/NSFW"@ != "Nails/Longer"@,
        "Toggles/Tops/NSFW"@ != "Nails/Stilletto"@,
        "Toggles/Tops/NSFW"@ != "Mat/Hue"@,
        "Toggles/Tops/NSFW"@ != "Mat/Colors/HairHue"@,
        "Toggles/Tops/NSFW"@ != "Mat/Colors/HairColored"@,
        "Toggles/Tops/NSFW"@ != "Mat/Cyberpunk"@,
        "Toggles/Tops/NSFW"@ != "Mat/HairBlack"@,
        "Toggles/Tops/NSFW"@ != "Mat/HairWhite"@,
        "Toggles/Tops/NSFW"@ != "Mat/HairBlonde"@,
        "Toggles/Tops/NSFW"@ != "Mat/Monochromatic"@,
        "Toggles/Tops/NSFW"@ != "Mat/AudioLink"@,
        "Toggles/Tops/NSFW"@ != "Mat/Colors/AssPantsDark"@,
        "Toggles/Tops/NSFW"@ != "Mat/Colors/BackpackDark"@,
        "Toggles/Tops/NSFW"@ != "Mat/Colors/BeanieDark"@,
        "Toggles/Tops/NSFW"@ != "Mat/Colors/GlovesDark"@,
        "Toggles/Tops/NSFW"@ != "Mat/Colors/HeadphonesDark"@,
        "Toggles/Tops/NSFW"@ != "Mat/Colors/JacketDark"@,
        "Toggles/Tops/NSFW"@ != "Mat/Colors/MaskDark"@,
        "Toggles/Tops/NSFW"@ != "Mat/Colors/ShoeDark"@,
        "Toggles/Tops/NSFW"@ != "Mat/Colors/SleevesDark"@,
        "Toggles/Tops/NSFW"@ != "Mat/Colors/SwimsuitDark"@,
        "Toggles/Tops/NSFW"@ != "Mat/Colors/PantsDark"@,
        "Toggles/Tops/NSFW"@ != "Mat/Colors/SportsBraDark"@,
        "Toggles/Tops/NSFW"@ != "Mat/Colors/TankTopDark"@,
        "Toggles/Tops/NSFW"@ != "Mat/Colors/CropDark"@,
{
    reveal_strlit("Toggles/Tops/NSFW");
    reveal_strlit("Toggles/Acc/BeanieOff");
    assert("Toggles/Tops/NSFW"@.len() != "Toggles/Acc/BeanieOff"@.len());
    reveal_strlit("Toggles/Acc/GlovesOff");
    assert("Toggles/Tops/NSFW"@.len() != "Toggles/Acc/GlovesOff"@.len());
    reveal_strlit("Toggles/Acc/HeadphonesOff");
    assert("Toggles/Tops/NSFW"@.len() != "Toggles/Acc/HeadphonesOff"@.len());
    reveal_strlit("Toggles/Acc/MaskOff");
    assert("Toggles/Tops/NSFW"@.len() != "Toggles/Acc/MaskOff"@.len());
    reveal_strlit("Toggles/Acc/ThighSocksOn");
    assert("Toggles/Tops/NSFW"@.len() != "Toggles/Acc/ThighSocksOn"@.len());
    reveal_strlit("Toggles/Acc/CalfSocksOn");
    assert("Toggles/Tops/NSFW"@.len() != "Toggles/Acc/CalfSocksOn"@.len());
    reveal_strlit("Toggles/Acc/SleevesOff");
    assert("Toggles/Tops/NSFW"@.len() != "Toggles/Acc/SleevesOff"@.len());
    reveal_strlit("Toggles/Acc/HolotagArmOff");
    assert("Toggles/Tops/NSFW"@.len() != "Toggles/Acc/HolotagArmOff"@.len());
    reveal_strlit("Toggles/Acc/HolotagThighOff");
    assert("Toggles/Tops/NSFW"@.len() != "Toggles/Acc/HolotagThighOff"@.len());
    reveal_strlit("Toggles/Acc/RunningShoeOff");
    assert("Toggles/Tops/NSFW"@.len() != "Toggles/Acc/RunningShoeOff"@.len());
    reveal_strlit("Toggles/Bottoms/PantiesOn");
    assert("Toggles/Tops/NSFW"@.len() != "Toggles/Bottoms/PantiesOn"@.len());
    reveal_strlit("Toggles/Bottoms/AssPantsOn");
    assert("Toggles/Tops/NSFW"@.len() != "Toggles/Bottoms/AssPantsOn"@.len());
    reveal_strlit("Toggles/Bottoms/PantsOn");
    assert("Toggles/Tops/NSFW"@.len() != "Toggles/Bottoms/PantsOn"@.len());
    reveal_strlit("Toggles/Bottoms/NSFW");
    assert("Toggles/Tops/NSFW"@.len() != "Toggles/Bottoms/NSFW"@.len());
    reveal_strlit("Toggles/Acc/GlassesOff");
    assert("Toggles/Tops/NSFW"@.len() != "Toggles/Acc/GlassesOff"@.len());
    reveal_strlit("Toggles/Acc/BackpackOff");
    assert("Toggles/Tops/NSFW"@.len() != "Toggles/Acc/BackpackOff"@.len());
    reveal_strlit("Toggles/Acc/DogtagsOff");
    assert("Toggles/Tops/NSFW"@.len() != "Toggles/Acc/DogtagsOff"@.len());
    reveal_strlit("Toggles/Acc/LipRingsOff");
    assert("Toggles/Tops/NSFW"@.len() != "Toggles/Acc/LipRingsOff"@.len());
    reveal_strlit("Toggles/Acc/EarringsOff");
    assert("Toggles/Tops/NSFW"@.len() != "Toggles/Acc/EarringsOff"@.len());
    reveal_strlit("Hair/ShortOn");
    assert("Toggles/Tops/NSFW"@.len() != "Hair/ShortOn"@.len());
    reveal_strlit("Hair/PonyOn");
    assert("Toggles/Tops/NSFW"@.len() != "Hair/PonyOn"@.len());
    reveal_strlit("Hair/LongOn");
    assert("Toggles/Tops/NSFW"@.len() != "Hair/LongOn"@.len());
    reveal_strlit("Nails/Normal");
    assert("Toggles/Tops/NSFW"@.len() != "Nails/Normal"@.len());
    reveal_strlit("Nails/Square");
    assert("Toggles/Tops/NSFW"@.len() != "Nails/Square"@.len());
    reveal_strlit("Nails/Almond");
    assert("Toggles/Tops/NSFW"@.len() != "Nails/Almond"@.len());
    reveal_strlit("Nails/Longer");
    assert("Toggles/Tops/NSFW"@.len() != "Nails/Longer"@.len());
    reveal_strlit("Nails/Stilletto");
    assert("Toggles/Tops/NSFW"@.len() != "Nails/Stilletto"@.len());
    reveal_strlit("Mat/Hue");
    assert("Toggles/Tops/NSFW"@.len() != "Mat/Hue"@.len());
    reveal_strlit("Mat/Colors/HairHue");
    assert("Toggles/Tops/NSFW"@.len() != "Mat/Colors/HairHue"@.len());
    reveal_strlit("Mat/Colors/HairColored");
    assert("Toggles/Tops/NSFW"@.len() != "Mat/Colors/HairColored"@.len());
    reveal_strlit("Mat/Cyberpunk");
    assert("Toggles/Tops/NSFW"@.len() != "Mat/Cyberpunk"@.len());
    reveal_strlit("Mat/HairBlack");
    assert("Toggles/Tops/NSFW"@.len() != "Mat/HairBlack"@.len());
    reveal_strlit("Mat/HairWhite");
    assert("Toggles/Tops/NSFW"@.len() != "Mat/HairWhite"@.len());
    reveal_strlit("Mat/HairBlonde");
    assert("Toggles/Tops/NSFW"@.len() != "Mat/HairBlonde"@.len());
    reveal_strlit("Mat/Monochromatic");
    assert("Toggles/Tops/NSFW"@[0] != "Mat/Monochromatic"@[0]);
    reveal_strlit("Mat/AudioLink");
    assert("Toggles/Tops/NSFW"@.len() != "Mat/AudioLink"@.len());
    reveal_strlit("Mat/Colors/AssPantsDark");
    assert("Toggles/Tops/NSFW"@.len() != "Mat/Colors/AssPantsDark"@.len());
    reveal_strlit("Mat/Colors/BackpackDark");
    assert("Toggles/Tops/NSFW"@.len() != "Mat/Colors/BackpackDark"@.len());
    reveal_strlit("Mat/Colors/BeanieDark");
    assert("Toggles/Tops/NSFW"@.len() != "Mat/Colors/BeanieDark"@.len());
    reveal_strlit("Mat/Colors/GlovesDark");
    assert("Toggles/Tops/NSFW"@.len() != "Mat/Colors/GlovesDark"@.len());
    reveal_strlit("Mat/Colors/HeadphonesDark");
    assert("Toggles/Tops/NSFW"@.len() != "Mat/Colors/HeadphonesDark"@.len());
    reveal_strlit("Mat/Colors/JacketDark");
    assert("Toggles/Tops/NSFW"@.len() != "Mat/Colors/JacketDark"@.len());
    reveal_strlit("Mat/Colors/MaskDark");
    assert("Toggles/Tops/NSFW"@.len() != "Mat/Colors/MaskDark"@.len());
    reveal_strlit("Mat/Colors/ShoeDark");
    assert("Toggles/Tops/NSFW"@.len() != "Mat/Colors/ShoeDark"@.len());
    reveal_strlit("Mat/Colors/SleevesDark");
    assert("Toggles/Tops/NSFW"@.len() != "Mat/Colors/SleevesDark"@.len());
    reveal_strlit("Mat/Colors/SwimsuitDark");
    assert("Toggles/Tops/NSFW"@.len() != "Mat/Colors/SwimsuitDark"@.len());
    reveal_strlit("Mat/Colors/PantsDark");
    assert("Toggles/Tops/NSFW"@.len() != "Mat/Colors/PantsDark"@.len());
    reveal_strlit("Mat/Colors/SportsBraDark");
    assert("Toggles/Tops/NSFW"@.len() != "Mat/Colors/SportsBraDark"@.len());
    reveal_strlit("Mat/Colors/TankTopDark");
    assert("Toggles/Tops/NSFW"@.len() != "Mat/Colors/TankTopDark"@.len());
    reveal_strlit("Mat/Colors/CropDark");
    assert("Toggles/Tops/NSFW"@.len() != "Mat/Colors/CropDark"@.len());
}

proof fn lemma_distinct_from_later_6()
    ensures
        "Toggles/Acc/BeanieOff"@ != "Toggles/Acc/GlovesOff"@,
        "Toggles/Acc/BeanieOff"@ != "Toggles/Acc/HeadphonesOff"@,
        "Toggles/Acc/BeanieOff"@ != "Toggles/Acc/MaskOff"@,
        "Toggles/Acc/BeanieOff"@ != "Toggles/Acc/ThighSocksOn"@,
        "Toggles/Acc/BeanieOff"@ != "Toggles/Acc/CalfSocksOn"@,
        "Toggles/Acc/BeanieOff"@ != "Toggles/Acc/SleevesOff"@,
        "Toggles/Acc/BeanieOff"@ != "Toggles/Acc/HolotagArmOff"@,
        "Toggles/Acc/BeanieOff"@ != "Toggles/Acc/HolotagThighOff"@,
        "Toggles/Acc/BeanieOff"@ != "Toggles/Acc/RunningShoeOff"@,
        "Toggles/Acc/BeanieOff"@ != "Toggles/Bottoms/PantiesOn"@,
        "Toggles/Acc/BeanieOff"@ != "Toggles/Bottoms/AssPantsOn"@,
        "Toggles/Acc/BeanieOff"@ != "Toggles/Bottoms/PantsOn"@,
        "Toggles/Acc/BeanieOff"@ != "Toggles/Bottoms/NSFW"@,
        "Toggles/Acc/BeanieOff"@ != "Toggles/Acc/GlassesOff"@,
        "Toggles/Acc/BeanieOff"@ != "Toggles/Acc/BackpackOff"@,
        "Toggles/Acc/BeanieOff"@ != "Toggles/Acc/DogtagsOff"@,
        "Toggles/Acc/BeanieOff"@ != "Toggles/Acc/LipRingsOff"@,
        "Toggles/Acc/BeanieOff"@ != "Toggles/Acc/EarringsOff"@,
        "Toggles/Acc/BeanieOff"@ != "Hair/ShortOn"@,
        "Toggles/Acc/BeanieOff"@ != "Hair/PonyOn"@,
        "Toggles/Acc/BeanieOff"@ != "Hair/LongOn"@,
        "Toggles/Acc/BeanieOff"@ != "Nails/Normal"@,
        "Toggles/Acc/BeanieOff"@ != "Nails/Square"@,
        "Toggles/Acc/BeanieOff"@ != "Nails/Almond"@,
        "Toggles/Acc/BeanieOff"@ != "Nails/Longer"@,
        "Toggles/Acc/BeanieOff"@ != "Nails/Stilletto"@,
        "Toggles/Acc/BeanieOff"@ != "Mat/Hue"@,
        "Toggles/Acc/BeanieOff"@ != "Mat/Colors/HairHue"@,
        "Toggles/Acc/BeanieOff"@ != "Mat/Colors/HairColored"@,
        "Toggles/Acc/BeanieOff"@ != "Mat/Cyberpunk"@,
        "Toggles/Acc/BeanieOff"@ != "Mat/HairBlack"@,
        "Toggles/Acc/BeanieOff"@ != "Mat/HairWhite"@,
        "Toggles/Acc/BeanieOff"@ != "Mat/HairBlonde"@,
        "Toggles/Acc/BeanieOff"@ != "Mat/Monochromatic"@,
        "Toggles/Acc/BeanieOff"@ != "Mat/AudioLink"@,
        "Toggles/Acc/BeanieOff"@ != "Mat/Colors/AssPantsDark"@,
        "Toggles/Acc/BeanieOff"@ != "Mat/Colors/BackpackDark"@,
        "Toggles/Acc/BeanieOff"@ != "Mat/Colors/BeanieDark"@,
        "Toggles/Acc/BeanieOff"@ != "Mat/Colors/GlovesDark"@,
        "Toggles/Acc/BeanieOff"@ != "Mat/Colors/HeadphonesDark"@,
        "Toggles/Acc/BeanieOff"@ != "Mat/Colors/JacketDark"@,
        "Toggles/Acc/BeanieOff"@ != "Mat/Colors/MaskDark"@,
        "Toggles/Acc/BeanieOff"@ != "Mat/Colors/ShoeDark"@,
        "Toggles/Acc/BeanieOff"@ != "Mat/Colors/SleevesDark"@,
        "Toggles/Acc/BeanieOff"@ != "Mat/Colors/SwimsuitDark"@,
        "Toggles/Acc/BeanieOff"@ != "Mat/Colors/PantsDark"@,
        "Toggles/Acc/BeanieOff"@ != "Mat/Colors/SportsBraDark"@,
        "Toggles/Acc/BeanieOff"@ != "Mat/Colors/TankTopDark"@,
        "Toggles/Acc/BeanieOff"@ != "Mat/Colors/CropDark"@,
{
    reveal_strlit("Toggles/Acc/BeanieOff");
    reveal_strlit("Toggles/Acc/GlovesOff");
    assert("Toggles/Acc/BeanieOff"@[12] != "Toggles/Acc/GlovesOff"@[12]);
    reveal_strlit("Toggles/Acc/HeadphonesOff");
    assert("Toggles/Acc/BeanieOff"@.len() != "Toggles/Acc/HeadphonesOff"@.len());
    reveal_strlit("Toggles/Acc/MaskOff");
    assert("Toggles/Acc/BeanieOff"@.len() != "Toggles/Acc/MaskOff"@.len());
    reveal_strlit("Toggles/Acc/ThighSocksOn");
    assert("Toggles/Acc/BeanieOff"@.len() != "Toggles/Acc/ThighSocksOn"@.len());
    reveal_strlit("Toggles/Acc/CalfSocksOn");
    assert("Toggles/Acc/BeanieOff"@.len() != "Toggles/Acc/CalfSocksOn"@.len());
    reveal_strlit("Toggles/Acc/SleevesOff");
    assert("Toggles/Acc/BeanieOff"@.len() != "Toggles/Acc/SleevesOff"@.len());
    reveal_strlit("Toggles/Acc/HolotagArmOff");
    assert("Toggles/Acc/BeanieOff"@.len() != "Toggles/Acc/HolotagArmOff"@.len());
    reveal_strlit("Toggles/Acc/HolotagThighOff");
    assert("Toggles/Acc/BeanieOff"@.len() != "Toggles/Acc/HolotagThighOff"@.len());
    reveal_strlit("Toggles/Acc/RunningShoeOff");
    assert("Toggles/Acc/BeanieOff"@.len() != "Toggles/Acc/RunningShoeOff"@.len());
    reveal_strlit("Toggles/Bottoms/PantiesOn");
    assert("Toggles/Acc/BeanieOff"@.len() != "Toggles/Bottoms/PantiesOn"@.len());
    reveal_strlit("Toggles/Bottoms/AssPantsOn");
    assert("Toggles/Acc/BeanieOff"@.len() != "Toggles/Bottoms/AssPantsOn"@.len());
    reveal_strlit("Toggles/Bottoms/PantsOn");
    assert("Toggles/Acc/BeanieOff"@.len() != "Toggles/Bottoms/PantsOn"@.len());
    reveal_strlit("Toggles/Bottoms/NSFW");
    assert("Toggles/Acc/BeanieOff"@.len() != "Toggles/Bottoms/NSFW"@.len());
    reveal_strlit("Toggles/Acc/GlassesOff");
    assert("Toggles/Acc/BeanieOff"@.len() != "Toggles/Acc/GlassesOff"@.len());
    reveal_strlit("Toggles/Acc/BackpackOff");
    assert("Toggles/Acc/BeanieOff"@.len() != "Toggles/Acc/BackpackOff"@.len());
    reveal_strlit("Toggles/Acc/DogtagsOff");
    assert("Toggles/Acc/BeanieOff"@.len() != "Toggles/Acc/DogtagsOff"@.len());
    reveal_strlit("Toggles/Acc/LipRingsOff");
    assert("Toggles/Acc/BeanieOff"@.len() != "Toggles/Acc/LipRingsOff"@.len());
    reveal_strlit("Toggles/Acc/EarringsOff");
    assert("Toggles/Acc/BeanieOff"@.len() != "Toggles/Acc/EarringsOff"@.len());
    reveal_strlit("Hair/ShortOn");
    assert("Toggles/Acc/BeanieOff"@.len() != "Hair/ShortOn"@.len());
    reveal_strlit("Hair/PonyOn");
    assert("Toggles/Acc/BeanieOff"@.len() != "Hair/PonyOn"@.len());
    reveal_strlit("Hair/LongOn");
    assert("Toggles/Acc/BeanieOff"@.len() != "Hair/LongOn"@.len());
    reveal_strlit("Nails/Normal");
    assert("Toggles/Acc/BeanieOff"@.len() != "Nails/Normal"@.len());
    reveal_strlit("Nails/Square");
    assert("Toggles/Acc/BeanieOff"@.len() != "Nails/Square"@.len());
    reveal_strlit("Nails/Almond");
    assert("Toggles/Acc/BeanieOff"@.len() != "Nails/Almond"@.len());
    reveal_strlit("Nails/Longer");
    assert("Toggles/Acc/BeanieOff"@.len() != "Nails/Longer"@.len());
    reveal_strlit("Nails/Stilletto");
    assert("Toggles/Acc/BeanieOff"@.len() != "Nails/Stilletto"@.len());
    reveal_strlit("Mat/Hue");
    assert("Toggles/Acc/BeanieOff"@.len() != "Mat/Hue"@.len());
    reveal_strlit("Mat/Colors/HairHue");
    assert("Toggles/Acc/BeanieOff"@.len() != "Mat/Colors/HairHue"@.len());
    reveal_strlit("Mat/Colors/HairColored");
    assert("Toggles/Acc/BeanieOff"@.len() != "Mat/Colors/HairColored"@.len());
    reveal_strlit("Mat/Cyberpunk");
    assert("Toggles/Acc/BeanieOff"@.len() != "Mat/Cyberpunk"@.len());
    reveal_strlit("Mat/HairBlack");
    assert("Toggles/Acc/BeanieOff"@.len() != "Mat/HairBlack"@.len());
    reveal_strlit("Mat/HairWhite");
    assert("Toggles/Acc/BeanieOff"@.len() != "Mat/HairWhite"@.len());
    reveal_strlit("Mat/HairBlonde");
    assert("Toggles/Acc/BeanieOff"@.len() != "Mat/HairBlonde"@.len());
    reveal_strlit("Mat/Monochromatic");
    assert("Toggles/Acc/BeanieOff"@.len() != "Mat/Monochromatic"@.len());
    reveal_strlit("Mat/AudioLink");
    assert("Toggles/Acc/BeanieOff"@.len() != "Mat/AudioLink"@.len());
    reveal_strlit("Mat/Colors/AssPantsDark");
    assert("Toggles/Acc/BeanieOff"@.len() != "Mat/Colors/AssPantsDark"@.len());
    reveal_strlit("Mat/Colors/BackpackDark");
    assert("Toggles/Acc/BeanieOff"@.len() != "Mat/Colors/BackpackDark"@.len());
    reveal_strlit("Mat/Colors/BeanieDark");
    assert("Toggles/Acc/BeanieOff"@[0] != "Mat/Colors/BeanieDark"@[0]);
    reveal_strlit("Mat/Colors/GlovesDark");
    assert("Toggles/Acc/BeanieOff"@[0] != "Mat/Colors/GlovesDark"@[0]);
    reveal_strlit("Mat/Colors/HeadphonesDark");
    assert("Toggles/Acc/BeanieOff"@.len() != "Mat/Colors/HeadphonesDark"@.len());
    reveal_strlit("Mat/Colors/JacketDark");
    assert("Toggles/Acc/BeanieOff"@[0] != "Mat/Colors/JacketDark"@[0]);
    reveal_strlit("Mat/Colors/MaskDark");
    assert("Toggles/Acc/BeanieOff"@.len() != "Mat/Colors/MaskDark"@.len());
    reveal_strlit("Mat/Colors/ShoeDark");
    assert("Toggles/Acc/BeanieOff"@.len() != "Mat/Colors/ShoeDark"@.len());
    reveal_strlit("Mat/Colors/SleevesDark");
    assert("Toggles/Acc/BeanieOff"@.len() != "Mat/Colors/SleevesDark"@.len());
    reveal_strlit("Mat/Colors/SwimsuitDark");
    assert("Toggles/Acc/BeanieOff"@.len() != "Mat/Colors/SwimsuitDark"@.len());
    reveal_strlit("Mat/Colors/PantsDark");
    assert("Toggles/Acc/BeanieOff"@.len() != "Mat/Colors/PantsDark"@.len());
    reveal_strlit("Mat/Colors/SportsBraDark");
    assert("Toggles/Acc/BeanieOff"@.len() != "Mat/Colors/SportsBraDark"@.len());
    reveal_strlit("Mat/Colors/TankTopDark");
    assert("Toggles/Acc/BeanieOff"@.len() != "Mat/Colors/TankTopDark"@.len());
    reveal_strlit("Mat/Colors/CropDark");
    assert("Toggles/Acc/BeanieOff"@.len() != "Mat/Colors/CropDark"@.len());
}

proof fn lemma_distinct_from_later_7()
    ensures
        "Toggles/Acc/GlovesOff"@ != "Toggles/Acc/HeadphonesOff"@,
        "Toggles/Acc/GlovesOff"@ != "Toggles/Acc/MaskOff"@,
        "Toggles/Acc/GlovesOff"@ != "Toggles/Acc/ThighSocksOn"@,
        "Toggles/Acc/GlovesOff"@ != "Toggles/Acc/CalfSocksOn"@,
        "Toggles/Acc/GlovesOff"@ != "Toggles/Acc/SleevesOff"@,
        "Toggles/Acc/GlovesOff"@ != "Toggles/Acc/HolotagArmOff"@,
        "Toggles/Acc/GlovesOff"@ != "Toggles/Acc/HolotagThighOff"@,
        "Toggles/Acc/GlovesOff"@ != "Toggles/Acc/RunningShoeOff"@,
        "Toggles/Acc/GlovesOff"@ != "Toggles/Bottoms/PantiesOn"@,
        "Toggles/Acc/GlovesOff"@ != "Toggles/Bottoms/AssPantsOn"@,
        "Toggles/Acc/GlovesOff"@ != "Toggles/Bottoms/PantsOn"@,
        "Toggles/Acc/GlovesOff"@ != "Toggles/Bottoms/NSFW"@,
        "Toggles/Acc/GlovesOff"@ != "Toggles/Acc/GlassesOff"@,
        "Toggles/Acc/GlovesOff"@ != "Toggles/Acc/BackpackOff"@,
        "Toggles/Acc/GlovesOff"@ != "Toggles/Acc/DogtagsOff"@,
        "Toggles/Acc/GlovesOff"@ != "Toggles/Acc/LipRingsOff"@,
        "Toggles/Acc/GlovesOff"@ != "Toggles/Acc/EarringsOff"@,
        "Toggles/Acc/GlovesOff"@ != "Hair/ShortOn"@,
        "Toggles/Acc/GlovesOff"@ != "Hair/PonyOn"@,
        "Toggles/Acc/GlovesOff"@ != "Hair/LongOn"@,
        "Toggles/Acc/GlovesOff"@ != "Nails/Normal"@,
        "Toggles/Acc/GlovesOff"@ != "Nails/Square"@,
        "Toggles/Acc/GlovesOff"@ != "Nails/Almond"@,
        "Toggles/Acc/GlovesOff"@ != "Nails/Longer"@,
        "Toggles/Acc/GlovesOff"@ != "Nails/Stilletto"@,
        "Toggles/Acc/GlovesOff"@ != "Mat/Hue"@,
        "Toggles/Acc/GlovesOff"@ != "Mat/Colors/HairHue"@,
        "Toggles/Acc/GlovesOff"@ != "Mat/Colors/HairColored"@,
        "Toggles/Acc/GlovesOff"@ != "Mat/Cyberpunk"@,
        "Toggles/Acc/GlovesOff"@ != "Mat/HairBlack"@,
        "Toggles/Acc/GlovesOff"@ != "Mat/HairWhite"@,
        "Toggles/Acc/GlovesOff"@ != "Mat/HairBlonde"@,
        "Toggles/Acc/GlovesOff"@ != "Mat/Monochromatic"@,
        "Toggles/Acc/GlovesOff"@ != "Mat/AudioLink"@,
        "Toggles/Acc/GlovesOff"@ != "Mat/Colors/AssPantsDark"@,
        "Toggles/Acc/GlovesOff"@ != "Mat/Colors/BackpackDark"@,
        "Toggles/Acc/GlovesOff"@ != "Mat/Colors/BeanieDark"@,
        "Toggles/Acc/GlovesOff"@ != "Mat/Colors/GlovesDark"@,
        "Toggles/Acc/GlovesOff"@ != "Mat/Colors/HeadphonesDark"@,
        "Toggles/Acc/GlovesOff"@ != "Mat/Colors/JacketDark"@,
        "Toggles/Acc/GlovesOff"@ != "Mat/Colors/MaskDark"@,
        "Toggles/Acc/GlovesOff"@ != "Mat/Colors/ShoeDark"@,
        "Toggles/Acc/GlovesOff"@ != "Mat/Colors/SleevesDark"@,
        "Toggles/Acc/GlovesOff"@ != "Mat/Colors/SwimsuitDark"@,
        "Toggles/Acc/GlovesOff"@ != "Mat/Colors/PantsDark"@,
        "Toggles/Acc/GlovesOff"@ != "Mat/Colors/SportsBraDark"@,
        "Toggles/Acc/GlovesOff"@ != "Mat/Colors/TankTopDark"@,
        "Toggles/Acc/GlovesOff"@ != "Mat/Colors/CropDark"@,
{
    reveal_strlit("Toggles/Acc/GlovesOff");
    reveal_strlit("Toggles/Acc/HeadphonesOff");
    assert("Toggles/Acc/GlovesOff"@.len() != "Toggles/Acc/HeadphonesOff"@.len());
    reveal_strlit("Toggles/Acc/MaskOff");
    assert("Toggles/Acc/GlovesOff"@.len() != "Toggles/Acc/MaskOff"@.len());
    reveal_strlit("Toggles/Acc/ThighSocksOn");
    assert("Toggles/Acc/GlovesOff"@.len() != "Toggles/Acc/ThighSocksOn"@.len());
    reveal_strlit("Toggles/Acc/CalfSocksOn");
    assert("Toggles/Acc/GlovesOff"@.len() != "Toggles/Acc/CalfSocksOn"@.len());
    reveal_strlit("Toggles/Acc/SleevesOff");
    assert("Toggles/Acc/GlovesOff"@.len() != "Toggles/Acc/SleevesOff"@.len());
    reveal_strlit("Toggles/Acc/HolotagArmOff");
    assert("Toggles/Acc/GlovesOff"@.len() != "Toggles/Acc/HolotagArmOff"@.len());
    reveal_strlit("Toggles/Acc/HolotagThighOff");
    assert("Toggles/Acc/GlovesOff"@.len() != "Toggles/Acc/HolotagThighOff"@.len());
    reveal_strlit("Toggles/Acc/RunningShoeOff");
    assert("Toggles/Acc/GlovesOff"@.len() != "Toggles/Acc/RunningShoeOff"@.len());
    reveal_strlit("Toggles/Bottoms/PantiesOn");
    assert("Toggles/Acc/GlovesOff"@.len() != "Toggles/Bottoms/PantiesOn"@.len());
    reveal_strlit("Toggles/Bottoms/AssPantsOn");
    assert("Toggles/Acc/GlovesOff"@.len() != "Toggles/Bottoms/AssPantsOn"@.len());
    reveal_strlit("Toggles/Bottoms/PantsOn");
    assert("Toggles/Acc/GlovesOff"@.len() != "Toggles/Bottoms/PantsOn"@.len());
    reveal_strlit("Toggles/Bottoms/NSFW");
    assert("Toggles/Acc/GlovesOff"@.len() != "Toggles/Bottoms/NSFW"@.len());
    reveal_strlit("Toggles/Acc/GlassesOff");
    assert("Toggles/Acc/GlovesOff"@.len() != "Toggles/Acc/GlassesOff"@.len());
    reveal_strlit("Toggles/Acc/BackpackOff");
    assert("Toggles/Acc/GlovesOff"@.len() != "Toggles/Acc/BackpackOff"@.len());
    reveal_strlit("Toggles/Acc/DogtagsOff");
    assert("Toggles/Acc/GlovesOff"@.len() != "Toggles/Acc/DogtagsOff"@.len());
    reveal_strlit("Toggles/Acc/LipRingsOff");
    assert("Toggles/Acc/GlovesOff"@.len() != "Toggles/Acc/LipRingsOff"@.len());
    reveal_strlit("Toggles/Acc/EarringsOff");
    assert("Toggles/Acc/GlovesOff"@.len() != "Toggles/Acc/EarringsOff"@.len());
    reveal_strlit("Hair/ShortOn");
    assert("Toggles/Acc/GlovesOff"@.len() != "Hair/ShortOn"@.len());
    reveal_strlit("Hair/PonyOn");
    assert("Toggles/Acc/GlovesOff"@.len() != "Hair/PonyOn"@.len());
    reveal_strlit("Hair/LongOn");
    assert("Toggles/Acc/GlovesOff"@.len() != "Hair/LongOn"@.len());
    reveal_strlit("Nails/Normal");
    assert("Toggles/Acc/GlovesOff"@.len() != "Nails/Normal"@.len());
    reveal_strlit("Nails/Square");
    assert("Toggles/Acc/GlovesOff"@.len() != "Nails/Square"@.len());
    reveal_strlit("Nails/Almond");
    assert("Toggles/Acc/GlovesOff"@.len() != "Nails/Almond"@.len());
    reveal_strlit("Nails/Longer");
    assert("Toggles/Acc/GlovesOff"@.len() != "Nails/Longer"@.len());
    reveal_strlit("Nails/Stilletto");
    assert("Toggles/Acc/GlovesOff"@.len() != "Nails/Stilletto"@.len());
    reveal_strlit("Mat/Hue");
    assert("Toggles/Acc/GlovesOff"@.len() != "Mat/Hue"@.len());
    reveal_strlit("Mat/Colors/HairHue");
    assert("Toggles/Acc/GlovesOff"@.len() != "Mat/Colors/HairHue"@.len());
    reveal_strlit("Mat/Colors/HairColored");
    assert("Toggles/Acc/GlovesOff"@.len() != "Mat/Colors/HairColored"@.len());
    reveal_strlit("Mat/Cyberpunk");
    assert("Toggles/Acc/GlovesOff"@.len() != "Mat/Cyberpunk"@.len());
    reveal_strlit("Mat/HairBlack");
    assert("Toggles/Acc/GlovesOff"@.len() != "Mat/HairBlack"@.len());
    reveal_strlit("Mat/HairWhite");
    assert("Toggles/Acc/GlovesOff"@.len() != "Mat/HairWhite"@.len());
    reveal_strlit("Mat/HairBlonde");
    assert("Toggles/Acc/GlovesOff"@.len() != "Mat/HairBlonde"@.len());
    reveal_strlit("Mat/Monochromatic");
    assert("Toggles/Acc/GlovesOff"@.len() != "Mat/Monochromatic"@.len());
    reveal_strlit("Mat/AudioLink");
    assert("Toggles/Acc/GlovesOff"@.len() != "Mat/AudioLink"@.len());
    reveal_strlit("Mat/Colors/AssPantsDark");
    assert("Toggles/Acc/GlovesOff"@.len() != "Mat/Colors/AssPantsDark"@.len());
    reveal_strlit("Mat/Colors/BackpackDark");
    assert("Toggles/Acc/GlovesOff"@.len() != "Mat/Colors/BackpackDark"@.len());
    reveal_strlit("Mat/Colors/BeanieDark");
    assert("Toggles/Acc/GlovesOff"@[0] != "Mat/Colors/BeanieDark"@[0]);
    reveal_strlit("Mat/Colors/GlovesDark");
    assert("Toggles/Acc/GlovesOff"@[0] != "Mat/Colors/GlovesDark"@[0]);
    reveal_strlit("Mat/Colors/HeadphonesDark");
    assert("Toggles/Acc/GlovesOff"@.len() != "Mat/Colors/HeadphonesDark"@.len());
    reveal_strlit("Mat/Colors/JacketDark");
    assert("Toggles/Acc/GlovesOff"@[0] != "Mat/Colors/JacketDark"@[0]);
    reveal_strlit("Mat/Colors/MaskDark");
    assert("Toggles/Acc/GlovesOff"@.len() != "Mat/Colors/MaskDark"@.len());
    reveal_strlit("Mat/Colors/ShoeDark");
    assert("Toggles/Acc/GlovesOff"@.len() != "Mat/Colors/ShoeDark"@.len());
    reveal_strlit("Mat/Colors/SleevesDark");
    assert("Toggles/Acc/GlovesOff"@.len() != "Mat/Colors/SleevesDark"@.len());
    reveal_strlit("Mat/Colors/SwimsuitDark");
    assert("Toggles/Acc/GlovesOff"@.len() != "Mat/Colors/SwimsuitDark"@.len());
    reveal_strlit("Mat/Colors/PantsDark");
    assert("Toggles/Acc/GlovesOff"@.len() != "Mat/Colors/PantsDark"@.len());
    reveal_strlit("Mat/Colors/SportsBraDark");
    assert("Toggles/Acc/GlovesOff"@.len() != "Mat/Colors/SportsBraDark"@.len());
    reveal_strlit("Mat/Colors/TankTopDark");
    assert("Toggles/Acc/GlovesOff"@.len() != "Mat/Colors/TankTopDark"@.len());
    reveal_strlit("Mat/Colors/CropDark");
    assert("Toggles/Acc/GlovesOff"@.len() != "Mat/Colors/CropDark"@.len());
}

proof fn lemma_distinct_from_later_8()
    ensures
        "Toggles/Acc/HeadphonesOff"@ != "Toggles/Acc/MaskOff"@,
        "Toggles/Acc/HeadphonesOff"@ != "Toggles/Acc/ThighSocksOn"@,
        "Toggles/Acc/HeadphonesOff"@ != "Toggles/Acc/CalfSocksOn"@,
        "Toggles/Acc/HeadphonesOff"@ != "Toggles/Acc/SleevesOff"@,
        "Toggles/Acc/HeadphonesOff"@ != "Toggles/Acc/HolotagArmOff"@,
        "Toggles/Acc/HeadphonesOff"@ != "Toggles/Acc/HolotagThighOff"@,
        "Toggles/Acc/HeadphonesOff"@ != "Toggles/Acc/RunningShoeOff"@,
        "Toggles/Acc/HeadphonesOff"@ != "Toggles/Bottoms/PantiesOn"@,
        "Toggles/Acc/HeadphonesOff"@ != "Toggles/Bottoms/AssPantsOn"@,
        "Toggles/Acc/HeadphonesOff"@ != "Toggles/Bottoms/PantsOn"@,
        "Toggles/Acc/HeadphonesOff"@ != "Toggles/Bottoms/NSFW"@,
        "Toggles/Acc/HeadphonesOff"@ != "Toggles/Acc/GlassesOff"@,
        "Toggles/Acc/HeadphonesOff"@ != "Toggles/Acc/BackpackOff"@,
        "Toggles/Acc/HeadphonesOff"@ != "Toggles/Acc/DogtagsOff"@,
        "Toggles/Acc/HeadphonesOff"@ != "Toggles/Acc/LipRingsOff"@,
        "Toggles/Acc/HeadphonesOff"@ != "Toggles/Acc/EarringsOff"@,
        "Toggles/Acc/HeadphonesOff"@ != "Hair/ShortOn"@,
        "Toggles/Acc/HeadphonesOff"@ != "Hair/PonyOn"@,
        "Toggles/Acc/HeadphonesOff"@ != "Hair/LongOn"@,
        "Toggles/Acc/HeadphonesOff"@ != "Nails/Normal"@,
        "Toggles/Acc/HeadphonesOff"@ != "Nails/Square"@,
        "Toggles/Acc/HeadphonesOff"@ != "Nails/Almond"@,
        "Toggles/Acc/HeadphonesOff"@ != "Nails/Longer"@,
        "Toggles/Acc/HeadphonesOff"@ != "Nails/Stilletto"@,
        "Toggles/Acc/HeadphonesOff"@ != "Mat/Hue"@,
        "Toggles/Acc/HeadphonesOff"@ != "Mat/Colors/HairHue"@,
        "Toggles/Acc/HeadphonesOff"@ != "Mat/Colors/HairColored"@,
        "Toggles/Acc/HeadphonesOff"@ != "Mat/Cyberpunk"@,
        "Toggles/Acc/HeadphonesOff"@ != "Mat/HairBlack"@,
        "Toggles/Acc/HeadphonesOff"@ != "Mat/HairWhite"@,
        "Toggles/Acc/HeadphonesOff"@ != "Mat/HairBlonde"@,
        "Toggles/Acc/HeadphonesOff"@ != "Mat/Monochromatic"@,
        "Toggles/Acc/HeadphonesOff"@ != "Mat/AudioLink"@,
        "Toggles/Acc/HeadphonesOff"@ != "Mat/Colors/AssPantsDark"@,
        "Toggles/Acc/HeadphonesOff"@ != "Mat/Colors/BackpackDark"@,
        "Toggles/Acc/HeadphonesOff"@ != "Mat/Colors/BeanieDark"@,
        "Toggles/Acc/HeadphonesOff"@ != "Mat/Colors/GlovesDark"@,
        "Toggles/Acc/HeadphonesOff"@ != "Mat/Colors/HeadphonesDark"@,
        "Toggles/Acc/HeadphonesOff"@ != "Mat/Colors/JacketDark"@,
        "Toggles/Acc/HeadphonesOff"@ != "Mat/Colors/MaskDark"@,
        "Toggles/Acc/HeadphonesOff"@ != "Mat/Colors/ShoeDark"@,
        "Toggles/Acc/HeadphonesOff"@ != "Mat/Colors/SleevesDark"@,
        "Toggles/Acc/HeadphonesOff"@ != "Mat/Colors/SwimsuitDark"@,
        "Toggles/Acc/HeadphonesOff"@ != "Mat/Colors/PantsDark"@,
        "Toggles/Acc/HeadphonesOff"@ != "Mat/Colors/SportsBraDark"@,
        "Toggles/Acc/HeadphonesOff"@ != "Mat/Colors/TankTopDark"@,
        "Toggles/Acc/HeadphonesOff"@ != "Mat/Colors/CropDark"@,
{
    reveal_strlit("Toggles/Acc/HeadphonesOff");
    reveal_strlit("Toggles/Acc/MaskOff");
    assert("Toggles/Acc/HeadphonesOff"@.len() != "Toggles/Acc/MaskOff"@.len());
    reveal_strlit("Toggles/Acc/ThighSocksOn");
    assert("Toggles/Acc/HeadphonesOff"@.len() != "Toggles/Acc/ThighSocksOn"@.len());
    reveal_strlit("Toggles/Acc/CalfSocksOn");
    assert("Toggles/Acc/HeadphonesOff"@.len() != "Toggles/Acc/CalfSocksOn"@.len());
    reveal_strlit("Toggles/Acc/SleevesOff");
    assert("Toggles/Acc/HeadphonesOff"@.len() != "Toggles/Acc/SleevesOff"@.len());
    reveal_strlit("Toggles/Acc/HolotagArmOff");
    assert("Toggles/Acc/HeadphonesOff"@[13] != "Toggles/Acc/HolotagArmOff"@[13]);
    reveal_strlit("Toggles/Acc/HolotagThighOff");
    assert("Toggles/Acc/HeadphonesOff"@.len() != "Toggles/Acc/HolotagThighOff"@.len());
    reveal_strlit("Toggles/Acc/RunningShoeOff");
    assert("Toggles/Acc/HeadphonesOff"@.len() != "Toggles/Acc/RunningShoeOff"@.len());
    reveal_strlit("Toggles/Bottoms/PantiesOn");
    assert("Toggles/Acc/HeadphonesOff"@[8] != "Toggles/Bottoms/PantiesOn"@[8]);
    reveal_strlit("Toggles/Bottoms/AssPantsOn");
    assert("Toggles/Acc/HeadphonesOff"@.len() != "Toggles/Bottoms/AssPantsOn"@.len());
    reveal_strlit("Toggles/Bottoms/PantsOn");
    assert("Toggles/Acc/HeadphonesOff"@.len() != "Toggles/Bottoms/PantsOn"@.len());
    reveal_strlit("Toggles/Bottoms/NSFW");
    assert("Toggles/Acc/HeadphonesOff"@.len() != "Toggles/Bottoms/NSFW"@.len());
    reveal_strlit("Toggles/Acc/GlassesOff");
    assert("Toggles/Acc/HeadphonesOff"@.len() != "Toggles/Acc/GlassesOff"@.len());
    reveal_strlit("Toggles/Acc/BackpackOff");
    assert("Toggles/Acc/HeadphonesOff"@.len() != "Toggles/Acc/BackpackOff"@.len());
    reveal_strlit("Toggles/Acc/DogtagsOff");
    assert("Toggles/Acc/HeadphonesOff"@.len() != "Toggles/Acc/DogtagsOff"@.len());
    reveal_strlit("Toggles/Acc/LipRingsOff");
    assert("Toggles/Acc/HeadphonesOff"@.len() != "Toggles/Acc/LipRingsOff"@.len());
    reveal_strlit("Toggles/Acc/EarringsOff");
    assert("Toggles/Acc/HeadphonesOff"@.len() != "Toggles/Acc/EarringsOff"@.len());
    reveal_strlit("Hair/ShortOn");
    assert("Toggles/Acc/HeadphonesOff"@.len() != "Hair/ShortOn"@.len());
    reveal_strlit("Hair/PonyOn");
    assert("Toggles/Acc/HeadphonesOff"@.len() != "Hair/PonyOn"@.len());
    reveal_strlit("Hair/LongOn");
    assert("Toggles/Acc/HeadphonesOff"@.len() != "Hair/LongOn"@.len());
    reveal_strlit("Nails/Normal");
    assert("Toggles/Acc/HeadphonesOff"@.len() != "Nails/Normal"@.len());
    reveal_strlit("Nails/Square");
    assert("Toggles/Acc/HeadphonesOff"@.len() != "Nails/Square"@.len());
    reveal_strlit("Nails/Almond");
    assert("Toggles/Acc/HeadphonesOff"@.len() != "Nails/Almond"@.len());
    reveal_strlit("Nails/Longer");
    assert("Toggles/Acc/HeadphonesOff"@.len() != "Nails/Longer"@.len());
    reveal_strlit("Nails/Stilletto");
    assert("Toggles/Acc/HeadphonesOff"@.len() != "Nails/Stilletto"@.len());
    reveal_strlit("Mat/Hue");
    assert("Toggles/Acc/HeadphonesOff"@.len() != "Mat/Hue"@.len());
    reveal_strlit("Mat/Colors/HairHue");
    assert("Toggles/Acc/HeadphonesOff"@.len() != "Mat/Colors/HairHue"@.len());
    reveal_strlit("Mat/Colors/HairColored");
    assert("Toggles/Acc/HeadphonesOff"@.len() != "Mat/Colors/HairColored"@.len());
    reveal_strlit("Mat/Cyberpunk");
    assert("Toggles/Acc/HeadphonesOff"@.len() != "Mat/Cyberpunk"@.len());
    reveal_strlit("Mat/HairBlack");
    assert("Toggles/Acc/HeadphonesOff"@.len() != "Mat/HairBlack"@.len());
    reveal_strlit("Mat/HairWhite");
    assert("Toggles/Acc/HeadphonesOff"@.len() != "Mat/HairWhite"@.len());
    reveal_strlit("Mat/HairBlonde");
    assert("Toggles/Acc/HeadphonesOff"@.len() != "Mat/HairBlonde"@.len());
    reveal_strlit("Mat/Monochromatic");
    assert("Toggles/Acc/HeadphonesOff"@.len() != "Mat/Monochromatic"@.len());
    reveal_strlit("Mat/AudioLink");
    assert("Toggles/Acc/HeadphonesOff"@.len() != "Mat/AudioLink"@.len());
    reveal_strlit("Mat/Colors/AssPantsDark");
    assert("Toggles/Acc/HeadphonesOff"@.len() != "Mat/Colors/AssPantsDark"@.len());
    reveal_strlit("Mat/Colors/BackpackDark");
    assert("Toggles/Acc/HeadphonesOff"@.len() != "Mat/Colors/BackpackDark"@.len());
    reveal_strlit("Mat/Colors/BeanieDark");
    assert("Toggles/Acc/HeadphonesOff"@.len() != "Mat/Colors/BeanieDark"@.len());
    reveal_strlit("Mat/Colors/GlovesDark");
    assert("Toggles/Acc/HeadphonesOff"@.len() != "Mat/Colors/GlovesDark"@.len());
    reveal_strlit("Mat/Colors/HeadphonesDark");
    assert("Toggles/Acc/HeadphonesOff"@[0] != "Mat/Colors/HeadphonesDark"@[0]);
    reveal_strlit("Mat/Colors/JacketDark");
    assert("Toggles/Acc/HeadphonesOff"@.len() != "Mat/Colors/JacketDark"@.len());
    reveal_strlit("Mat/Colors/MaskDark");
    assert("Toggles/Acc/HeadphonesOff"@.len() != "Mat/Colors/MaskDark"@.len());
    reveal_strlit("Mat/Colors/ShoeDark");
    assert("Toggles/Acc/HeadphonesOff"@.len() != "Mat/Colors/ShoeDark"@.len());
    reveal_strlit("Mat/Colors/SleevesDark");
    assert("Toggles/Acc/HeadphonesOff"@.len() != "Mat/Colors/SleevesDark"@.len());
    reveal_strlit("Mat/Colors/SwimsuitDark");
    assert("Toggles/Acc/HeadphonesOff"@.len() != "Mat/Colors/SwimsuitDark"@.len());
    reveal_strlit("Mat/Colors/PantsDark");
    assert("Toggles/Acc/HeadphonesOff"@.len() != "Mat/Colors/PantsDark"@.len());
    reveal_strlit("Mat/Colors/SportsBraDark");
    assert("Toggles/Acc/HeadphonesOff"@.len() != "Mat/Colors/SportsBraDark"@.len());
    reveal_strlit("Mat/Colors/TankTopDark");
    assert("Toggles/Acc/HeadphonesOff"@.len() != "Mat/Colors/TankTopDark"@.len());
    reveal_strlit("Mat/Colors/CropDark");
    assert("Toggles/Acc/HeadphonesOff"@.len() != "Mat/Colors/CropDark"@.len());
}

proof fn lemma_distinct_from_later_9()
    ensures
        "Toggles/Acc/MaskOff"@ != "Toggles/Acc/ThighSocksOn"@,
        "Toggles/Acc/MaskOff"@ != "Toggles/Acc/CalfSocksOn"@,
        "Toggles/Acc/MaskOff"@ != "Toggles/Acc/SleevesOff"@,
        "Toggles/Acc/MaskOff"@ != "Toggles/Acc/HolotagArmOff"@,
        "Toggles/Acc/MaskOff"@ != "Toggles/Acc/HolotagThighOff"@,
        "Toggles/Acc/MaskOff"@ != "Toggles/Acc/RunningShoeOff"@,
        "Toggles/Acc/MaskOff"@ != "Toggles/Bottoms/PantiesOn"@,
        "Toggles/Acc/MaskOff"@ != "Toggles/Bottoms/AssPantsOn"@,
        "Toggles/Acc/MaskOff"@ != "Toggles/Bottoms/PantsOn"@,
        "Toggles/Acc/MaskOff"@ != "Toggles/Bottoms/NSFW"@,
        "Toggles/Acc/MaskOff"@ != "Toggles/Acc/GlassesOff"@,
        "Toggles/Acc/MaskOff"@ != "Toggles/Acc/BackpackOff"@,
        "Toggles/Acc/MaskOff"@ != "Toggles/Acc/DogtagsOff"@,
        "Toggles/Acc/MaskOff"@ != "Toggles/Acc/LipRingsOff"@,
        "Toggles/Acc/MaskOff"@ != "Toggles/Acc/EarringsOff"@,
        "Toggles/Acc/MaskOff"@ != "Hair/ShortOn"@,
        "Toggles/Acc/MaskOff"@ != "Hair/PonyOn"@,
        "Toggles/Acc/MaskOff"@ != "Hair/LongOn"@,
        "Toggles/Acc/MaskOff"@ != "Nails/Normal"@,
        "Toggles/Acc/MaskOff"@ != "Nails/Square"@,
        "Toggles/Acc/MaskOff"@ != "Nails/Almond"@,
        "Toggles/Acc/MaskOff"@ != "Nails/Longer"@,
        "Toggles/Acc/MaskOff"@ != "Nails/Stilletto"@,
        "Toggles/Acc/MaskOff"@ != "Mat/Hue"@,
        "Toggles/Acc/MaskOff"@ != "Mat/Colors/HairHue"@,
        "Toggles/Acc/MaskOff"@ != "Mat/Colors/HairColored"@,
        "Toggles/Acc/MaskOff"@ != "Mat/Cyberpunk"@,
        "Toggles/Acc/MaskOff"@ != "Mat/HairBlack"@,
        "Toggles/Acc/MaskOff"@ != "Mat/HairWhite"@,
        "Toggles/Acc/MaskOff"@ != "Mat/HairBlonde"@,
        "Toggles/Acc/MaskOff"@ != "Mat/Monochromatic"@,
        "Toggles/Acc/MaskOff"@ != "Mat/AudioLink"@,
        "Toggles/Acc/MaskOff"@ != "Mat/Colors/AssPantsDark"@,
        "Toggles/Acc/MaskOff"@ != "Mat/Colors/BackpackDark"@,
        "Toggles/Acc/MaskOff"@ != "Mat/Colors/BeanieDark"@,
        "Toggles/Acc/MaskOff"@ != "Mat/Colors/GlovesDark"@,
        "Toggles/Acc/MaskOff"@ != "Mat/Colors/HeadphonesDark"@,
        "Toggles/Acc/MaskOff"@ != "Mat/Colors/JacketDark"@,
        "Toggles/Acc/MaskOff"@ != "Mat/Colors/MaskDark"@,
        "Toggles/Acc/MaskOff"@ != "Mat/Colors/ShoeDark"@,
        "Toggles/Acc/MaskOff"@ != "Mat/Colors/SleevesDark"@,
        "Toggles/Acc/MaskOff"@ != "Mat/Colors/SwimsuitDark"@,
        "Toggles/Acc/MaskOff"@ != "Mat/Colors/PantsDark"@,
        "Toggles/Acc/MaskOff"@ != "Mat/Colors/SportsBraDark"@,
        "Toggles/Acc/MaskOff"@ != "Mat/Colors/TankTopDark"@,
        "Toggles/Acc/MaskOff"@ != "Mat/Colors/CropDark"@,
{
    reveal_strlit("Toggles/Acc/MaskOff");
    reveal_strlit("Toggles/Acc/ThighSocksOn");
    assert("Toggles/Acc/MaskOff"@.len() != "Toggles/Acc/ThighSocksOn"@.len());
    reveal_strlit("Toggles/Acc/CalfSocksOn");
    assert("Toggles/Acc/MaskOff"@.len() != "Toggles/Acc/CalfSocksOn"@.len());
    reveal_strlit("Toggles/Acc/SleevesOff");
    assert("Toggles/Acc/MaskOff"@.len() != "Toggles/Acc/SleevesOff"@.len());
    reveal_strlit("Toggles/Acc/HolotagArmOff");
    assert("Toggles/Acc/MaskOff"@.len() != "Toggles/Acc/HolotagArmOff"@.len());
    reveal_strlit("Toggles/Acc/HolotagThighOff");
    assert("Toggles/Acc/MaskOff"@.len() != "Toggles/Acc/HolotagThighOff"@.len());
    reveal_strlit("Toggles/Acc/RunningShoeOff");
    assert("Toggles/Acc/MaskOff"@.len() != "Toggles/Acc/RunningShoeOff"@.len());
    reveal_strlit("Toggles/Bottoms/PantiesOn");
    assert("Toggles/Acc/MaskOff"@.len() != "Toggles/Bottoms/PantiesOn"@.len());
    reveal_strlit("Toggles/Bottoms/AssPantsOn");
    assert("Toggles/Acc/MaskOff"@.len() != "Toggles/Bottoms/AssPantsOn"@.len());
    reveal_strlit("Toggles/Bottoms/PantsOn");
    assert("Toggles/Acc/MaskOff"@.len() != "Toggles/Bottoms/PantsOn"@.len());
    reveal_strlit("Toggles/Bottoms/NSFW");
    assert("Toggles/Acc/MaskOff"@.len() != "Toggles/Bottoms/NSFW"@.len());
    reveal_strlit("Toggles/Acc/GlassesOff");
    assert("Toggles/Acc/MaskOff"@.len() != "Toggles/Acc/GlassesOff"@.len());
    reveal_strlit("Toggles/Acc/BackpackOff");
    assert("Toggles/Acc/MaskOff"@.len() != "Toggles/Acc/BackpackOff"@.len());
    reveal_strlit("Toggles/Acc/DogtagsOff");
    assert("Toggles/Acc/MaskOff"@.len() != "Toggles/Acc/DogtagsOff"@.len());
    reveal_strlit("Toggles/Acc/LipRingsOff");
    assert("Toggles/Acc/MaskOff"@.len() != "Toggles/Acc/LipRingsOff"@.len());
    reveal_strlit("Toggles/Acc/EarringsOff");
    assert("Toggles/Acc/MaskOff"@.len() != "Toggles/Acc/EarringsOff"@.len());
    reveal_strlit("Hair/ShortOn");
    assert("Toggles/Acc/MaskOff"@.len() != "Hair/ShortOn"@.len());
    reveal_strlit("Hair/PonyOn");
    assert("Toggles/Acc/MaskOff"@.len() != "Hair/PonyOn"@.len());
    reveal_strlit("Hair/LongOn");
    assert("Toggles/Acc/MaskOff"@.len() != "Hair/LongOn"@.len());
    reveal_strlit("Nails/Normal");
    assert("Toggles/Acc/MaskOff"@.len() != "Nails/Normal"@.len());
    reveal_strlit("Nails/Square");
    assert("Toggles/Acc/MaskOff"@.len() != "Nails/Square"@.len());
    reveal_strlit("Nails/Almond");
    assert("Toggles/Acc/MaskOff"@.len() != "Nails/Almond"@.len());
    reveal_strlit("Nails/Longer");
    assert("Toggles/Acc/MaskOff"@.len() != "Nails/Longer"@.len());
    reveal_strlit("Nails/Stilletto");
    assert("Toggles/Acc/MaskOff"@.len() != "Nails/Stilletto"@.len());
    reveal_strlit("Mat/Hue");
    assert("Toggles/Acc/MaskOff"@.len() != "Mat/Hue"@.len());
    reveal_strlit("Mat/Colors/HairHue");
    assert("Toggles/Acc/MaskOff"@.len() != "Mat/Colors/HairHue"@.len());
    reveal_strlit("Mat/Colors/HairColored");
    assert("Toggles/Acc/MaskOff"@.len() != "Mat/Colors/HairColored"@.len());
    reveal_strlit("Mat/Cyberpunk");
    assert("Toggles/Acc/MaskOff"@.len() != "Mat/Cyberpunk"@.len());
    reveal_strlit("Mat/HairBlack");
    assert("Toggles/Acc/MaskOff"@.len() != "Mat/HairBlack"@.len());
    reveal_strlit("Mat/HairWhite");
    assert("Toggles/Acc/MaskOff"@.len() != "Mat/HairWhite"@.len());
    reveal_strlit("Mat/HairBlonde");
    assert("Toggles/Acc/MaskOff"@.len() != "Mat/HairBlonde"@.len());
    reveal_strlit("Mat/Monochromatic");
    assert("Toggles/Acc/MaskOff"@.len() != "Mat/Monochromatic"@.len());
    reveal_strlit("Mat/AudioLink");
    assert("Toggles/Acc/MaskOff"@.len() != "Mat/AudioLink"@.len());
    reveal_strlit("Mat/Colors/AssPantsDark");
    assert("Toggles/Acc/MaskOff"@.len() != "Mat/Colors/AssPantsDark"@.len());
    reveal_strlit("Mat/Colors/BackpackDark");
    assert("Toggles/Acc/MaskOff"@.len() != "Mat/Colors/BackpackDark"@.len());
    reveal_strlit("Mat/Colors/BeanieDark");
    assert("Toggles/Acc/MaskOff"@.len() != "Mat/Colors/BeanieDark"@.len());
    reveal_strlit("Mat/Colors/GlovesDark");
    assert("Toggles/Acc/MaskOff"@.len() != "Mat/Colors/GlovesDark"@.len());
    reveal_strlit("Mat/Colors/HeadphonesDark");
    assert("Toggles/Acc/MaskOff"@.len() != "Mat/Colors/HeadphonesDark"@.len());
    reveal_strlit("Mat/Colors/JacketDark");
    assert("Toggles/Acc/MaskOff"@.len() != "Mat/Colors/JacketDark"@.len());
    reveal_strlit("Mat/Colors/MaskDark");
    assert("Toggles/Acc/MaskOff"@[0] != "Mat/Colors/MaskDark"@[0]);
    reveal_strlit("Mat/Colors/ShoeDark");
    assert("Toggles/Acc/MaskOff"@[0] != "Mat/Colors/ShoeDark"@[0]);
    reveal_strlit("Mat/Colors/SleevesDark");
    assert("Toggles/Acc/MaskOff"@.len() != "Mat/Colors/SleevesDark"@.len());
    reveal_strlit("Mat/Colors/SwimsuitDark");
    assert("Toggles/Acc/MaskOff"@.len() != "Mat/Colors/SwimsuitDark"@.len());
    reveal_strlit("Mat/Colors/PantsDark");
    assert("Toggles/Acc/MaskOff"@.len() != "Mat/Colors/PantsDark"@.len());
    reveal_strlit("Mat/Colors/SportsBraDark");
    assert("Toggles/Acc/MaskOff"@.len() != "Mat/Colors/SportsBraDark"@.len());
    reveal_strlit("Mat/Colors/TankTopDark");
    assert("Toggles/Acc/MaskOff"@.len() != "Mat/Colors/TankTopDark"@.len());
    reveal_strlit("Mat/Colors/CropDark");
    assert("Toggles/Acc/MaskOff"@[0] != "Mat/Colors/CropDark"@[0]);
}

proof fn lemma_distinct_from_later_10()
    ensures
        "Toggles/Acc/ThighSocksOn"@ != "Toggles/Acc/CalfSocksOn"@,
        "Toggles/Acc/ThighSocksOn"@ != "Toggles/Acc/SleevesOff"@,
        "Toggles/Acc/ThighSocksOn"@ != "Toggles/Acc/HolotagArmOff"@,
        "Toggles/Acc/ThighSocksOn"@ != "Toggles/Acc/HolotagThighOff"@,
        "Toggles/Acc/ThighSocksOn"@ != "Toggles/Acc/RunningShoeOff"@,
        "Toggles/Acc/ThighSocksOn"@ != "Toggles/Bottoms/PantiesOn"@,
        "Toggles/Acc/ThighSocksOn"@ != "Toggles/Bottoms/AssPantsOn"@,
        "Toggles/Acc/ThighSocksOn"@ != "Toggles/Bottoms/PantsOn"@,
        "Toggles/Acc/ThighSocksOn"@ != "Toggles/Bottoms/NSFW"@,
        "Toggles/Acc/ThighSocksOn"@ != "Toggles/Acc/GlassesOff"@,
        "Toggles/Acc/ThighSocksOn"@ != "Toggles/Acc/BackpackOff"@,
        "Toggles/Acc/ThighSocksOn"@ != "Toggles/Acc/DogtagsOff"@,
        "Toggles/Acc/ThighSocksOn"@ != "Toggles/Acc/LipRingsOff"@,
        "Toggles/Acc/ThighSocksOn"@ != "Toggles/Acc/EarringsOff"@,
        "Toggles/Acc/ThighSocksOn"@ != "Hair/ShortOn"@,
        "Toggles/Acc/ThighSocksOn"@ != "Hair/PonyOn"@,
        "Toggles/Acc/ThighSocksOn"@ != "Hair/LongOn"@,
        "Toggles/Acc/ThighSocksOn"@ != "Nails/Normal"@,
        "Toggles/Acc/ThighSocksOn"@ != "Nails/Square"@,
        "Toggles/Acc/ThighSocksOn"@ != "Nails/Almond"@,
        "Toggles/Acc/ThighSocksOn"@ != "Nails/Longer"@,
        "Toggles/Acc/ThighSocksOn"@ != "Nails/Stilletto"@,
        "Toggles/Acc/ThighSocksOn"@ != "Mat/Hue"@,
        "Toggles/Acc/ThighSocksOn"@ != "Mat/Colors/HairHue"@,
        "Toggles/Acc/ThighSocksOn"@ != "Mat/Colors/HairColored"@,
        "Toggles/Acc/ThighSocksOn"@ != "Mat/Cyberpunk"@,
        "Toggles/Acc/ThighSocksOn"@ != "Mat/HairBlack"@,
        "Toggles/Acc/ThighSocksOn"@ != "Mat/HairWhite"@,
        "Toggles/Acc/ThighSocksOn"@ != "Mat/HairBlonde"@,
        "Toggles/Acc/ThighSocksOn"@ != "Mat/Monochromatic"@,
        "Toggles/Acc/ThighSocksOn"@ != "Mat/AudioLink"@,
        "Toggles/Acc/ThighSocksOn"@ != "Mat/Colors/AssPantsDark"@,
        "Toggles/Acc/ThighSocksOn"@ != "Mat/Colors/BackpackDark"@,
        "Toggles/Acc/ThighSocksOn"@ != "Mat/Colors/BeanieDark"@,
        "Toggles/Acc/ThighSocksOn"@ != "Mat/Colors/GlovesDark"@,
        "Toggles/Acc/ThighSocksOn"@ != "Mat/Colors/HeadphonesDark"@,
        "Toggles/Acc/ThighSocksOn"@ != "Mat/Colors/JacketDark"@,
        "Toggles/Acc/ThighSocksOn"@ != "Mat/Colors/MaskDark"@,
        "Toggles/Acc/ThighSocksOn"@ != "Mat/Colors/ShoeDark"@,
        "Toggles/Acc/ThighSocksOn"@ != "Mat/Colors/SleevesDark"@,
        "Toggles/Acc/ThighSocksOn"@ != "Mat/Colors/SwimsuitDark"@,
        "Toggles/Acc/ThighSocksOn"@ != "Mat/Colors/PantsDark"@,
        "Toggles/Acc/ThighSocksOn"@ != "Mat/Colors/SportsBraDark"@,
        "Toggles/Acc/ThighSocksOn"@ != "Mat/Colors/TankTopDark"@,
        "Toggles/Acc/ThighSocksOn"@ != "Mat/Colors/CropDark"@,
{
    reveal_strlit("Toggles/Acc/ThighSocksOn");
    reveal_strlit("Toggles/Acc/CalfSocksOn");
    assert("Toggles/Acc/ThighSocksOn"@.len() != "Toggles/Acc/CalfSocksOn"@.len());
    reveal_strlit("Toggles/Acc/SleevesOff");
    assert("Toggles/Acc/ThighSocksOn"@.len() != "Toggles/Acc/SleevesOff"@.len());
    reveal_strlit("Toggles/Acc/HolotagArmOff");
    assert("Toggles/Acc/ThighSocksOn"@.len() != "Toggles/Acc/HolotagArmOff"@.len());
    reveal_strlit("Toggles/Acc/HolotagThighOff");
    assert("Toggles/Acc/ThighSocksOn"@.len() != "Toggles/Acc/HolotagThighOff"@.len());
    reveal_strlit("Toggles/Acc/RunningShoeOff");
    assert("Toggles/Acc/ThighSocksOn"@.len() != "Toggles/Acc/RunningShoeOff"@.len());
    reveal_strlit("Toggles/Bottoms/PantiesOn");
    assert("Toggles/Acc/ThighSocksOn"@.len() != "Toggles/Bottoms/PantiesOn"@.len());
    reveal_strlit("Toggles/Bottoms/AssPantsOn");
    assert("Toggles/Acc/ThighSocksOn"@.len() != "Toggles/Bottoms/AssPantsOn"@.len());
    reveal_strlit("Toggles/Bottoms/PantsOn");
    assert("Toggles/Acc/ThighSocksOn"@.len() != "Toggles/Bottoms/PantsOn"@.len());
    reveal_strlit("Toggles/Bottoms/NSFW");
    assert("Toggles/Acc/ThighSocksOn"@.len() != "Toggles/Bottoms/NSFW"@.len());
    reveal_strlit("Toggles/Acc/GlassesOff");
    assert("Toggles/Acc/ThighSocksOn"@.len() != "Toggles/Acc/GlassesOff"@.len());
    reveal_strlit("Toggles/Acc/BackpackOff");
    assert("Toggles/Acc/ThighSocksOn"@.len() != "Toggles/Acc/BackpackOff"@.len());
    reveal_strlit("Toggles/Acc/DogtagsOff");
    assert("Toggles/Acc/ThighSocksOn"@.len() != "Toggles/Acc/DogtagsOff"@.len());
    reveal_strlit("Toggles/Acc/LipRingsOff");
    assert("Toggles/Acc/ThighSocksOn"@.len() != "Toggles/Acc/LipRingsOff"@.len());
    reveal_strlit("Toggles/Acc/EarringsOff");
    assert("Toggles/Acc/ThighSocksOn"@.len() != "Toggles/Acc/EarringsOff"@.len());
    reveal_strlit("Hair/ShortOn");
    assert("Toggles/Acc/ThighSocksOn"@.len() != "Hair/ShortOn"@.len());
    reveal_strlit("Hair/PonyOn");
    assert("Toggles/Acc/ThighSocksOn"@.len() != "Hair/PonyOn"@.len());
    reveal_strlit("Hair/LongOn");
    assert("Toggles/Acc/ThighSocksOn"@.len() != "Hair/LongOn"@.len());
    reveal_strlit("Nails/Normal");
    assert("Toggles/Acc/ThighSocksOn"@.len() != "Nails/Normal"@.len());
    reveal_strlit("Nails/Square");
    assert("Toggles/Acc/ThighSocksOn"@.len() != "Nails/Square"@.len());
    reveal_strlit("Nails/Almond");
    assert("Toggles/Acc/ThighSocksOn"@.len() != "Nails/Almond"@.len());
    reveal_strlit("Nails/Longer");
    assert("Toggles/Acc/ThighSocksOn"@.len() != "Nails/Longer"@.len());
    reveal_strlit("Nails/Stilletto");
    assert("Toggles/Acc/ThighSocksOn"@.len() != "Nails/Stilletto"@.len());
    reveal_strlit("Mat/Hue");
    assert("Toggles/Acc/ThighSocksOn"@.len() != "Mat/Hue"@.len());
    reveal_strlit("Mat/Colors/HairHue");
    assert("Toggles/Acc/ThighSocksOn"@.len() != "Mat/Colors/HairHue"@.len());
    reveal_strlit("Mat/Colors/HairColored");
    assert("Toggles/Acc/ThighSocksOn"@.len() != "Mat/Colors/HairColored"@.len());
    reveal_strlit("Mat/Cyberpunk");
    assert("Toggles/Acc/ThighSocksOn"@.len() != "Mat/Cyberpunk"@.len());
    reveal_strlit("Mat/HairBlack");
    assert("Toggles/Acc/ThighSocksOn"@.len() != "Mat/HairBlack"@.len());
    reveal_strlit("Mat/HairWhite");
    assert("Toggles/Acc/ThighSocksOn"@.len() != "Mat/HairWhite"@.len());
    reveal_strlit("Mat/HairBlonde");
    assert("Toggles/Acc/ThighSocksOn"@.len() != "Mat/HairBlonde"@.len());
    reveal_strlit("Mat/Monochromatic");
    assert("Toggles/Acc/ThighSocksOn"@.len() != "Mat/Monochromatic"@.len());
    reveal_strlit("Mat/AudioLink");
    assert("Toggles/Acc/ThighSocksOn"@.len() != "Mat/AudioLink"@.len());
    reveal_strlit("Mat/Colors/AssPantsDark");
    assert("Toggles/Acc/ThighSocksOn"@.len() != "Mat/Colors/AssPantsDark"@.len());
    reveal_strlit("Mat/Colors/BackpackDark");
    assert("Toggles/Acc/ThighSocksOn"@.len() != "Mat/Colors/BackpackDark"@.len());
    reveal_strlit("Mat/Colors/BeanieDark");
    assert("Toggles/Acc/ThighSocksOn"@.len() != "Mat/Colors/BeanieDark"@.len());
    reveal_strlit("Mat/Colors/GlovesDark");
    assert("Toggles/Acc/ThighSocksOn"@.len() != "Mat/Colors/GlovesDark"@.len());
    reveal_strlit("Mat/Colors/HeadphonesDark");
    assert("Toggles/Acc/ThighSocksOn"@.len() != "Mat/Colors/HeadphonesDark"@.len());
    reveal_strlit("Mat/Colors/JacketDark");
    assert("Toggles/Acc/ThighSocksOn"@.len() != "Mat/Colors/JacketDark"@.len());
    reveal_strlit("Mat/Colors/MaskDark");
    assert("Toggles/Acc/ThighSocksOn"@.len() != "Mat/Colors/MaskDark"@.len());
    reveal_strlit("Mat/Colors/ShoeDark");
    assert("Toggles/Acc/ThighSocksOn"@.len() != "Mat/Colors/ShoeDark"@.len());
    reveal_strlit("Mat/Colors/SleevesDark");
    assert("Toggles/Acc/ThighSocksOn"@.len() != "Mat/Colors/SleevesDark"@.len());
    reveal_strlit("Mat/Colors/SwimsuitDark");
    assert("Toggles/Acc/ThighSocksOn"@.len() != "Mat/Colors/SwimsuitDark"@.len());
    reveal_strlit("Mat/Colors/PantsDark");
    assert("Toggles/Acc/ThighSocksOn"@.len() != "Mat/Colors/PantsDark"@.len());
    reveal_strlit("Mat/Colors/SportsBraDark");
    assert("Toggles/Acc/ThighSocksOn"@[0] != "Mat/Colors/SportsBraDark"@[0]);
    reveal_strlit("Mat/Colors/TankTopDark");
    assert("Toggles/Acc/ThighSocksOn"@.len() != "Mat/Colors/TankTopDark"@.len());
    reveal_strlit("Mat/Colors/CropDark");
    assert("Toggles/Acc/ThighSocksOn"@.len() != "Mat/Colors/CropDark"@.len());
}

proof fn lemma_distinct_from_later_11()
    ensures
        "Toggles/Acc/CalfSocksOn"@ != "Toggles/Acc/SleevesOff"@,
        "Toggles/Acc/CalfSocksOn"@ != "Toggles/Acc/HolotagArmOff"@,
        "Toggles/Acc/CalfSocksOn"@ != "Toggles/Acc/HolotagThighOff"@,
        "Toggles/Acc/CalfSocksOn"@ != "Toggles/Acc/RunningShoeOff"@,
        "Toggles/Acc/CalfSocksOn"@ != "Toggles/Bottoms/PantiesOn"@,
        "Toggles/Acc/CalfSocksOn"@ != "Toggles/Bottoms/AssPantsOn"@,
        "Toggles/Acc/CalfSocksOn"@ != "Toggles/Bottoms/PantsOn"@,
        "Toggles/Acc/CalfSocksOn"@ != "Toggles/Bottoms/NSFW"@,
        "Toggles/Acc/CalfSocksOn"@ != "Toggles/Acc/GlassesOff"@,
        "Toggles/Acc/CalfSocksOn"@ != "Toggles/Acc/BackpackOff"@,
        "Toggles/Acc/CalfSocksOn"@ != "Toggles/Acc/DogtagsOff"@,
        "Toggles/Acc/CalfSocksOn"@ != "Toggles/Acc/LipRingsOff"@,
        "Toggles/Acc/CalfSocksOn"@ != "Toggles/Acc/EarringsOff"@,
        "Toggles/Acc/CalfSocksOn"@ != "Hair/ShortOn"@,
        "Toggles/Acc/CalfSocksOn"@ != "Hair/PonyOn"@,
        "Toggles/Acc/CalfSocksOn"@ != "Hair/LongOn"@,
        "Toggles/Acc/CalfSocksOn"@ != "Nails/Normal"@,
        "Toggles/Acc/CalfSocksOn"@ != "Nails/Square"@,
        "Toggles/Acc/CalfSocksOn"@ != "Nails/Almond"@,
        "Toggles/Acc/CalfSocksOn"@ != "Nails/Longer"@,
        "Toggles/Acc/CalfSocksOn"@ != "Nails/Stilletto"@,
        "Toggles/Acc/CalfSocksOn"@ != "Mat/Hue"@,
        "Toggles/Acc/CalfSocksOn"@ != "Mat/Colors/HairHue"@,
        "Toggles/Acc/CalfSocksOn"@ != "Mat/Colors/HairColored"@,
        "Toggles/Acc/CalfSocksOn"@ != "Mat/Cyberpunk"@,
        "Toggles/Acc/CalfSocksOn"@ != "Mat/HairBlack"@,
        "Toggles/Acc/CalfSocksOn"@ != "Mat/HairWhite"@,
        "Toggles/Acc/CalfSocksOn"@ != "Mat/HairBlonde"@,
        "Toggles/Acc/CalfSocksOn"@ != "Mat/Monochromatic"@,
        "Toggles/Acc/CalfSocksOn"@ != "Mat/AudioLink"@,
        "Toggles/Acc/CalfSocksOn"@ != "Mat/Colors/AssPantsDark"@,
        "Toggles/Acc/CalfSocksOn"@ != "Mat/Colors/BackpackDark"@,
        "Toggles/Acc/CalfSocksOn"@ != "Mat/Colors/BeanieDark"@,
        "Toggles/Acc/CalfSocksOn"@ != "Mat/Colors/GlovesDark"@,
        "Toggles/Acc/CalfSocksOn"@ != "Mat/Colors/HeadphonesDark"@,
        "Toggles/Acc/CalfSocksOn"@ != "Mat/Colors/JacketDark"@,
        "Toggles/Acc/CalfSocksOn"@ != "Mat/Colors/MaskDark"@,
        "Toggles/Acc/CalfSocksOn"@ != "Mat/Colors/ShoeDark"@,
        "Toggles/Acc/CalfSocksOn"@ != "Mat/Colors/SleevesDark"@,
        "Toggles/Acc/CalfSocksOn"@ != "Mat/Colors/SwimsuitDark"@,
        "Toggles/Acc/CalfSocksOn"@ != "Mat/Colors/PantsDark"@,
        "Toggles/Acc/CalfSocksOn"@ != "Mat/Colors/SportsBraDark"@,
        "Toggles/Acc/CalfSocksOn"@ != "Mat/Colors/TankTopDark"@,
        "Toggles/Acc/CalfSocksOn"@ != "Mat/Colors/CropDark"@,
{
    reveal_strlit("Toggles/Acc/CalfSocksOn");
    reveal_strlit("Toggles/Acc/SleevesOff");
    assert("Toggles/Acc/CalfSocksOn"@.len() != "Toggles/Acc/SleevesOff"@.len());
    reveal_strlit("Toggles/Acc/HolotagArmOff");
    assert("Toggles/Acc/CalfSocksOn"@.len() != "Toggles/Acc/HolotagArmOff"@.len());
    reveal_strlit("Toggles/Acc/HolotagThighOff");
    assert("Toggles/Acc/CalfSocksOn"@.len() != "Toggles/Acc/HolotagThighOff"@.len());
    reveal_strlit("Toggles/Acc/RunningShoeOff");
    assert("Toggles/Acc/CalfSocksOn"@.len() != "Toggles/Acc/RunningShoeOff"@.len());
    reveal_strlit("Toggles/Bottoms/PantiesOn");
    assert("Toggles/Acc/CalfSocksOn"@.len() != "Toggles/Bottoms/PantiesOn"@.len());
    reveal_strlit("Toggles/Bottoms/AssPantsOn");
    assert("Toggles/Acc/CalfSocksOn"@.len() != "Toggles/Bottoms/AssPantsOn"@.len());
    reveal_strlit("Toggles/Bottoms/PantsOn");
    assert("Toggles/Acc/CalfSocksOn"@[8] != "Toggles/Bottoms/PantsOn"@[8]);
    reveal_strlit("Toggles/Bottoms/NSFW");
    assert("Toggles/Acc/CalfSocksOn"@.len() != "Toggles/Bottoms/NSFW"@.len());
    reveal_strlit("Toggles/Acc/GlassesOff");
    assert("Toggles/Acc/CalfSocksOn"@.len() != "Toggles/Acc/GlassesOff"@.len());
    reveal_strlit("Toggles/Acc/BackpackOff");
    assert("Toggles/Acc/CalfSocksOn"@[12] != "Toggles/Acc/BackpackOff"@[12]);
    reveal_strlit("Toggles/Acc/DogtagsOff");
    assert("Toggles/Acc/CalfSocksOn"@.len() != "Toggles/Acc/DogtagsOff"@.len());
    reveal_strlit("Toggles/Acc/LipRingsOff");
    assert("Toggles/Acc/CalfSocksOn"@[12] != "Toggles/Acc/LipRingsOff"@[12]);
    reveal_strlit("Toggles/Acc/EarringsOff");
    assert("Toggles/Acc/CalfSocksOn"@[12] != "Toggles/Acc/EarringsOff"@[12]);
    reveal_strlit("Hair/ShortOn");
    assert("Toggles/Acc/CalfSocksOn"@.len() != "Hair/ShortOn"@.len());
    reveal_strlit("Hair/PonyOn");
    assert("Toggles/Acc/CalfSocksOn"@.len() != "Hair/PonyOn"@.len());
    reveal_strlit("Hair/LongOn");
    assert("Toggles/Acc/CalfSocksOn"@.len() != "Hair/LongOn"@.len());
    reveal_strlit("Nails/Normal");
    assert("Toggles/Acc/CalfSocksOn"@.len() != "Nails/Normal"@.len());
    reveal_strlit("Nails/Square");
    assert("Toggles/Acc/CalfSocksOn"@.len() != "Nails/Square"@.len());
    reveal_strlit("Nails/Almond");
    assert("Toggles/Acc/CalfSocksOn"@.len() != "Nails/Almond"@.len());
    reveal_strlit("Nails/Longer");
    assert("Toggles/Acc/CalfSocksOn"@.len() != "Nails/Longer"@.len());
    reveal_strlit("Nails/Stilletto");
    assert("Toggles/Acc/CalfSocksOn"@.len() != "Nails/Stilletto"@.len());
    reveal_strlit("Mat/Hue");
    assert("Toggles/Acc/CalfSocksOn"@.len() != "Mat/Hue"@.len());
    reveal_strlit("Mat/Colors/HairHue");
    assert("Toggles/Acc/CalfSocksOn"@.len() != "Mat/Colors/HairHue"@.len());
    reveal_strlit("Mat/Colors/HairColored");
    assert("Toggles/Acc/CalfSocksOn"@.len() != "Mat/Colors/HairColored"@.len());
    reveal_strlit("Mat/Cyberpunk");
    assert("Toggles/Acc/CalfSocksOn"@.len() != "Mat/Cyberpunk"@.len());
    reveal_strlit("Mat/HairBlack");
    assert("Toggles/Acc/CalfSocksOn"@.len() != "Mat/HairBlack"@.len());
    reveal_strlit("Mat/HairWhite");
    assert("Toggles/Acc/CalfSocksOn"@.len() != "Mat/HairWhite"@.len());
    reveal_strlit("Mat/HairBlonde");
    assert("Toggles/Acc/CalfSocksOn"@.len() != "Mat/HairBlonde"@.len());
    reveal_strlit("Mat/Monochromatic");
    assert("Toggles/Acc/CalfSocksOn"@.len() != "Mat/Monochromatic"@.len());
    reveal_strlit("Mat/AudioLink");
    assert("Toggles/Acc/CalfSocksOn"@.len() != "Mat/AudioLink"@.len());
    reveal_strlit("Mat/Colors/AssPantsDark");
    assert("Toggles/Acc/CalfSocksOn"@[0] != "Mat/Colors/AssPantsDark"@[0]);
    reveal_strlit("Mat/Colors/BackpackDark");
    assert("Toggles/Acc/CalfSocksOn"@[0] != "Mat/Colors/BackpackDark"@[0]);
    reveal_strlit("Mat/Colors/BeanieDark");
    assert("Toggles/Acc/CalfSocksOn"@.len() != "Mat/Colors/BeanieDark"@.len());
    reveal_strlit("Mat/Colors/GlovesDark");
    assert("Toggles/Acc/CalfSocksOn"@.len() != "Mat/Colors/GlovesDark"@.len());
    reveal_strlit("Mat/Colors/HeadphonesDark");
    assert("Toggles/Acc/CalfSocksOn"@.len() != "Mat/Colors/HeadphonesDark"@.len());
    reveal_strlit("Mat/Colors/JacketDark");
    assert("Toggles/Acc/CalfSocksOn"@.len() != "Mat/Colors/JacketDark"@.len());
    reveal_strlit("Mat/Colors/MaskDark");
    assert("Toggles/Acc/CalfSocksOn"@.len() != "Mat/Colors/MaskDark"@.len());
    reveal_strlit("Mat/Colors/ShoeDark");
    assert("Toggles/Acc/CalfSocksOn"@.len() != "Mat/Colors/ShoeDark"@.len());
    reveal_strlit("Mat/Colors/SleevesDark");
    assert("Toggles/Acc/CalfSocksOn"@.len() != "Mat/Colors/SleevesDark"@.len());
    reveal_strlit("Mat/Colors/SwimsuitDark");
    assert("Toggles/Acc/CalfSocksOn"@[0] != "Mat/Colors/SwimsuitDark"@[0]);
    reveal_strlit("Mat/Colors/PantsDark");
    assert("Toggles/Acc/CalfSocksOn"@.len() != "Mat/Colors/PantsDark"@.len());
    reveal_strlit("Mat/Colors/SportsBraDark");
    assert("Toggles/Acc/CalfSocksOn"@.len() != "Mat/Colors/SportsBraDark"@.len());
    reveal_strlit("Mat/Colors/TankTopDark");
    assert("Toggles/Acc/CalfSocksOn"@.len() != "Mat/Colors/TankTopDark"@.len());
    reveal_strlit("Mat/Colors/CropDark");
    assert("Toggles/Acc/CalfSocksOn"@.len() != "Mat/Colors/CropDark"@.len());
}

proof fn lemma_distinct_from_later_12()
    ensures
        "Toggles/Acc/SleevesOff"@ != "Toggles/Acc/HolotagArmOff"@,
        "Toggles/Acc/SleevesOff"@ != "Toggles/Acc/HolotagThighOff"@,
        "Toggles/Acc/SleevesOff"@ != "Toggles/Acc/RunningShoeOff"@,
        "Toggles/Acc/SleevesOff"@ != "Toggles/Bottoms/PantiesOn"@,
        "Toggles/Acc/SleevesOff"@ != "Toggles/Bottoms/AssPantsOn"@,
        "Toggles/Acc/SleevesOff"@ != "Toggles/Bottoms/PantsOn"@,
        "Toggles/Acc/SleevesOff"@ != "Toggles/Bottoms/NSFW"@,
        "Toggles/Acc/SleevesOff"@ != "Toggles/Acc/GlassesOff"@,
        "Toggles/Acc/SleevesOff"@ != "Toggles/Acc/BackpackOff"@,
        "Toggles/Acc/SleevesOff"@ != "Toggles/Acc/DogtagsOff"@,
        "Toggles/Acc/SleevesOff"@ != "Toggles/Acc/LipRingsOff"@,
        "Toggles/Acc/SleevesOff"@ != "Toggles/Acc/EarringsOff"@,
        "Toggles/Acc/SleevesOff"@ != "Hair/ShortOn"@,
        "Toggles/Acc/SleevesOff"@ != "Hair/PonyOn"@,
        "Toggles/Acc/SleevesOff"@ != "Hair/LongOn"@,
        "Toggles/Acc/SleevesOff"@ != "Nails/Normal"@,
        "Toggles/Acc/SleevesOff"@ != "Nails/Square"@,
        "Toggles/Acc/SleevesOff"@ != "Nails/Almond"@,
        "Toggles/Acc/SleevesOff"@ != "Nails/Longer"@,
        "Toggles/Acc/SleevesOff"@ != "Nails/Stilletto"@,
        "Toggles/Acc/SleevesOff"@ != "Mat/Hue"@,
        "Toggles/Acc/SleevesOff"@ != "Mat/Colors/HairHue"@,
        "Toggles/Acc/SleevesOff"@ != "Mat/Colors/HairColored"@,
        "Toggles/Acc/SleevesOff"@ != "Mat/Cyberpunk"@,
        "Toggles/Acc/SleevesOff"@ != "Mat/HairBlack"@,
        "Toggles/Acc/SleevesOff"@ != "Mat/HairWhite"@,
        "Toggles/Acc/SleevesOff"@ != "Mat/HairBlonde"@,
        "Toggles/Acc/SleevesOff"@ != "Mat/Monochromatic"@,
        "Toggles/Acc/SleevesOff"@ != "Mat/AudioLink"@,
        "Toggles/Acc/SleevesOff"@ != "Mat/Colors/AssPantsDark"@,
        "Toggles/Acc/SleevesOff"@ != "Mat/Colors/BackpackDark"@,
        "Toggles/Acc/SleevesOff"@ != "Mat/Colors/BeanieDark"@,
        "Toggles/Acc/SleevesOff"@ != "Mat/Colors/GlovesDark"@,
        "Toggles/Acc/SleevesOff"@ != "Mat/Colors/HeadphonesDark"@,
        "Toggles/Acc/SleevesOff"@ != "Mat/Colors/JacketDark"@,
        "Toggles/Acc/SleevesOff"@ != "Mat/Colors/MaskDark"@,
        "Toggles/Acc/SleevesOff"@ != "Mat/Colors/ShoeDark"@,
        "Toggles/Acc/SleevesOff"@ != "Mat/Colors/SleevesDark"@,
        "Toggles/Acc/SleevesOff"@ != "Mat/Colors/SwimsuitDark"@,
        "Toggles/Acc/SleevesOff"@ != "Mat/Colors/PantsDark"@,
        "Toggles/Acc/SleevesOff"@ != "Mat/Colors/SportsBraDark"@,
        "Toggles/Acc/SleevesOff"@ != "Mat/Colors/TankTopDark"@,
        "Toggles/Acc/SleevesOff"@ != "Mat/Colors/CropDark"@,
{
    reveal_strlit("Toggles/Acc/SleevesOff");
    reveal_strlit("Toggles/Acc/HolotagArmOff");
    assert("Toggles/Acc/SleevesOff"@.len() != "Toggles/Acc/HolotagArmOff"@.len());
    reveal_strlit("Toggles/Acc/HolotagThighOff");
    assert("Toggles/Acc/SleevesOff"@.len() != "Toggles/Acc/HolotagThighOff"@.len());
    reveal_strlit("Toggles/Acc/RunningShoeOff");
    assert("Toggles/Acc/SleevesOff"@.len() != "Toggles/Acc/RunningShoeOff"@.len());
    reveal_strlit("Toggles/Bottoms/PantiesOn");
    assert("Toggles/Acc/SleevesOff"@.len() != "Toggles/Bottoms/PantiesOn"@.len());
    reveal_strlit("Toggles/Bottoms/AssPantsOn");
    assert("Toggles/Acc/SleevesOff"@.len() != "Toggles/Bottoms/AssPantsOn"@.len());
    reveal_strlit("Toggles/Bottoms/PantsOn");
    assert("Toggles/Acc/SleevesOff"@.len() != "Toggles/Bottoms/PantsOn"@.len());
    reveal_strlit("Toggles/Bottoms/NSFW");
    assert("Toggles/Acc/SleevesOff"@.len() != "Toggles/Bottoms/NSFW"@.len());
    reveal_strlit("Toggles/Acc/GlassesOff");
    assert("Toggles/Acc/SleevesOff"@[12] != "Toggles/Acc/GlassesOff"@[12]);
    reveal_strlit("Toggles/Acc/BackpackOff");
    assert("Toggles/Acc/SleevesOff"@.len() != "Toggles/Acc/BackpackOff"@.len());
    reveal_strlit("Toggles/Acc/DogtagsOff");
    assert("Toggles/Acc/SleevesOff"@[12] != "Toggles/Acc/DogtagsOff"@[12]);
    reveal_strlit("Toggles/Acc/LipRingsOff");
    assert("Toggles/Acc/SleevesOff"@.len() != "Toggles/Acc/LipRingsOff"@.len());
    reveal_strlit("Toggles/Acc/EarringsOff");
    assert("Toggles/Acc/SleevesOff"@.len() != "Toggles/Acc/EarringsOff"@.len());
    reveal_strlit("Hair/ShortOn");
    assert("Toggles/Acc/SleevesOff"@.len() != "Hair/ShortOn"@.len());
    reveal_strlit("Hair/PonyOn");
    assert("Toggles/Acc/SleevesOff"@.len() != "Hair/PonyOn"@.len());
    reveal_strlit("Hair/LongOn");
    assert("Toggles/Acc/SleevesOff"@.len() != "Hair/LongOn"@.len());
    reveal_strlit("Nails/Normal");
    assert("Toggles/Acc/SleevesOff"@.len() != "Nails/Normal"@.len());
    reveal_strlit("Nails/Square");
    assert("Toggles/Acc/SleevesOff"@.len() != "Nails/Square"@.len());
    reveal_strlit("Nails/Almond");
    assert("Toggles/Acc/SleevesOff"@.len() != "Nails/Almond"@.len());
    reveal_strlit("Nails/Longer");
    assert("Toggles/Acc/SleevesOff"@.len() != "Nails/Longer"@.len());
    reveal_strlit("Nails/Stilletto");
    assert("Toggles/Acc/SleevesOff"@.len() != "Nails/Stilletto"@.len());
    reveal_strlit("Mat/Hue");
    assert("Toggles/Acc/SleevesOff"@.len() != "Mat/Hue"@.len());
    reveal_strlit("Mat/Colors/HairHue");
    assert("Toggles/Acc/SleevesOff"@.len() != "Mat/Colors/HairHue"@.len());
    reveal_strlit("Mat/Colors/HairColored");
    assert("Toggles/Acc/SleevesOff"@[0] != "Mat/Colors/HairColored"@[0]);
    reveal_strlit("Mat/Cyberpunk");
    assert("Toggles/Acc/SleevesOff"@.len() != "Mat/Cyberpunk"@.len());
    reveal_strlit("Mat/HairBlack");
    assert("Toggles/Acc/SleevesOff"@.len() != "Mat/HairBlack"@.len());
    reveal_strlit("Mat/HairWhite");
    assert("Toggles/Acc/SleevesOff"@.len() != "Mat/HairWhite"@.len());
    reveal_strlit("Mat/HairBlonde");
    assert("Toggles/Acc/SleevesOff"@.len() != "Mat/HairBlonde"@.len());
    reveal_strlit("Mat/Monochromatic");
    assert("Toggles/Acc/SleevesOff"@.len() != "Mat/Monochromatic"@.len());
    reveal_strlit("Mat/AudioLink");
    assert("Toggles/Acc/SleevesOff"@.len() != "Mat/AudioLink"@.len());
    reveal_strlit("Mat/Colors/AssPantsDark");
    assert("Toggles/Acc/SleevesOff"@.len() != "Mat/Colors/AssPantsDark"@.len());
    reveal_strlit("Mat/Colors/BackpackDark");
    assert("Toggles/Acc/SleevesOff"@.len() != "Mat/Colors/BackpackDark"@.len());
    reveal_strlit("Mat/Colors/BeanieDark");
    assert("Toggles/Acc/SleevesOff"@.len() != "Mat/Colors/BeanieDark"@.len());
    reveal_strlit("Mat/Colors/GlovesDark");
    assert("Toggles/Acc/SleevesOff"@.len() != "Mat/Colors/GlovesDark"@.len());
    reveal_strlit("Mat/Colors/HeadphonesDark");
    assert("Toggles/Acc/SleevesOff"@.len() != "Mat/Colors/HeadphonesDark"@.len());
    reveal_strlit("Mat/Colors/JacketDark");
    assert("Toggles/Acc/SleevesOff"@.len() != "Mat/Colors/JacketDark"@.len());
    reveal_strlit("Mat/Colors/MaskDark");
    assert("Toggles/Acc/SleevesOff"@.len() != "Mat/Colors/MaskDark"@.len());
    reveal_strlit("Mat/Colors/ShoeDark");
    assert("Toggles/Acc/SleevesOff"@.len() != "Mat/Colors/ShoeDark"@.len());
    reveal_strlit("Mat/Colors/SleevesDark");
    assert("Toggles/Acc/SleevesOff"@[0] != "Mat/Colors/SleevesDark"@[0]);
    reveal_strlit("Mat/Colors/SwimsuitDark");
    assert("Toggles/Acc/SleevesOff"@.len() != "Mat/Colors/SwimsuitDark"@.len());
    reveal_strlit("Mat/Colors/PantsDark");
    assert("Toggles/Acc/SleevesOff"@.len() != "Mat/Colors/PantsDark"@.len());
    reveal_strlit("Mat/Colors/SportsBraDark");
    assert("Toggles/Acc/SleevesOff"@.len() != "Mat/Colors/SportsBraDark"@.len());
    reveal_strlit("Mat/Colors/TankTopDark");
    assert("Toggles/Acc/SleevesOff"@[0] != "Mat/Colors/TankTopDark"@[0]);
    reveal_strlit("Mat/Colors/CropDark");
    assert("Toggles/Acc/SleevesOff"@.len() != "Mat/Colors/CropDark"@.len());
}

proof fn lemma_distinct_from_later_13()
    ensures
        "Toggles/Acc/HolotagArmOff"@ != "Toggles/Acc/HolotagThighOff"@,
        "Toggles/Acc/HolotagArmOff"@ != "Toggles/Acc/RunningShoeOff"@,
        "Toggles/Acc/HolotagArmOff"@ != "Toggles/Bottoms/PantiesOn"@,
        "Toggles/Acc/HolotagArmOff"@ != "Toggles/Bottoms/AssPantsOn"@,
        "Toggles/Acc/HolotagArmOff"@ != "Toggles/Bottoms/PantsOn"@,
        "Toggles/Acc/HolotagArmOff"@ != "Toggles/Bottoms/NSFW"@,
        "Toggles/Acc/HolotagArmOff"@ != "Toggles/Acc/GlassesOff"@,
        "Toggles/Acc/HolotagArmOff"@ != "Toggles/Acc/BackpackOff"@,
        "Toggles/Acc/HolotagArmOff"@ != "Toggles/Acc/DogtagsOff"@,
        "Toggles/Acc/HolotagArmOff"@ != "Toggles/Acc/LipRingsOff"@,
        "Toggles/Acc/HolotagArmOff"@ != "Toggles/Acc/EarringsOff"@,
        "Toggles/Acc/HolotagArmOff"@ != "Hair/ShortOn"@,
        "Toggles/Acc/HolotagArmOff"@ != "Hair/PonyOn"@,
        "Toggles/Acc/HolotagArmOff"@ != "Hair/LongOn"@,
        "Toggles/Acc/HolotagArmOff"@ != "Nails/Normal"@,
        "Toggles/Acc/HolotagArmOff"@ != "Nails/Square"@,
        "Toggles/Acc/HolotagArmOff"@ != "Nails/Almond"@,
        "Toggles/Acc/HolotagArmOff"@ != "Nails/Longer"@,
        "Toggles/Acc/HolotagArmOff"@ != "Nails/Stilletto"@,
        "Toggles/Acc/HolotagArmOff"@ != "Mat/Hue"@,
        "Toggles/Acc/HolotagArmOff"@ != "Mat/Colors/HairHue"@,
        "Toggles/Acc/HolotagArmOff"@ != "Mat/Colors/HairColored"@,
        "Toggles/Acc/HolotagArmOff"@ != "Mat/Cyberpunk"@,
        "Toggles/Acc/HolotagArmOff"@ != "Mat/HairBlack"@,
        "Toggles/Acc/HolotagArmOff"@ != "Mat/HairWhite"@,
        "Toggles/Acc/HolotagArmOff"@ != "Mat/HairBlonde"@,
        "Toggles/Acc/HolotagArmOff"@ != "Mat/Monochromatic"@,
        "Toggles/Acc/HolotagArmOff"@ != "Mat/AudioLink"@,
        "Toggles/Acc/HolotagArmOff"@ != "Mat/Colors/AssPantsDark"@,
        "Toggles/Acc/HolotagArmOff"@ != "Mat/Colors/BackpackDark"@,
        "Toggles/Acc/HolotagArmOff"@ != "Mat/Colors/BeanieDark"@,
        "Toggles/Acc/HolotagArmOff"@ != "Mat/Colors/GlovesDark"@,
        "Toggles/Acc/HolotagArmOff"@ != "Mat/Colors/HeadphonesDark"@,
        "Toggles/Acc/HolotagArmOff"@ != "Mat/Colors/JacketDark"@,
        "Toggles/Acc/HolotagArmOff"@ != "Mat/Colors/MaskDark"@,
        "Toggles/Acc/HolotagArmOff"@ != "Mat/Colors/ShoeDark"@,
        "Toggles/Acc/HolotagArmOff"@ != "Mat/Colors/SleevesDark"@,
        "Toggles/Acc/HolotagArmOff"@ != "Mat/Colors/SwimsuitDark"@,
        "Toggles/Acc/HolotagArmOff"@ != "Mat/Colors/PantsDark"@,
        "Toggles/Acc/HolotagArmOff"@ != "Mat/Colors/SportsBraDark"@,
        "Toggles/Acc/HolotagArmOff"@ != "Mat/Colors/TankTopDark"@,
        "Toggles/Acc/HolotagArmOff"@ != "Mat/Colors/CropDark"@,
{
    reveal_strlit("Toggles/Acc/HolotagArmOff");
    reveal_strlit("Toggles/Acc/HolotagThighOff");
    assert("Toggles/Acc/HolotagArmOff"@.len() != "Toggles/Acc/HolotagThighOff"@.len());
    reveal_strlit("Toggles/Acc/RunningShoeOff");
    assert("Toggles/Acc/HolotagArmOff"@.len() != "Toggles/Acc/RunningShoeOff"@.len());
    reveal_strlit("Toggles/Bottoms/PantiesOn");
    assert("Toggles/Acc/HolotagArmOff"@[8] != "Toggles/Bottoms/PantiesOn"@[8]);
    reveal_strlit("Toggles/Bottoms/AssPantsOn");
    assert("Toggles/Acc/HolotagArmOff"@.len() != "Toggles/Bottoms/AssPantsOn"@.len());
    reveal_strlit("Toggles/Bottoms/PantsOn");
    assert("Toggles/Acc/HolotagArmOff"@.len() != "Toggles/Bottoms/PantsOn"@.len());
    reveal_strlit("Toggles/Bottoms/NSFW");
    assert("Toggles/Acc/HolotagArmOff"@.len() != "Toggles/Bottoms/NSFW"@.len());
    reveal_strlit("Toggles/Acc/GlassesOff");
    assert("Toggles/Acc/HolotagArmOff"@.len() != "Toggles/Acc/GlassesOff"@.len());
    reveal_strlit("Toggles/Acc/BackpackOff");
    assert("Toggles/Acc/HolotagArmOff"@.len() != "Toggles/Acc/BackpackOff"@.len());
    reveal_strlit("Toggles/Acc/DogtagsOff");
    assert("Toggles/Acc/HolotagArmOff"@.len() != "Toggles/Acc/DogtagsOff"@.len());
    reveal_strlit("Toggles/Acc/LipRingsOff");
    assert("Toggles/Acc/HolotagArmOff"@.len() != "Toggles/Acc/LipRingsOff"@.len());
    reveal_strlit("Toggles/Acc/EarringsOff");
    assert("Toggles/Acc/HolotagArmOff"@.len() != "Toggles/Acc/EarringsOff"@.len());
    reveal_strlit("Hair/ShortOn");
    assert("Toggles/Acc/HolotagArmOff"@.len() != "Hair/ShortOn"@.len());
    reveal_strlit("Hair/PonyOn");
    assert("Toggles/Acc/HolotagArmOff"@.len() != "Hair/PonyOn"@.len());
    reveal_strlit("Hair/LongOn");
    assert("Toggles/Acc/HolotagArmOff"@.len() != "Hair/LongOn"@.len());
    reveal_strlit("Nails/Normal");
    assert("Toggles/Acc/HolotagArmOff"@.len() != "Nails/Normal"@.len());
    reveal_strlit("Nails/Square");
    assert("Toggles/Acc/HolotagArmOff"@.len() != "Nails/Square"@.len());
    reveal_strlit("Nails/Almond");
    assert("Toggles/Acc/HolotagArmOff"@.len() != "Nails/Almond"@.len());
    reveal_strlit("Nails/Longer");
    assert("Toggles/Acc/HolotagArmOff"@.len() != "Nails/Longer"@.len());
    reveal_strlit("Nails/Stilletto");
    assert("Toggles/Acc/HolotagArmOff"@.len() != "Nails/Stilletto"@.len());
    reveal_strlit("Mat/Hue");
    assert("Toggles/Acc/HolotagArmOff"@.len() != "Mat/Hue"@.len());
    reveal_strlit("Mat/Colors/HairHue");
    assert("Toggles/Acc/HolotagArmOff"@.len() != "Mat/Colors/HairHue"@.len());
    reveal_strlit("Mat/Colors/HairColored");
    assert("Toggles/Acc/HolotagArmOff"@.len() != "Mat/Colors/HairColored"@.len());
    reveal_strlit("Mat/Cyberpunk");
    assert("Toggles/Acc/HolotagArmOff"@.len() != "Mat/Cyberpunk"@.len());
    reveal_strlit("Mat/HairBlack");
    assert("Toggles/Acc/HolotagArmOff"@.len() != "Mat/HairBlack"@.len());
    reveal_strlit("Mat/HairWhite");
    assert("Toggles/Acc/HolotagArmOff"@.len() != "Mat/HairWhite"@.len());
    reveal_strlit("Mat/HairBlonde");
    assert("Toggles/Acc/HolotagArmOff"@.len() != "Mat/HairBlonde"@.len());
    reveal_strlit("Mat/Monochromatic");
    assert("Toggles/Acc/HolotagArmOff"@.len() != "Mat/Monochromatic"@.len());
    reveal_strlit("Mat/AudioLink");
    assert("Toggles/Acc/HolotagArmOff"@.len() != "Mat/AudioLink"@.len());
    reveal_strlit("Mat/Colors/AssPantsDark");
    assert("Toggles/Acc/HolotagArmOff"@.len() != "Mat/Colors/AssPantsDark"@.len());
    reveal_strlit("Mat/Colors/BackpackDark");
    assert("Toggles/Acc/HolotagArmOff"@.len() != "Mat/Colors/BackpackDark"@.len());
    reveal_strlit("Mat/Colors/BeanieDark");
    assert("Toggles/Acc/HolotagArmOff"@.len() != "Mat/Colors/BeanieDark"@.len());
    reveal_strlit("Mat/Colors/GlovesDark");
    assert("Toggles/Acc/HolotagArmOff"@.len() != "Mat/Colors/GlovesDark"@.len());
    reveal_strlit("Mat/Colors/HeadphonesDark");
    assert("Toggles/Acc/HolotagArmOff"@[0] != "Mat/Colors/HeadphonesDark"@[0]);
    reveal_strlit("Mat/Colors/JacketDark");
    assert("Toggles/Acc/HolotagArmOff"@.len() != "Mat/Colors/JacketDark"@.len());
    reveal_strlit("Mat/Colors/MaskDark");
    assert("Toggles/Acc/HolotagArmOff"@.len() != "Mat/Colors/MaskDark"@.len());
    reveal_strlit("Mat/Colors/ShoeDark");
    assert("Toggles/Acc/HolotagArmOff"@.len() != "Mat/Colors/ShoeDark"@.len());
    reveal_strlit("Mat/Colors/SleevesDark");
    assert("Toggles/Acc/HolotagArmOff"@.len() != "Mat/Colors/SleevesDark"@.len());
    reveal_strlit("Mat/Colors/SwimsuitDark");
    assert("Toggles/Acc/HolotagArmOff"@.len() != "Mat/Colors/SwimsuitDark"@.len());
    reveal_strlit("Mat/Colors/PantsDark");
    assert("Toggles/Acc/HolotagArmOff"@.len() != "Mat/Colors/PantsDark"@.len());
    reveal_strlit("Mat/Colors/SportsBraDark");
    assert("Toggles/Acc/HolotagArmOff"@.len() != "Mat/Colors/SportsBraDark"@.len());
    reveal_strlit("Mat/Colors/TankTopDark");
    assert("Toggles/Acc/HolotagArmOff"@.len() != "Mat/Colors/TankTopDark"@.len());
    reveal_strlit("Mat/Colors/CropDark");
    assert("Toggles/Acc/HolotagArmOff"@.len() != "Mat/Colors/CropDark"@.len());
}

proof fn lemma_distinct_from_later_14()
    ensures
        "Toggles/Acc/HolotagThighOff"@ != "Toggles/Acc/RunningShoeOff"@,
        "Toggles/Acc/HolotagThighOff"@ != "Toggles/Bottoms/PantiesOn"@,
        "Toggles/Acc/HolotagThighOff"@ != "Toggles/Bottoms/AssPantsOn"@,
        "Toggles/Acc/HolotagThighOff"@ != "Toggles/Bottoms/PantsOn"@,
        "Toggles/Acc/HolotagThighOff"@ != "Toggles/Bottoms/NSFW"@,
        "Toggles/Acc/HolotagThighOff"@ != "Toggles/Acc/GlassesOff"@,
        "Toggles/Acc/HolotagThighOff"@ != "Toggles/Acc/BackpackOff"@,
        "Toggles/Acc/HolotagThighOff"@ != "Toggles/Acc/DogtagsOff"@,
        "Toggles/Acc/HolotagThighOff"@ != "Toggles/Acc/LipRingsOff"@,
        "Toggles/Acc/HolotagThighOff"@ != "Toggles/Acc/EarringsOff"@,
        "Toggles/Acc/HolotagThighOff"@ != "Hair/ShortOn"@,
        "Toggles/Acc/HolotagThighOff"@ != "Hair/PonyOn"@,
        "Toggles/Acc/HolotagThighOff"@ != "Hair/LongOn"@,
        "Toggles/Acc/HolotagThighOff"@ != "Nails/Normal"@,
        "Toggles/Acc/HolotagThighOff"@ != "Nails/Square"@,
        "Toggles/Acc/HolotagThighOff"@ != "Nails/Almond"@,
        "Toggles/Acc/HolotagThighOff"@ != "Nails/Longer"@,
        "Toggles/Acc/HolotagThighOff"@ != "Nails/Stilletto"@,
        "Toggles/Acc/HolotagThighOff"@ != "Mat/Hue"@,
        "Toggles/Acc/HolotagThighOff"@ != "Mat/Colors/HairHue"@,
        "Toggles/Acc/HolotagThighOff"@ != "Mat/Colors/HairColored"@,
        "Toggles/Acc/HolotagThighOff"@ != "Mat/Cyberpunk"@,
        "Toggles/Acc/HolotagThighOff"@ != "Mat/HairBlack"@,
        "Toggles/Acc/HolotagThighOff"@ != "Mat/HairWhite"@,
        "Toggles/Acc/HolotagThighOff"@ != "Mat/HairBlonde"@,
        "Toggles/Acc/HolotagThighOff"@ != "Mat/Monochromatic"@,
        "Toggles/Acc/HolotagThighOff"@ != "Mat/AudioLink"@,
        "Toggles/Acc/HolotagThighOff"@ != "Mat/Colors/AssPantsDark"@,
        "Toggles/Acc/HolotagThighOff"@ != "Mat/Colors/BackpackDark"@,
        "Toggles/Acc/HolotagThighOff"@ != "Mat/Colors/BeanieDark"@,
        "Toggles/Acc/HolotagThighOff"@ != "Mat/Colors/GlovesDark"@,
        "Toggles/Acc/HolotagThighOff"@ != "Mat/Colors/HeadphonesDark"@,
        "Toggles/Acc/HolotagThighOff"@ != "Mat/Colors/JacketDark"@,
        "Toggles/Acc/HolotagThighOff"@ != "Mat/Colors/MaskDark"@,
        "Toggles/Acc/HolotagThighOff"@ != "Mat/Colors/ShoeDark"@,
        "Toggles/Acc/HolotagThighOff"@ != "Mat/Colors/SleevesDark"@,
        "Toggles/Acc/HolotagThighOff"@ != "Mat/Colors/SwimsuitDark"@,
        "Toggles/Acc/HolotagThighOff"@ != "Mat/Colors/PantsDark"@,
        "Toggles/Acc/HolotagThighOff"@ != "Mat/Colors/SportsBraDark"@,
        "Toggles/Acc/HolotagThighOff"@ != "Mat/Colors/TankTopDark"@,
        "Toggles/Acc/HolotagThighOff"@ != "Mat/Colors/CropDark"@,
{
    reveal_strlit("Toggles/Acc/HolotagThighOff");
    reveal_strlit("Toggles/Acc/RunningShoeOff");
    assert("Toggles/Acc/HolotagThighOff"@.len() != "Toggles/Acc/RunningShoeOff"@.len());
    reveal_strlit("Toggles/Bottoms/PantiesOn");
    assert("Toggles/Acc/HolotagThighOff"@.len() != "Toggles/Bottoms/PantiesOn"@.len());
    reveal_strlit("Toggles/Bottoms/AssPantsOn");
    assert("Toggles/Acc/HolotagThighOff"@.len() != "Toggles/Bottoms/AssPantsOn"@.len());
    reveal_strlit("Toggles/Bottoms/PantsOn");
    assert("Toggles/Acc/HolotagThighOff"@.len() != "Toggles/Bottoms/PantsOn"@.len());
    reveal_strlit("Toggles/Bottoms/NSFW");
    assert("Toggles/Acc/HolotagThighOff"@.len() != "Toggles/Bottoms/NSFW"@.len());
    reveal_strlit("Toggles/Acc/GlassesOff");
    assert("Toggles/Acc/HolotagThighOff"@.len() != "Toggles/Acc/GlassesOff"@.len());
    reveal_strlit("Toggles/Acc/BackpackOff");
    assert("Toggles/Acc/HolotagThighOff"@.len() != "Toggles/Acc/BackpackOff"@.len());
    reveal_strlit("Toggles/Acc/DogtagsOff");
    assert("Toggles/Acc/HolotagThighOff"@.len() != "Toggles/Acc/DogtagsOff"@.len());
    reveal_strlit("Toggles/Acc/LipRingsOff");
    assert("Toggles/Acc/HolotagThighOff"@.len() != "Toggles/Acc/LipRingsOff"@.len());
    reveal_strlit("Toggles/Acc/EarringsOff");
    assert("Toggles/Acc/HolotagThighOff"@.len() != "Toggles/Acc/EarringsOff"@.len());
    reveal_strlit("Hair/ShortOn");
    assert("Toggles/Acc/HolotagThighOff"@.len() != "Hair/ShortOn"@.len());
    reveal_strlit("Hair/PonyOn");
    assert("Toggles/Acc/HolotagThighOff"@.len() != "Hair/PonyOn"@.len());
    reveal_strlit("Hair/LongOn");
    assert("Toggles/Acc/HolotagThighOff"@.len() != "Hair/LongOn"@.len());
    reveal_strlit("Nails/Normal");
    assert("Toggles/Acc/HolotagThighOff"@.len() != "Nails/Normal"@.len());
    reveal_strlit("Nails/Square");
    assert("Toggles/Acc/HolotagThighOff"@.len() != "Nails/Square"@.len());
    reveal_strlit("Nails/Almond");
    assert("Toggles/Acc/HolotagThighOff"@.len() != "Nails/Almond"@.len());
    reveal_strlit("Nails/Longer");
    assert("Toggles/Acc/HolotagThighOff"@.len() != "Nails/Longer"@.len());
    reveal_strlit("Nails/Stilletto");
    assert("Toggles/Acc/HolotagThighOff"@.len() != "Nails/Stilletto"@.len());
    reveal_strlit("Mat/Hue");
    assert("Toggles/Acc/HolotagThighOff"@.len() != "Mat/Hue"@.len());
    reveal_strlit("Mat/Colors/HairHue");
    assert("Toggles/Acc/HolotagThighOff"@.len() != "Mat/Colors/HairHue"@.len());
    reveal_strlit("Mat/Colors/HairColored");
    assert("Toggles/Acc/HolotagThighOff"@.len() != "Mat/Colors/HairColored"@.len());
    reveal_strlit("Mat/Cyberpunk");
    assert("Toggles/Acc/HolotagThighOff"@.len() != "Mat/Cyberpunk"@.len());
    reveal_strlit("Mat/HairBlack");
    assert("Toggles/Acc/HolotagThighOff"@.len() != "Mat/HairBlack"@.len());
    reveal_strlit("Mat/HairWhite");
    assert("Toggles/Acc/HolotagThighOff"@.len() != "Mat/HairWhite"@.len());
    reveal_strlit("Mat/HairBlonde");
    assert("Toggles/Acc/HolotagThighOff"@.len() != "Mat/HairBlonde"@.len());
    reveal_strlit("Mat/Monochromatic");
    assert("Toggles/Acc/HolotagThighOff"@.len() != "Mat/Monochromatic"@.len());
    reveal_strlit("Mat/AudioLink");
    assert("Toggles/Acc/HolotagThighOff"@.len() != "Mat/AudioLink"@.len());
    reveal_strlit("Mat/Colors/AssPantsDark");
    assert("Toggles/Acc/HolotagThighOff"@.len() != "Mat/Colors/AssPantsDark"@.len());
    reveal_strlit("Mat/Colors/BackpackDark");
    assert("Toggles/Acc/HolotagThighOff"@.len() != "Mat/Colors/BackpackDark"@.len());
    reveal_strlit("Mat/Colors/BeanieDark");
    assert("Toggles/Acc/HolotagThighOff"@.len() != "Mat/Colors/BeanieDark"@.len());
    reveal_strlit("Mat/Colors/GlovesDark");
    assert("Toggles/Acc/HolotagThighOff"@.len() != "Mat/Colors/GlovesDark"@.len());
    reveal_strlit("Mat/Colors/HeadphonesDark");
    assert("Toggles/Acc/HolotagThighOff"@.len() != "Mat/Colors/HeadphonesDark"@.len());
    reveal_strlit("Mat/Colors/JacketDark");
    assert("Toggles/Acc/HolotagThighOff"@.len() != "Mat/Colors/JacketDark"@.len());
    reveal_strlit("Mat/Colors/MaskDark");
    assert("Toggles/Acc/HolotagThighOff"@.len() != "Mat/Colors/MaskDark"@.len());
    reveal_strlit("Mat/Colors/ShoeDark");
    assert("Toggles/Acc/HolotagThighOff"@.len() != "Mat/Colors/ShoeDark"@.len());
    reveal_strlit("Mat/Colors/SleevesDark");
    assert("Toggles/Acc/HolotagThighOff"@.len() != "Mat/Colors/SleevesDark"@.len());
    reveal_strlit("Mat/Colors/SwimsuitDark");
    assert("Toggles/Acc/HolotagThighOff"@.len() != "Mat/Colors/SwimsuitDark"@.len());
    reveal_strlit("Mat/Colors/PantsDark");
    assert("Toggles/Acc/HolotagThighOff"@.len() != "Mat/Colors/PantsDark"@.len());
    reveal_strlit("Mat/Colors/SportsBraDark");
    assert("Toggles/Acc/HolotagThighOff"@.len() != "Mat/Colors/SportsBraDark"@.len());
    reveal_strlit("Mat/Colors/TankTopDark");
    assert("Toggles/Acc/HolotagThighOff"@.len() != "Mat/Colors/TankTopDark"@.len());
    reveal_strlit("Mat/Colors/CropDark");
    assert("Toggles/Acc/HolotagThighOff"@.len() != "Mat/Colors/CropDark"@.len());
}

proof fn lemma_distinct_from_later_15()
    ensures
        "Toggles/Acc/RunningShoeOff"@ != "Toggles/Bottoms/PantiesOn"@,
        "Toggles/Acc/RunningShoeOff"@ != "Toggles/Bottoms/AssPantsOn"@,
        "Toggles/Acc/RunningShoeOff"@ != "Toggles/Bottoms/PantsOn"@,
        "Toggles/Acc/RunningShoeOff"@ != "Toggles/Bottoms/NSFW"@,
        "Toggles/Acc/RunningShoeOff"@ != "Toggles/Acc/GlassesOff"@,
        "Toggles/Acc/RunningShoeOff"@ != "Toggles/Acc/BackpackOff"@,
        "Toggles/Acc/RunningShoeOff"@ != "Toggles/Acc/DogtagsOff"@,
        "Toggles/Acc/RunningShoeOff"@ != "Toggles/Acc/LipRingsOff"@,
        "Toggles/Acc/RunningShoeOff"@ != "Toggles/Acc/EarringsOff"@,
        "Toggles/Acc/RunningShoeOff"@ != "Hair/ShortOn"@,
        "Toggles/Acc/RunningShoeOff"@ != "Hair/PonyOn"@,
        "Toggles/Acc/RunningShoeOff"@ != "Hair/LongOn"@,
        "Toggles/Acc/RunningShoeOff"@ != "Nails/Normal"@,
        "Toggles/Acc/RunningShoeOff"@ != "Nails/Square"@,
        "Toggles/Acc/RunningShoeOff"@ != "Nails/Almond"@,
        "Toggles/Acc/RunningShoeOff"@ != "Nails/Longer"@,
        "Toggles/Acc/RunningShoeOff"@ != "Nails/Stilletto"@,
        "Toggles/Acc/RunningShoeOff"@ != "Mat/Hue"@,
        "Toggles/Acc/RunningShoeOff"@ != "Mat/Colors/HairHue"@,
        "Toggles/Acc/RunningShoeOff"@ != "Mat/Colors/HairColored"@,
        "Toggles/Acc/RunningShoeOff"@ != "Mat/Cyberpunk"@,
        "Toggles/Acc/RunningShoeOff"@ != "Mat/HairBlack"@,
        "Toggles/Acc/RunningShoeOff"@ != "Mat/HairWhite"@,
        "Toggles/Acc/RunningShoeOff"@ != "Mat/HairBlonde"@,
        "Toggles/Acc/RunningShoeOff"@ != "Mat/Monochromatic"@,
        "Toggles/Acc/RunningShoeOff"@ != "Mat/AudioLink"@,
        "Toggles/Acc/RunningShoeOff"@ != "Mat/Colors/AssPantsDark"@,
        "Toggles/Acc/RunningShoeOff"@ != "Mat/Colors/BackpackDark"@,
        "Toggles/Acc/RunningShoeOff"@ != "Mat/Colors/BeanieDark"@,
        "Toggles/Acc/RunningShoeOff"@ != "Mat/Colors/GlovesDark"@,
        "Toggles/Acc/RunningShoeOff"@ != "Mat/Colors/HeadphonesDark"@,
        "Toggles/Acc/RunningShoeOff"@ != "Mat/Colors/JacketDark"@,
        "Toggles/Acc/RunningShoeOff"@ != "Mat/Colors/MaskDark"@,
        "Toggles/Acc/RunningShoeOff"@ != "Mat/Colors/ShoeDark"@,
        "Toggles/Acc/RunningShoeOff"@ != "Mat/Colors/SleevesDark"@,
        "Toggles/Acc/RunningShoeOff"@ != "Mat/Colors/SwimsuitDark"@,
        "Toggles/Acc/RunningShoeOff"@ != "Mat/Colors/PantsDark"@,
        "Toggles/Acc/RunningShoeOff"@ != "Mat/Colors/SportsBraDark"@,
        "Toggles/Acc/RunningShoeOff"@ != "Mat/Colors/TankTopDark"@,
        "Toggles/Acc/RunningShoeOff"@ != "Mat/Colors/CropDark"@,
{
    reveal_strlit("Toggles/Acc/RunningShoeOff");
    reveal_strlit("Toggles/Bottoms/PantiesOn");
    assert("Toggles/Acc/RunningShoeOff"@.len() != "Toggles/Bottoms/PantiesOn"@.len());
    reveal_strlit("Toggles/Bottoms/AssPantsOn");
    assert("Toggles/Acc/RunningShoeOff"@[8] != "Toggles/Bottoms/AssPantsOn"@[8]);
    reveal_strlit("Toggles/Bottoms/PantsOn");
    assert("Toggles/Acc/RunningShoeOff"@.len() != "Toggles/Bottoms/PantsOn"@.len());
    reveal_strlit("Toggles/Bottoms/NSFW");
    assert("Toggles/Acc/RunningShoeOff"@.len() != "Toggles/Bottoms/NSFW"@.len());
    reveal_strlit("Toggles/Acc/GlassesOff");
    assert("Toggles/Acc/RunningShoeOff"@.len() != "Toggles/Acc/GlassesOff"@.len());
    reveal_strlit("Toggles/Acc/BackpackOff");
    assert("Toggles/Acc/RunningShoeOff"@.len() != "Toggles/Acc/BackpackOff"@.len());
    reveal_strlit("Toggles/Acc/DogtagsOff");
    assert("Toggles/Acc/RunningShoeOff"@.len() != "Toggles/Acc/DogtagsOff"@.len());
    reveal_strlit("Toggles/Acc/LipRingsOff");
    assert("Toggles/Acc/RunningShoeOff"@.len() != "Toggles/Acc/LipRingsOff"@.len());
    reveal_strlit("Toggles/Acc/EarringsOff");
    assert("Toggles/Acc/RunningShoeOff"@.len() != "Toggles/Acc/EarringsOff"@.len());
    reveal_strlit("Hair/ShortOn");
    assert("Toggles/Acc/RunningShoeOff"@.len() != "Hair/ShortOn"@.len());
    reveal_strlit("Hair/PonyOn");
    assert("Toggles/Acc/RunningShoeOff"@.len() != "Hair/PonyOn"@.len());
    reveal_strlit("Hair/LongOn");
    assert("Toggles/Acc/RunningShoeOff"@.len() != "Hair/LongOn"@.len());
    reveal_strlit("Nails/Normal");
    assert("Toggles/Acc/RunningShoeOff"@.len() != "Nails/Normal"@.len());
    reveal_strlit("Nails/Square");
    assert("Toggles/Acc/RunningShoeOff"@.len() != "Nails/Square"@.len());
    reveal_strlit("Nails/Almond");
    assert("Toggles/Acc/RunningShoeOff"@.len() != "Nails/Almond"@.len());
    reveal_strlit("Nails/Longer");
    assert("Toggles/Acc/RunningShoeOff"@.len() != "Nails/Longer"@.len());
    reveal_strlit("Nails/Stilletto");
    assert("Toggles/Acc/RunningShoeOff"@.len() != "Nails/Stilletto"@.len());
    reveal_strlit("Mat/Hue");
    assert("Toggles/Acc/RunningShoeOff"@.len() != "Mat/Hue"@.len());
    reveal_strlit("Mat/Colors/HairHue");
    assert("Toggles/Acc/RunningShoeOff"@.len() != "Mat/Colors/HairHue"@.len());
    reveal_strlit("Mat/Colors/HairColored");
    assert("Toggles/Acc/RunningShoeOff"@.len() != "Mat/Colors/HairColored"@.len());
    reveal_strlit("Mat/Cyberpunk");
    assert("Toggles/Acc/RunningShoeOff"@.len() != "Mat/Cyberpunk"@.len());
    reveal_strlit("Mat/HairBlack");
    assert("Toggles/Acc/RunningShoeOff"@.len() != "Mat/HairBlack"@.len());
    reveal_strlit("Mat/HairWhite");
    assert("Toggles/Acc/RunningShoeOff"@.len() != "Mat/HairWhite"@.len());
    reveal_strlit("Mat/HairBlonde");
    assert("Toggles/Acc/RunningShoeOff"@.len() != "Mat/HairBlonde"@.len());
    reveal_strlit("Mat/Monochromatic");
    assert("Toggles/Acc/RunningShoeOff"@.len() != "Mat/Monochromatic"@.len());
    reveal_strlit("Mat/AudioLink");
    assert("Toggles/Acc/RunningShoeOff"@.len() != "Mat/AudioLink"@.len());
    reveal_strlit("Mat/Colors/AssPantsDark");
    assert("Toggles/Acc/RunningShoeOff"@.len() != "Mat/Colors/AssPantsDark"@.len());
    reveal_strlit("Mat/Colors/BackpackDark");
    assert("Toggles/Acc/RunningShoeOff"@.len() != "Mat/Colors/BackpackDark"@.len());
    reveal_strlit("Mat/Colors/BeanieDark");
    assert("Toggles/Acc/RunningShoeOff"@.len() != "Mat/Colors/BeanieDark"@.len());
    reveal_strlit("Mat/Colors/GlovesDark");
    assert("Toggles/Acc/RunningShoeOff"@.len() != "Mat/Colors/GlovesDark"@.len());
    reveal_strlit("Mat/Colors/HeadphonesDark");
    assert("Toggles/Acc/RunningShoeOff"@.len() != "Mat/Colors/HeadphonesDark"@.len());
    reveal_strlit("Mat/Colors/JacketDark");
    assert("Toggles/Acc/RunningShoeOff"@.len() != "Mat/Colors/JacketDark"@.len());
    reveal_strlit("Mat/Colors/MaskDark");
    assert("Toggles/Acc/RunningShoeOff"@.len() != "Mat/Colors/MaskDark"@.len());
    reveal_strlit("Mat/Colors/ShoeDark");
    assert("Toggles/Acc/RunningShoeOff"@.len() != "Mat/Colors/ShoeDark"@.len());
    reveal_strlit("Mat/Colors/SleevesDark");
    assert("Toggles/Acc/RunningShoeOff"@.len() != "Mat/Colors/SleevesDark"@.len());
    reveal_strlit("Mat/Colors/SwimsuitDark");
    assert("Toggles/Acc/RunningShoeOff"@.len() != "Mat/Colors/SwimsuitDark"@.len());
    reveal_strlit("Mat/Colors/PantsDark");
    assert("Toggles/Acc/RunningShoeOff"@.len() != "Mat/Colors/PantsDark"@.len());
    reveal_strlit("Mat/Colors/SportsBraDark");
    assert("Toggles/Acc/RunningShoeOff"@.len() != "Mat/Colors/SportsBraDark"@.len());
    reveal_strlit("Mat/Colors/TankTopDark");
    assert("Toggles/Acc/RunningShoeOff"@.len() != "Mat/Colors/TankTopDark"@.len());
    reveal_strlit("Mat/Colors/CropDark");
    assert("Toggles/Acc/RunningShoeOff"@.len() != "Mat/Colors/CropDark"@.len());
}

proof fn lemma_distinct_from_later_16()
    ensures
        "Toggles/Bottoms/PantiesOn"@ != "Toggles/Bottoms/AssPantsOn"@,
        "Toggles/Bottoms/PantiesOn"@ != "Toggles/Bottoms/PantsOn"@,
        "Toggles/Bottoms/PantiesOn"@ != "Toggles/Bottoms/NSFW"@,
        "Toggles/Bottoms/PantiesOn"@ != "Toggles/Acc/GlassesOff"@,
        "Toggles/Bottoms/PantiesOn"@ != "Toggles/Acc/BackpackOff"@,
        "Toggles/Bottoms/PantiesOn"@ != "Toggles/Acc/DogtagsOff"@,
        "Toggles/Bottoms/PantiesOn"@ != "Toggles/Acc/LipRingsOff"@,
        "Toggles/Bottoms/PantiesOn"@ != "Toggles/Acc/EarringsOff"@,
        "Toggles/Bottoms/PantiesOn"@ != "Hair/ShortOn"@,
        "Toggles/Bottoms/PantiesOn"@ != "Hair/PonyOn"@,
        "Toggles/Bottoms/PantiesOn"@ != "Hair/LongOn"@,
        "Toggles/Bottoms/PantiesOn"@ != "Nails/Normal"@,
        "Toggles/Bottoms/PantiesOn"@ != "Nails/Square"@,
        "Toggles/Bottoms/PantiesOn"@ != "Nails/Almond"@,
        "Toggles/Bottoms/PantiesOn"@ != "Nails/Longer"@,
        "Toggles/Bottoms/PantiesOn"@ != "Nails/Stilletto"@,
        "Toggles/Bottoms/PantiesOn"@ != "Mat/Hue"@,
        "Toggles/Bottoms/PantiesOn"@ != "Mat/Colors/HairHue"@,
        "Toggles/Bottoms/PantiesOn"@ != "Mat/Colors/HairColored"@,
        "Toggles/Bottoms/PantiesOn"@ != "Mat/Cyberpunk"@,
        "Toggles/Bottoms/PantiesOn"@ != "Mat/HairBlack"@,
        "Toggles/Bottoms/PantiesOn"@ != "Mat/HairWhite"@,
        "Toggles/Bottoms/PantiesOn"@ != "Mat/HairBlonde"@,
        "Toggles/Bottoms/PantiesOn"@ != "Mat/Monochromatic"@,
        "Toggles/Bottoms/PantiesOn"@ != "Mat/AudioLink"@,
        "Toggles/Bottoms/PantiesOn"@ != "Mat/Colors/AssPantsDark"@,
        "Toggles/Bottoms/PantiesOn"@ != "Mat/Colors/BackpackDark"@,
        "Toggles/Bottoms/PantiesOn"@ != "Mat/Colors/BeanieDark"@,
        "Toggles/Bottoms/PantiesOn"@ != "Mat/Colors/GlovesDark"@,
        "Toggles/Bottoms/PantiesOn"@ != "Mat/Colors/HeadphonesDark"@,
        "Toggles/Bottoms/PantiesOn"@ != "Mat/Colors/JacketDark"@,
        "Toggles/Bottoms/PantiesOn"@ != "Mat/Colors/MaskDark"@,
        "Toggles/Bottoms/PantiesOn"@ != "Mat/Colors/ShoeDark"@,
        "Toggles/Bottoms/PantiesOn"@ != "Mat/Colors/SleevesDark"@,
        "Toggles/Bottoms/PantiesOn"@ != "Mat/Colors/SwimsuitDark"@,
        "Toggles/Bottoms/PantiesOn"@ != "Mat/Colors/PantsDark"@,
        "Toggles/Bottoms/PantiesOn"@ != "Mat/Colors/SportsBraDark"@,
        "Toggles/Bottoms/PantiesOn"@ != "Mat/Colors/TankTopDark"@,
        "Toggles/Bottoms/PantiesOn"@ != "Mat/Colors/CropDark"@,
{
    reveal_strlit("Toggles/Bottoms/PantiesOn");
    reveal_strlit("Toggles/Bottoms/AssPantsOn");
    assert("Toggles/Bottoms/PantiesOn"@.len() != "Toggles/Bottoms/AssPantsOn"@.len());
    reveal_strlit("Toggles/Bottoms/PantsOn");
    assert("Toggles/Bottoms/PantiesOn"@.len() != "Toggles/Bottoms/PantsOn"@.len());
    reveal_strlit("Toggles/Bottoms/NSFW");
    assert("Toggles/Bottoms/PantiesOn"@.len() != "Toggles/Bottoms/NSFW"@.len());
    reveal_strlit("Toggles/Acc/GlassesOff");
    assert("Toggles/Bottoms/PantiesOn"@.len() != "Toggles/Acc/GlassesOff"@.len());
    reveal_strlit("Toggles/Acc/BackpackOff");
    assert("Toggles/Bottoms/PantiesOn"@.len() != "Toggles/Acc/BackpackOff"@.len());
    reveal_strlit("Toggles/Acc/DogtagsOff");
    assert("Toggles/Bottoms/PantiesOn"@.len() != "Toggles/Acc/DogtagsOff"@.len());
    reveal_strlit("Toggles/Acc/LipRingsOff");
    assert("Toggles/Bottoms/PantiesOn"@.len() != "Toggles/Acc/LipRingsOff"@.len());
    reveal_strlit("Toggles/Acc/EarringsOff");
    assert("Toggles/Bottoms/PantiesOn"@.len() != "Toggles/Acc/EarringsOff"@.len());
    reveal_strlit("Hair/ShortOn");
    assert("Toggles/Bottoms/PantiesOn"@.len() != "Hair/ShortOn"@.len());
    reveal_strlit("Hair/PonyOn");
    assert("Toggles/Bottoms/PantiesOn"@.len() != "Hair/PonyOn"@.len());
    reveal_strlit("Hair/LongOn");
    assert("Toggles/Bottoms/PantiesOn"@.len() != "Hair/LongOn"@.len());
    reveal_strlit("Nails/Normal");
    assert("Toggles/Bottoms/PantiesOn"@.len() != "Nails/Normal"@.len());
    reveal_strlit("Nails/Square");
    assert("Toggles/Bottoms/PantiesOn"@.len() != "Nails/Square"@.len());
    reveal_strlit("Nails/Almond");
    assert("Toggles/Bottoms/PantiesOn"@.len() != "Nails/Almond"@.len());
    reveal_strlit("Nails/Longer");
    assert("Toggles/Bottoms/PantiesOn"@.len() != "Nails/Longer"@.len());
    reveal_strlit("Nails/Stilletto");
    assert("Toggles/Bottoms/PantiesOn"@.len() != "Nails/Stilletto"@.len());
    reveal_strlit("Mat/Hue");
    assert("Toggles/Bottoms/PantiesOn"@.len() != "Mat/Hue"@.len());
    reveal_strlit("Mat/Colors/HairHue");
    assert("Toggles/Bottoms/PantiesOn"@.len() != "Mat/Colors/HairHue"@.len());
    reveal_strlit("Mat/Colors/HairColored");
    assert("Toggles/Bottoms/PantiesOn"@.len() != "Mat/Colors/HairColored"@.len());
    reveal_strlit("Mat/Cyberpunk");
    assert("Toggles/Bottoms/PantiesOn"@.len() != "Mat/Cyberpunk"@.len());
    reveal_strlit("Mat/HairBlack");
    assert("Toggles/Bottoms/PantiesOn"@.len() != "Mat/HairBlack"@.len());
    reveal_strlit("Mat/HairWhite");
    assert("Toggles/Bottoms/PantiesOn"@.len() != "Mat/HairWhite"@.len());
    reveal_strlit("Mat/HairBlonde");
    assert("Toggles/Bottoms/PantiesOn"@.len() != "Mat/HairBlonde"@.len());
    reveal_strlit("Mat/Monochromatic");
    assert("Toggles/Bottoms/PantiesOn"@.len() != "Mat/Monochromatic"@.len());
    reveal_strlit("Mat/AudioLink");
    assert("Toggles/Bottoms/PantiesOn"@.len() != "Mat/AudioLink"@.len());
    reveal_strlit("Mat/Colors/AssPantsDark");
    assert("Toggles/Bottoms/PantiesOn"@.len() != "Mat/Colors/AssPantsDark"@.len());
    reveal_strlit("Mat/Colors/BackpackDark");
    assert("Toggles/Bottoms/PantiesOn"@.len() != "Mat/Colors/BackpackDark"@.len());
    reveal_strlit("Mat/Colors/BeanieDark");
    assert("Toggles/Bottoms/PantiesOn"@.len() != "Mat/Colors/BeanieDark"@.len());
    reveal_strlit("Mat/Colors/GlovesDark");
    assert("Toggles/Bottoms/PantiesOn"@.len() != "Mat/Colors/GlovesDark"@.len());
    reveal_strlit("Mat/Colors/HeadphonesDark");
    assert("Toggles/Bottoms/PantiesOn"@[0] != "Mat/Colors/HeadphonesDark"@[0]);
    reveal_strlit("Mat/Colors/JacketDark");
    assert("Toggles/Bottoms/PantiesOn"@.len() != "Mat/Colors/JacketDark"@.len());
    reveal_strlit("Mat/Colors/MaskDark");
    assert("Toggles/Bottoms/PantiesOn"@.len() != "Mat/Colors/MaskDark"@.len());
    reveal_strlit("Mat/Colors/ShoeDark");
    assert("Toggles/Bottoms/PantiesOn"@.len() != "Mat/Colors/ShoeDark"@.len());
    reveal_strlit("Mat/Colors/SleevesDark");
    assert("Toggles/Bottoms/PantiesOn"@.len() != "Mat/Colors/SleevesDark"@.len());
    reveal_strlit("Mat/Colors/SwimsuitDark");
    assert("Toggles/Bottoms/PantiesOn"@.len() != "Mat/Colors/SwimsuitDark"@.len());
    reveal_strlit("Mat/Colors/PantsDark");
    assert("Toggles/Bottoms/PantiesOn"@.len() != "Mat/Colors/PantsDark"@.len());
    reveal_strlit("Mat/Colors/SportsBraDark");
    assert("Toggles/Bottoms/PantiesOn"@.len() != "Mat/Colors/SportsBraDark"@.len());
    reveal_strlit("Mat/Colors/TankTopDark");
    assert("Toggles/Bottoms/PantiesOn"@.len() != "Mat/Colors/TankTopDark"@.len());
    reveal_strlit("Mat/Colors/CropDark");
    assert("Toggles/Bottoms/PantiesOn"@.len() != "Mat/Colors/CropDark"@.len());
}

proof fn lemma_distinct_from_later_17()
    ensures
        "Toggles/Bottoms/AssPantsOn"@ != "Toggles/Bottoms/PantsOn"@,
        "Toggles/Bottoms/AssPantsOn"@ != "Toggles/Bottoms/NSFW"@,
        "Toggles/Bottoms/AssPantsOn"@ != "Toggles/Acc/GlassesOff"@,
        "Toggles/Bottoms/AssPantsOn"@ != "Toggles/Acc/BackpackOff"@,
        "Toggles/Bottoms/AssPantsOn"@ != "Toggles/Acc/DogtagsOff"@,
        "Toggles/Bottoms/AssPantsOn"@ != "Toggles/Acc/LipRingsOff"@,
        "Toggles/Bottoms/AssPantsOn"@ != "Toggles/Acc/EarringsOff"@,
        "Toggles/Bottoms/AssPantsOn"@ != "Hair/ShortOn"@,
        "Toggles/Bottoms/AssPantsOn"@ != "Hair/PonyOn"@,
        "Toggles/Bottoms/AssPantsOn"@ != "Hair/LongOn"@,
        "Toggles/Bottoms/AssPantsOn"@ != "Nails/Normal"@,
        "Toggles/Bottoms/AssPantsOn"@ != "Nails/Square"@,
        "Toggles/Bottoms/AssPantsOn"@ != "Nails/Almond"@,
        "Toggles/Bottoms/AssPantsOn"@ != "Nails/Longer"@,
        "Toggles/Bottoms/AssPantsOn"@ != "Nails/Stilletto"@,
        "Toggles/Bottoms/AssPantsOn"@ != "Mat/Hue"@,
        "Toggles/Bottoms/AssPantsOn"@ != "Mat/Colors/HairHue"@,
        "Toggles/Bottoms/AssPantsOn"@ != "Mat/Colors/HairColored"@,
        "Toggles/Bottoms/AssPantsOn"@ != "Mat/Cyberpunk"@,
        "Toggles/Bottoms/AssPantsOn"@ != "Mat/HairBlack"@,
        "Toggles/Bottoms/AssPantsOn"@ != "Mat/HairWhite"@,
        "Toggles/Bottoms/AssPantsOn"@ != "Mat/HairBlonde"@,
        "Toggles/Bottoms/AssPantsOn"@ != "Mat/Monochromatic"@,
        "Toggles/Bottoms/AssPantsOn"@ != "Mat/AudioLink"@,
        "Toggles/Bottoms/AssPantsOn"@ != "Mat/Colors/AssPantsDark"@,
        "Toggles/Bottoms/AssPantsOn"@ != "Mat/Colors/BackpackDark"@,
        "Toggles/Bottoms/AssPantsOn"@ != "Mat/Colors/BeanieDark"@,
        "Toggles/Bottoms/AssPantsOn"@ != "Mat/Colors/GlovesDark"@,
        "Toggles/Bottoms/AssPantsOn"@ != "Mat/Colors/HeadphonesDark"@,
        "Toggles/Bottoms/AssPantsOn"@ != "Mat/Colors/JacketDark"@,
        "Toggles/Bottoms/AssPantsOn"@ != "Mat/Colors/MaskDark"@,
        "Toggles/Bottoms/AssPantsOn"@ != "Mat/Colors/ShoeDark"@,
        "Toggles/Bottoms/AssPantsOn"@ != "Mat/Colors/SleevesDark"@,
        "Toggles/Bottoms/AssPantsOn"@ != "Mat/Colors/SwimsuitDark"@,
        "Toggles/Bottoms/AssPantsOn"@ != "Mat/Colors/PantsDark"@,
        "Toggles/Bottoms/AssPantsOn"@ != "Mat/Colors/SportsBraDark"@,
        "Toggles/Bottoms/AssPantsOn"@ != "Mat/Colors/TankTopDark"@,
        "Toggles/Bottoms/AssPantsOn"@ != "Mat/Colors/CropDark"@,
{
    reveal_strlit("Toggles/Bottoms/AssPantsOn");
    reveal_strlit("Toggles/Bottoms/PantsOn");
    assert("Toggles/Bottoms/AssPantsOn"@.len() != "Toggles/Bottoms/PantsOn"@.len());
    reveal_strlit("Toggles/Bottoms/NSFW");
    assert("Toggles/Bottoms/AssPantsOn"@.len() != "Toggles/Bottoms/NSFW"@.len());
    reveal_strlit("Toggles/Acc/GlassesOff");
    assert("Toggles/Bottoms/AssPantsOn"@.len() != "Toggles/Acc/GlassesOff"@.len());
    reveal_strlit("Toggles/Acc/BackpackOff");
    assert("Toggles/Bottoms/AssPantsOn"@.len() != "Toggles/Acc/BackpackOff"@.len());
    reveal_strlit("Toggles/Acc/DogtagsOff");
    assert("Toggles/Bottoms/AssPantsOn"@.len() != "Toggles/Acc/DogtagsOff"@.len());
    reveal_strlit("Toggles/Acc/LipRingsOff");
    assert("Toggles/Bottoms/AssPantsOn"@.len() != "Toggles/Acc/LipRingsOff"@.len());
    reveal_strlit("Toggles/Acc/EarringsOff");
    assert("Toggles/Bottoms/AssPantsOn"@.len() != "Toggles/Acc/EarringsOff"@.len());
    reveal_strlit("Hair/ShortOn");
    assert("Toggles/Bottoms/AssPantsOn"@.len() != "Hair/ShortOn"@.len());
    reveal_strlit("Hair/PonyOn");
    assert("Toggles/Bottoms/AssPantsOn"@.len() != "Hair/PonyOn"@.len());
    reveal_strlit("Hair/LongOn");
    assert("Toggles/Bottoms/AssPantsOn"@.len() != "Hair/LongOn"@.len());
    reveal_strlit("Nails/Normal");
    assert("Toggles/Bottoms/AssPantsOn"@.len() != "Nails/Normal"@.len());
    reveal_strlit("Nails/Square");
    assert("Toggles/Bottoms/AssPantsOn"@.len() != "Nails/Square"@.len());
    reveal_strlit("Nails/Almond");
    assert("Toggles/Bottoms/AssPantsOn"@.len() != "Nails/Almond"@.len());
    reveal_strlit("Nails/Longer");
    assert("Toggles/Bottoms/AssPantsOn"@.len() != "Nails/Longer"@.len());
    reveal_strlit("Nails/Stilletto");
    assert("Toggles/Bottoms/AssPantsOn"@.len() != "Nails/Stilletto"@.len());
    reveal_strlit("Mat/Hue");
    assert("Toggles/Bottoms/AssPantsOn"@.len() != "Mat/Hue"@.len());
    reveal_strlit("Mat/Colors/HairHue");
    assert("Toggles/Bottoms/AssPantsOn"@.len() != "Mat/Colors/HairHue"@.len());
    reveal_strlit("Mat/Colors/HairColored");
    assert("Toggles/Bottoms/AssPantsOn"@.len() != "Mat/Colors/HairColored"@.len());
    reveal_strlit("Mat/Cyberpunk");
    assert("Toggles/Bottoms/AssPantsOn"@.len() != "Mat/Cyberpunk"@.len());
    reveal_strlit("Mat/HairBlack");
    assert("Toggles/Bottoms/AssPantsOn"@.len() != "Mat/HairBlack"@.len());
    reveal_strlit("Mat/HairWhite");
    assert("Toggles/Bottoms/AssPantsOn"@.len() != "Mat/HairWhite"@.len());
    reveal_strlit("Mat/HairBlonde");
    assert("Toggles/Bottoms/AssPantsOn"@.len() != "Mat/HairBlonde"@.len());
    reveal_strlit("Mat/Monochromatic");
    assert("Toggles/Bottoms/AssPantsOn"@.len() != "Mat/Monochromatic"@.len());
    reveal_strlit("Mat/AudioLink");
    assert("Toggles/Bottoms/AssPantsOn"@.len() != "Mat/AudioLink"@.len());
    reveal_strlit("Mat/Colors/AssPantsDark");
    assert("Toggles/Bottoms/AssPantsOn"@.len() != "Mat/Colors/AssPantsDark"@.len());
    reveal_strlit("Mat/Colors/BackpackDark");
    assert("Toggles/Bottoms/AssPantsOn"@.len() != "Mat/Colors/BackpackDark"@.len());
    reveal_strlit("Mat/Colors/BeanieDark");
    assert("Toggles/Bottoms/AssPantsOn"@.len() != "Mat/Colors/BeanieDark"@.len());
    reveal_strlit("Mat/Colors/GlovesDark");
    assert("Toggles/Bottoms/AssPantsOn"@.len() != "Mat/Colors/GlovesDark"@.len());
    reveal_strlit("Mat/Colors/HeadphonesDark");
    assert("Toggles/Bottoms/AssPantsOn"@.len() != "Mat/Colors/HeadphonesDark"@.len());
    reveal_strlit("Mat/Colors/JacketDark");
    assert("Toggles/Bottoms/AssPantsOn"@.len() != "Mat/Colors/JacketDark"@.len());
    reveal_strlit("Mat/Colors/MaskDark");
    assert("Toggles/Bottoms/AssPantsOn"@.len() != "Mat/Colors/MaskDark"@.len());
    reveal_strlit("Mat/Colors/ShoeDark");
    assert("Toggles/Bottoms/AssPantsOn"@.len() != "Mat/Colors/ShoeDark"@.len());
    reveal_strlit("Mat/Colors/SleevesDark");
    assert("Toggles/Bottoms/AssPantsOn"@.len() != "Mat/Colors/SleevesDark"@.len());
    reveal_strlit("Mat/Colors/SwimsuitDark");
    assert("Toggles/Bottoms/AssPantsOn"@.len() != "Mat/Colors/SwimsuitDark"@.len());
    reveal_strlit("Mat/Colors/PantsDark");
    assert("Toggles/Bottoms/AssPantsOn"@.len() != "Mat/Colors/PantsDark"@.len());
    reveal_strlit("Mat/Colors/SportsBraDark");
    assert("Toggles/Bottoms/AssPantsOn"@.len() != "Mat/Colors/SportsBraDark"@.len());
    reveal_strlit("Mat/Colors/TankTopDark");
    assert("Toggles/Bottoms/AssPantsOn"@.len() != "Mat/Colors/TankTopDark"@.len());
    reveal_strlit("Mat/Colors/CropDark");
    assert("Toggles/Bottoms/AssPantsOn"@.len() != "Mat/Colors/CropDark"@.len());
}

proof fn lemma_distinct_from_later_18()
    ensures
        "Toggles/Bottoms/PantsOn"@ != "Toggles/Bottoms/NSFW"@,
        "Toggles/Bottoms/PantsOn"@ != "Toggles/Acc/GlassesOff"@,
        "Toggles/Bottoms/PantsOn"@ != "Toggles/Acc/BackpackOff"@,
        "Toggles/Bottoms/PantsOn"@ != "Toggles/Acc/DogtagsOff"@,
        "Toggles/Bottoms/PantsOn"@ != "Toggles/Acc/LipRingsOff"@,
        "Toggles/Bottoms/PantsOn"@ != "Toggles/Acc/EarringsOff"@,
        "Toggles/Bottoms/PantsOn"@ != "Hair/ShortOn"@,
        "Toggles/Bottoms/PantsOn"@ != "Hair/PonyOn"@,
        "Toggles/Bottoms/PantsOn"@ != "Hair/LongOn"@,
        "Toggles/Bottoms/PantsOn"@ != "Nails/Normal"@,
        "Toggles/Bottoms/PantsOn"@ != "Nails/Square"@,
        "Toggles/Bottoms/PantsOn"@ != "Nails/Almond"@,
        "Toggles/Bottoms/PantsOn"@ != "Nails/Longer"@,
        "Toggles/Bottoms/PantsOn"@ != "Nails/Stilletto"@,
        "Toggles/Bottoms/PantsOn"@ != "Mat/Hue"@,
        "Toggles/Bottoms/PantsOn"@ != "Mat/Colors/HairHue"@,
        "Toggles/Bottoms/PantsOn"@ != "Mat/Colors/HairColored"@,
        "Toggles/Bottoms/PantsOn"@ != "Mat/Cyberpunk"@,
        "Toggles/Bottoms/PantsOn"@ != "Mat/HairBlack"@,
        "Toggles/Bottoms/PantsOn"@ != "Mat/HairWhite"@,
        "Toggles/Bottoms/PantsOn"@ != "Mat/HairBlonde"@,
        "Toggles/Bottoms/PantsOn"@ != "Mat/Monochromatic"@,
        "Toggles/Bottoms/PantsOn"@ != "Mat/AudioLink"@,
        "Toggles/Bottoms/PantsOn"@ != "Mat/Colors/AssPantsDark"@,
        "Toggles/Bottoms/PantsOn"@ != "Mat/Colors/BackpackDark"@,
        "Toggles/Bottoms/PantsOn"@ != "Mat/Colors/BeanieDark"@,
        "Toggles/Bottoms/PantsOn"@ != "Mat/Colors/GlovesDark"@,
        "Toggles/Bottoms/PantsOn"@ != "Mat/Colors/HeadphonesDark"@,
        "Toggles/Bottoms/PantsOn"@ != "Mat/Colors/JacketDark"@,
        "Toggles/Bottoms/PantsOn"@ != "Mat/Colors/MaskDark"@,
        "Toggles/Bottoms/PantsOn"@ != "Mat/Colors/ShoeDark"@,
        "Toggles/Bottoms/PantsOn"@ != "Mat/Colors/SleevesDark"@,
        "Toggles/Bottoms/PantsOn"@ != "Mat/Colors/SwimsuitDark"@,
        "Toggles/Bottoms/PantsOn"@ != "Mat/Colors/PantsDark"@,
        "Toggles/Bottoms/PantsOn"@ != "Mat/Colors/SportsBraDark"@,
        "Toggles/Bottoms/PantsOn"@ != "Mat/Colors/TankTopDark"@,
        "Toggles/Bottoms/PantsOn"@ != "Mat/Colors/CropDark"@,
{
    reveal_strlit("Toggles/Bottoms/PantsOn");
    reveal_strlit("Toggles/Bottoms/NSFW");
    assert("Toggles/Bottoms/PantsOn"@.len() != "Toggles/Bottoms/NSFW"@.len());
    reveal_strlit("Toggles/Acc/GlassesOff");
    assert("Toggles/Bottoms/PantsOn"@.len() != "Toggles/Acc/GlassesOff"@.len());
    reveal_strlit("Toggles/Acc/BackpackOff");
    assert("Toggles/Bottoms/PantsOn"@[8] != "Toggles/Acc/BackpackOff"@[8]);
    reveal_strlit("Toggles/Acc/DogtagsOff");
    assert("Toggles/Bottoms/PantsOn"@.len() != "Toggles/Acc/DogtagsOff"@.len());
    reveal_strlit("Toggles/Acc/LipRingsOff");
    assert("Toggles/Bottoms/PantsOn"@[8] != "Toggles/Acc/LipRingsOff"@[8]);
    reveal_strlit("Toggles/Acc/EarringsOff");
    assert("Toggles/Bottoms/PantsOn"@[8] != "Toggles/Acc/EarringsOff"@[8]);
    reveal_strlit("Hair/ShortOn");
    assert("Toggles/Bottoms/PantsOn"@.len() != "Hair/ShortOn"@.len());
    reveal_strlit("Hair/PonyOn");
    assert("Toggles/Bottoms/PantsOn"@.len() != "Hair/PonyOn"@.len());
    reveal_strlit("Hair/LongOn");
    assert("Toggles/Bottoms/PantsOn"@.len() != "Hair/LongOn"@.len());
    reveal_strlit("Nails/Normal");
    assert("Toggles/Bottoms/PantsOn"@.len() != "Nails/Normal"@.len());
    reveal_strlit("Nails/Square");
    assert("Toggles/Bottoms/PantsOn"@.len() != "Nails/Square"@.len());
    reveal_strlit("Nails/Almond");
    assert("Toggles/Bottoms/PantsOn"@.len() != "Nails/Almond"@.len());
    reveal_strlit("Nails/Longer");
    assert("Toggles/Bottoms/PantsOn"@.len() != "Nails/Longer"@.len());
    reveal_strlit("Nails/Stilletto");
    assert("Toggles/Bottoms/PantsOn"@.len() != "Nails/Stilletto"@.len());
    reveal_strlit("Mat/Hue");
    assert("Toggles/Bottoms/PantsOn"@.len() != "Mat/Hue"@.len());
    reveal_strlit("Mat/Colors/HairHue");
    assert("Toggles/Bottoms/PantsOn"@.len() != "Mat/Colors/HairHue"@.len());
    reveal_strlit("Mat/Colors/HairColored");
    assert("Toggles/Bottoms/PantsOn"@.len() != "Mat/Colors/HairColored"@.len());
    reveal_strlit("Mat/Cyberpunk");
    assert("Toggles/Bottoms/PantsOn"@.len() != "Mat/Cyberpunk"@.len());
    reveal_strlit("Mat/HairBlack");
    assert("Toggles/Bottoms/PantsOn"@.len() != "Mat/HairBlack"@.len());
    reveal_strlit("Mat/HairWhite");
    assert("Toggles/Bottoms/PantsOn"@.len() != "Mat/HairWhite"@.len());
    reveal_strlit("Mat/HairBlonde");
    assert("Toggles/Bottoms/PantsOn"@.len() != "Mat/HairBlonde"@.len());
    reveal_strlit("Mat/Monochromatic");
    assert("Toggles/Bottoms/PantsOn"@.len() != "Mat/Monochromatic"@.len());
    reveal_strlit("Mat/AudioLink");
    assert("Toggles/Bottoms/PantsOn"@.len() != "Mat/AudioLink"@.len());
    reveal_strlit("Mat/Colors/AssPantsDark");
    assert("Toggles/Bottoms/PantsOn"@[0] != "Mat/Colors/AssPantsDark"@[0]);
    reveal_strlit("Mat/Colors/BackpackDark");
    assert("Toggles/Bottoms/PantsOn"@[0] != "Mat/Colors/BackpackDark"@[0]);
    reveal_strlit("Mat/Colors/BeanieDark");
    assert("Toggles/Bottoms/PantsOn"@.len() != "Mat/Colors/BeanieDark"@.len());
    reveal_strlit("Mat/Colors/GlovesDark");
    assert("Toggles/Bottoms/PantsOn"@.len() != "Mat/Colors/GlovesDark"@.len());
    reveal_strlit("Mat/Colors/HeadphonesDark");
    assert("Toggles/Bottoms/PantsOn"@.len() != "Mat/Colors/HeadphonesDark"@.len());
    reveal_strlit("Mat/Colors/JacketDark");
    assert("Toggles/Bottoms/PantsOn"@.len() != "Mat/Colors/JacketDark"@.len());
    reveal_strlit("Mat/Colors/MaskDark");
    assert("Toggles/Bottoms/PantsOn"@.len() != "Mat/Colors/MaskDark"@.len());
    reveal_strlit("Mat/Colors/ShoeDark");
    assert("Toggles/Bottoms/PantsOn"@.len() != "Mat/Colors/ShoeDark"@.len());
    reveal_strlit("Mat/Colors/SleevesDark");
    assert("Toggles/Bottoms/PantsOn"@.len() != "Mat/Colors/SleevesDark"@.len());
    reveal_strlit("Mat/Colors/SwimsuitDark");
    assert("Toggles/Bottoms/PantsOn"@[0] != "Mat/Colors/SwimsuitDark"@[0]);
    reveal_strlit("Mat/Colors/PantsDark");
    assert("Toggles/Bottoms/PantsOn"@.len() != "Mat/Colors/PantsDark"@.len());
    reveal_strlit("Mat/Colors/SportsBraDark");
    assert("Toggles/Bottoms/PantsOn"@.len() != "Mat/Colors/SportsBraDark"@.len());
    reveal_strlit("Mat/Colors/TankTopDark");
    assert("Toggles/Bottoms/PantsOn"@.len() != "Mat/Colors/TankTopDark"@.len());
    reveal_strlit("Mat/Colors/CropDark");
    assert("Toggles/Bottoms/PantsOn"@.len() != "Mat/Colors/CropDark"@.len());
}

proof fn lemma_distinct_from_later_19()
    ensures
        "Toggles/Bottoms/NSFW"@ != "Toggles/Acc/GlassesOff"@,
        "Toggles/Bottoms/NSFW"@ != "Toggles/Acc/BackpackOff"@,
        "Toggles/Bottoms/NSFW"@ != "Toggles/Acc/DogtagsOff"@,
        "Toggles/Bottoms/NSFW"@ != "Toggles/Acc/LipRingsOff"@,
        "Toggles/Bottoms/NSFW"@ != "Toggles/Acc/EarringsOff"@,
        "Toggles/Bottoms/NSFW"@ != "Hair/ShortOn"@,
        "Toggles/Bottoms/NSFW"@ != "Hair/PonyOn"@,
        "Toggles/Bottoms/NSFW"@ != "Hair/LongOn"@,
        "Toggles/Bottoms/NSFW"@ != "Nails/Normal"@,
        "Toggles/Bottoms/NSFW"@ != "Nails/Square"@,
        "Toggles/Bottoms/NSFW"@ != "Nails/Almond"@,
        "Toggles/Bottoms/NSFW"@ != "Nails/Longer"@,
        "Toggles/Bottoms/NSFW"@ != "Nails/Stilletto"@,
        "Toggles/Bottoms/NSFW"@ != "Mat/Hue"@,
        "Toggles/Bottoms/NSFW"@ != "Mat/Colors/HairHue"@,
        "Toggles/Bottoms/NSFW"@ != "Mat/Colors/HairColored"@,
        "Toggles/Bottoms/NSFW"@ != "Mat/Cyberpunk"@,
        "Toggles/Bottoms/NSFW"@ != "Mat/HairBlack"@,
        "Toggles/Bottoms/NSFW"@ != "Mat/HairWhite"@,
        "Toggles/Bottoms/NSFW"@ != "Mat/HairBlonde"@,
        "Toggles/Bottoms/NSFW"@ != "Mat/Monochromatic"@,
        "Toggles/Bottoms/NSFW"@ != "Mat/AudioLink"@,
        "Toggles/Bottoms/NSFW"@ != "Mat/Colors/AssPantsDark"@,
        "Toggles/Bottoms/NSFW"@ != "Mat/Colors/BackpackDark"@,
        "Toggles/Bottoms/NSFW"@ != "Mat/Colors/BeanieDark"@,
        "Toggles/Bottoms/NSFW"@ != "Mat/Colors/GlovesDark"@,
        "Toggles/Bottoms/NSFW"@ != "Mat/Colors/HeadphonesDark"@,
        "Toggles/Bottoms/NSFW"@ != "Mat/Colors/JacketDark"@,
        "Toggles/Bottoms/NSFW"@ != "Mat/Colors/MaskDark"@,
        "Toggles/Bottoms/NSFW"@ != "Mat/Colors/ShoeDark"@,
        "Toggles/Bottoms/NSFW"@ != "Mat/Colors/SleevesDark"@,
        "Toggles/Bottoms/NSFW"@ != "Mat/Colors/SwimsuitDark"@,
        "Toggles/Bottoms/NSFW"@ != "Mat/Colors/PantsDark"@,
        "Toggles/Bottoms/NSFW"@ != "Mat/Colors/SportsBraDark"@,
        "Toggles/Bottoms/NSFW"@ != "Mat/Colors/TankTopDark"@,
        "Toggles/Bottoms/NSFW"@ != "Mat/Colors/CropDark"@,
{
    reveal_strlit("Toggles/Bottoms/NSFW");
    reveal_strlit("Toggles/Acc/GlassesOff");
    assert("Toggles/Bottoms/NSFW"@.len() != "Toggles/Acc/GlassesOff"@.len());
    reveal_strlit("Toggles/Acc/BackpackOff");
    assert("Toggles/Bottoms/NSFW"@.len() != "Toggles/Acc/BackpackOff"@.len());
    reveal_strlit("Toggles/Acc/DogtagsOff");
    assert("Toggles/Bottoms/NSFW"@.len() != "Toggles/Acc/DogtagsOff"@.len());
    reveal_strlit("Toggles/Acc/LipRingsOff");
    assert("Toggles/Bottoms/NSFW"@.len() != "Toggles/Acc/LipRingsOff"@.len());
    reveal_strlit("Toggles/Acc/EarringsOff");
    assert("Toggles/Bottoms/NSFW"@.len() != "Toggles/Acc/EarringsOff"@.len());
    reveal_strlit("Hair/ShortOn");
    assert("Toggles/Bottoms/NSFW"@.len() != "Hair/ShortOn"@.len());
    reveal_strlit("Hair/PonyOn");
    assert("Toggles/Bottoms/NSFW"@.len() != "Hair/PonyOn"@.len());
    reveal_strlit("Hair/LongOn");
    assert("Toggles/Bottoms/NSFW"@.len() != "Hair/LongOn"@.len());
    reveal_strlit("Nails/Normal");
    assert("Toggles/Bottoms/NSFW"@.len() != "Nails/Normal"@.len());
    reveal_strlit("Nails/Square");
    assert("Toggles/Bottoms/NSFW"@.len() != "Nails/Square"@.len());
    reveal_strlit("Nails/Almond");
    assert("Toggles/Bottoms/NSFW"@.len() != "Nails/Almond"@.len());
    reveal_strlit("Nails/Longer");
    assert("Toggles/Bottoms/NSFW"@.len() != "Nails/Longer"@.len());
    reveal_strlit("Nails/Stilletto");
    assert("Toggles/Bottoms/NSFW"@.len() != "Nails/Stilletto"@.len());
    reveal_strlit("Mat/Hue");
    assert("Toggles/Bottoms/NSFW"@.len() != "Mat/Hue"@.len());
    reveal_strlit("Mat/Colors/HairHue");
    assert("Toggles/Bottoms/NSFW"@.len() != "Mat/Colors/HairHue"@.len());
    reveal_strlit("Mat/Colors/HairColored");
    assert("Toggles/Bottoms/NSFW"@.len() != "Mat/Colors/HairColored"@.len());
    reveal_strlit("Mat/Cyberpunk");
    assert("Toggles/Bottoms/NSFW"@.len() != "Mat/Cyberpunk"@.len());
    reveal_strlit("Mat/HairBlack");
    assert("Toggles/Bottoms/NSFW"@.len() != "Mat/HairBlack"@.len());
    reveal_strlit("Mat/HairWhite");
    assert("Toggles/Bottoms/NSFW"@.len() != "Mat/HairWhite"@.len());
    reveal_strlit("Mat/HairBlonde");
    assert("Toggles/Bottoms/NSFW"@.len() != "Mat/HairBlonde"@.len());
    reveal_strlit("Mat/Monochromatic");
    assert("Toggles/Bottoms/NSFW"@.len() != "Mat/Monochromatic"@.len());
    reveal_strlit("Mat/AudioLink");
    assert("Toggles/Bottoms/NSFW"@.len() != "Mat/AudioLink"@.len());
    reveal_strlit("Mat/Colors/AssPantsDark");
    assert("Toggles/Bottoms/NSFW"@.len() != "Mat/Colors/AssPantsDark"@.len());
    reveal_strlit("Mat/Colors/BackpackDark");
    assert("Toggles/Bottoms/NSFW"@.len() != "Mat/Colors/BackpackDark"@.len());
    reveal_strlit("Mat/Colors/BeanieDark");
    assert("Toggles/Bottoms/NSFW"@.len() != "Mat/Colors/BeanieDark"@.len());
    reveal_strlit("Mat/Colors/GlovesDark");
    assert("Toggles/Bottoms/NSFW"@.len() != "Mat/Colors/GlovesDark"@.len());
    reveal_strlit("Mat/Colors/HeadphonesDark");
    assert("Toggles/Bottoms/NSFW"@.len() != "Mat/Colors/HeadphonesDark"@.len());
    reveal_strlit("Mat/Colors/JacketDark");
    assert("Toggles/Bottoms/NSFW"@.len() != "Mat/Colors/JacketDark"@.len());
    reveal_strlit("Mat/Colors/MaskDark");
    assert("Toggles/Bottoms/NSFW"@.len() != "Mat/Colors/MaskDark"@.len());
    reveal_strlit("Mat/Colors/ShoeDark");
    assert("Toggles/Bottoms/NSFW"@.len() != "Mat/Colors/ShoeDark"@.len());
    reveal_strlit("Mat/Colors/SleevesDark");
    assert("Toggles/Bottoms/NSFW"@.len() != "Mat/Colors/SleevesDark"@.len());
    reveal_strlit("Mat/Colors/SwimsuitDark");
    assert("Toggles/Bottoms/NSFW"@.len() != "Mat/Colors/SwimsuitDark"@.len());
    reveal_strlit("Mat/Colors/PantsDark");
    assert("Toggles/Bottoms/NSFW"@[0] != "Mat/Colors/PantsDark"@[0]);
    reveal_strlit("Mat/Colors/SportsBraDark");
    assert("Toggles/Bottoms/NSFW"@.len() != "Mat/Colors/SportsBraDark"@.len());
    reveal_strlit("Mat/Colors/TankTopDark");
    assert("Toggles/Bottoms/NSFW"@.len() != "Mat/Colors/TankTopDark"@.len());
    reveal_strlit("Mat/Colors/CropDark");
    assert("Toggles/Bottoms/NSFW"@.len() != "Mat/Colors/CropDark"@.len());
}

proof fn lemma_distinct_from_later_20()
    ensures
        "Toggles/Acc/GlassesOff"@ != "Toggles/Acc/BackpackOff"@,
        "Toggles/Acc/GlassesOff"@ != "Toggles/Acc/DogtagsOff"@,
        "Toggles/Acc/GlassesOff"@ != "Toggles/Acc/LipRingsOff"@,
        "Toggles/Acc/GlassesOff"@ != "Toggles/Acc/EarringsOff"@,
        "Toggles/Acc/GlassesOff"@ != "Hair/ShortOn"@,
        "Toggles/Acc/GlassesOff"@ != "Hair/PonyOn"@,
        "Toggles/Acc/GlassesOff"@ != "Hair/LongOn"@,
        "Toggles/Acc/GlassesOff"@ != "Nails/Normal"@,
        "Toggles/Acc/GlassesOff"@ != "Nails/Square"@,
        "Toggles/Acc/GlassesOff"@ != "Nails/Almond"@,
        "Toggles/Acc/GlassesOff"@ != "Nails/Longer"@,
        "Toggles/Acc/GlassesOff"@ != "Nails/Stilletto"@,
        "Toggles/Acc/GlassesOff"@ != "Mat/Hue"@,
        "Toggles/Acc/GlassesOff"@ != "Mat/Colors/HairHue"@,
        "Toggles/Acc/GlassesOff"@ != "Mat/Colors/HairColored"@,
        "Toggles/Acc/GlassesOff"@ != "Mat/Cyberpunk"@,
        "Toggles/Acc/GlassesOff"@ != "Mat/HairBlack"@,
        "Toggles/Acc/GlassesOff"@ != "Mat/HairWhite"@,
        "Toggles/Acc/GlassesOff"@ != "Mat/HairBlonde"@,
        "Toggles/Acc/GlassesOff"@ != "Mat/Monochromatic"@,
        "Toggles/Acc/GlassesOff"@ != "Mat/AudioLink"@,
        "Toggles/Acc/GlassesOff"@ != "Mat/Colors/AssPantsDark"@,
        "Toggles/Acc/GlassesOff"@ != "Mat/Colors/BackpackDark"@,
        "Toggles/Acc/GlassesOff"@ != "Mat/Colors/BeanieDark"@,
        "Toggles/Acc/GlassesOff"@ != "Mat/Colors/GlovesDark"@,
        "Toggles/Acc/GlassesOff"@ != "Mat/Colors/HeadphonesDark"@,
        "Toggles/Acc/GlassesOff"@ != "Mat/Colors/JacketDark"@,
        "Toggles/Acc/GlassesOff"@ != "Mat/Colors/MaskDark"@,
        "Toggles/Acc/GlassesOff"@ != "Mat/Colors/ShoeDark"@,
        "Toggles/Acc/GlassesOff"@ != "Mat/Colors/SleevesDark"@,
        "Toggles/Acc/GlassesOff"@ != "Mat/Colors/SwimsuitDark"@,
        "Toggles/Acc/GlassesOff"@ != "Mat/Colors/PantsDark"@,
        "Toggles/Acc/GlassesOff"@ != "Mat/Colors/SportsBraDark"@,
        "Toggles/Acc/GlassesOff"@ != "Mat/Colors/TankTopDark"@,
        "Toggles/Acc/GlassesOff"@ != "Mat/Colors/CropDark"@,
{
    reveal_strlit("Toggles/Acc/GlassesOff");
    reveal_strlit("Toggles/Acc/BackpackOff");
    assert("Toggles/Acc/GlassesOff"@.len() != "Toggles/Acc/BackpackOff"@.len());
    reveal_strlit("Toggles/Acc/DogtagsOff");
    assert("Toggles/Acc/GlassesOff"@[12] != "Toggles/Acc/DogtagsOff"@[12]);
    reveal_strlit("Toggles/Acc/LipRingsOff");
    assert("Toggles/Acc/GlassesOff"@.len() != "Toggles/Acc/LipRingsOff"@.len());
    reveal_strlit("Toggles/Acc/EarringsOff");
    assert("Toggles/Acc/GlassesOff"@.len() != "Toggles/Acc/EarringsOff"@.len());
    reveal_strlit("Hair/ShortOn");
    assert("Toggles/Acc/GlassesOff"@.len() != "Hair/ShortOn"@.len());
    reveal_strlit("Hair/PonyOn");
    assert("Toggles/Acc/GlassesOff"@.len() != "Hair/PonyOn"@.len());
    reveal_strlit("Hair/LongOn");
    assert("Toggles/Acc/GlassesOff"@.len() != "Hair/LongOn"@.len());
    reveal_strlit("Nails/Normal");
    assert("Toggles/Acc/GlassesOff"@.len() != "Nails/Normal"@.len());
    reveal_strlit("Nails/Square");
    assert("Toggles/Acc/GlassesOff"@.len() != "Nails/Square"@.len());
    reveal_strlit("Nails/Almond");
    assert("Toggles/Acc/GlassesOff"@.len() != "Nails/Almond"@.len());
    reveal_strlit("Nails/Longer");
    assert("Toggles/Acc/GlassesOff"@.len() != "Nails/Longer"@.len());
    reveal_strlit("Nails/Stilletto");
    assert("Toggles/Acc/GlassesOff"@.len() != "Nails/Stilletto"@.len());
    reveal_strlit("Mat/Hue");
    assert("Toggles/Acc/GlassesOff"@.len() != "Mat/Hue"@.len());
    reveal_strlit("Mat/Colors/HairHue");
    assert("Toggles/Acc/GlassesOff"@.len() != "Mat/Colors/HairHue"@.len());
    reveal_strlit("Mat/Colors/HairColored");
    assert("Toggles/Acc/GlassesOff"@[0] != "Mat/Colors/HairColored"@[0]);
    reveal_strlit("Mat/Cyberpunk");
    assert("Toggles/Acc/GlassesOff"@.len() != "Mat/Cyberpunk"@.len());
    reveal_strlit("Mat/HairBlack");
    assert("Toggles/Acc/GlassesOff"@.len() != "Mat/HairBlack"@.len());
    reveal_strlit("Mat/HairWhite");
    assert("Toggles/Acc/GlassesOff"@.len() != "Mat/HairWhite"@.len());
    reveal_strlit("Mat/HairBlonde");
    assert("Toggles/Acc/GlassesOff"@.len() != "Mat/HairBlonde"@.len());
    reveal_strlit("Mat/Monochromatic");
    assert("Toggles/Acc/GlassesOff"@.len() != "Mat/Monochromatic"@.len());
    reveal_strlit("Mat/AudioLink");
    assert("Toggles/Acc/GlassesOff"@.len() != "Mat/AudioLink"@.len());
    reveal_strlit("Mat/Colors/AssPantsDark");
    assert("Toggles/Acc/GlassesOff"@.len() != "Mat/Colors/AssPantsDark"@.len());
    reveal_strlit("Mat/Colors/BackpackDark");
    assert("Toggles/Acc/GlassesOff"@.len() != "Mat/Colors/BackpackDark"@.len());
    reveal_strlit("Mat/Colors/BeanieDark");
    assert("Toggles/Acc/GlassesOff"@.len() != "Mat/Colors/BeanieDark"@.len());
    reveal_strlit("Mat/Colors/GlovesDark");
    assert("Toggles/Acc/GlassesOff"@.len() != "Mat/Colors/GlovesDark"@.len());
    reveal_strlit("Mat/Colors/HeadphonesDark");
    assert("Toggles/Acc/GlassesOff"@.len() != "Mat/Colors/HeadphonesDark"@.len());
    reveal_strlit("Mat/Colors/JacketDark");
    assert("Toggles/Acc/GlassesOff"@.len() != "Mat/Colors/JacketDark"@.len());
    reveal_strlit("Mat/Colors/MaskDark");
    assert("Toggles/Acc/GlassesOff"@.len() != "Mat/Colors/MaskDark"@.len());
    reveal_strlit("Mat/Colors/ShoeDark");
    assert("Toggles/Acc/GlassesOff"@.len() != "Mat/Colors/ShoeDark"@.len());
    reveal_strlit("Mat/Colors/SleevesDark");
    assert("Toggles/Acc/GlassesOff"@[0] != "Mat/Colors/SleevesDark"@[0]);
    reveal_strlit("Mat/Colors/SwimsuitDark");
    assert("Toggles/Acc/GlassesOff"@.len() != "Mat/Colors/SwimsuitDark"@.len());
    reveal_strlit("Mat/Colors/PantsDark");
    assert("Toggles/Acc/GlassesOff"@.len() != "Mat/Colors/PantsDark"@.len());
    reveal_strlit("Mat/Colors/SportsBraDark");
    assert("Toggles/Acc/GlassesOff"@.len() != "Mat/Colors/SportsBraDark"@.len());
    reveal_strlit("Mat/Colors/TankTopDark");
    assert("Toggles/Acc/GlassesOff"@[0] != "Mat/Colors/TankTopDark"@[0]);
    reveal_strlit("Mat/Colors/CropDark");
    assert("Toggles/Acc/GlassesOff"@.len() != "Mat/Colors/CropDark"@.len());
}

proof fn lemma_distinct_from_later_21()
    ensures
        "Toggles/Acc/BackpackOff"@ != "Toggles/Acc/DogtagsOff"@,
        "Toggles/Acc/BackpackOff"@ != "Toggles/Acc/LipRingsOff"@,
        "Toggles/Acc/BackpackOff"@ != "Toggles/Acc/EarringsOff"@,
        "Toggles/Acc/BackpackOff"@ != "Hair/ShortOn"@,
        "Toggles/Acc/BackpackOff"@ != "Hair/PonyOn"@,
        "Toggles/Acc/BackpackOff"@ != "Hair/LongOn"@,
        "Toggles/Acc/BackpackOff"@ != "Nails/Normal"@,
        "Toggles/Acc/BackpackOff"@ != "Nails/Square"@,
        "Toggles/Acc/BackpackOff"@ != "Nails/Almond"@,
        "Toggles/Acc/BackpackOff"@ != "Nails/Longer"@,
        "Toggles/Acc/BackpackOff"@ != "Nails/Stilletto"@,
        "Toggles/Acc/BackpackOff"@ != "Mat/Hue"@,
        "Toggles/Acc/BackpackOff"@ != "Mat/Colors/HairHue"@,
        "Toggles/Acc/BackpackOff"@ != "Mat/Colors/HairColored"@,
        "Toggles/Acc/BackpackOff"@ != "Mat/Cyberpunk"@,
        "Toggles/Acc/BackpackOff"@ != "Mat/HairBlack"@,
        "Toggles/Acc/BackpackOff"@ != "Mat/HairWhite"@,
        "Toggles/Acc/BackpackOff"@ != "Mat/HairBlonde"@,
        "Toggles/Acc/BackpackOff"@ != "Mat/Monochromatic"@,
        "Toggles/Acc/BackpackOff"@ != "Mat/AudioLink"@,
        "Toggles/Acc/BackpackOff"@ != "Mat/Colors/AssPantsDark"@,
        "Toggles/Acc/BackpackOff"@ != "Mat/Colors/BackpackDark"@,
        "Toggles/Acc/BackpackOff"@ != "Mat/Colors/BeanieDark"@,
        "Toggles/Acc/BackpackOff"@ != "Mat/Colors/GlovesDark"@,
        "Toggles/Acc/BackpackOff"@ != "Mat/Colors/HeadphonesDark"@,
        "Toggles/Acc/BackpackOff"@ != "Mat/Colors/JacketDark"@,
        "Toggles/Acc/BackpackOff"@ != "Mat/Colors/MaskDark"@,
        "Toggles/Acc/BackpackOff"@ != "Mat/Colors/ShoeDark"@,
        "Toggles/Acc/BackpackOff"@ != "Mat/Colors/SleevesDark"@,
        "Toggles/Acc/BackpackOff"@ != "Mat/Colors/SwimsuitDark"@,
        "Toggles/Acc/BackpackOff"@ != "Mat/Colors/PantsDark"@,
        "Toggles/Acc/BackpackOff"@ != "Mat/Colors/SportsBraDark"@,
        "Toggles/Acc/BackpackOff"@ != "Mat/Colors/TankTopDark"@,
        "Toggles/Acc/BackpackOff"@ != "Mat/Colors/CropDark"@,
{
    reveal_strlit("Toggles/Acc/BackpackOff");
    reveal_strlit("Toggles/Acc/DogtagsOff");
    assert("Toggles/Acc/BackpackOff"@.len() != "Toggles/Acc/DogtagsOff"@.len());
    reveal_strlit("Toggles/Acc/LipRingsOff");
    assert("Toggles/Acc/BackpackOff"@[12] != "Toggles/Acc/LipRingsOff"@[12]);
    reveal_strlit("Toggles/Acc/EarringsOff");
    assert("Toggles/Acc/BackpackOff"@[12] != "Toggles/Acc/EarringsOff"@[12]);
    reveal_strlit("Hair/ShortOn");
    assert("Toggles/Acc/BackpackOff"@.len() != "Hair/ShortOn"@.len());
    reveal_strlit("Hair/PonyOn");
    assert("Toggles/Acc/BackpackOff"@.len() != "Hair/PonyOn"@.len());
    reveal_strlit("Hair/LongOn");
    assert("Toggles/Acc/BackpackOff"@.len() != "Hair/LongOn"@.len());
    reveal_strlit("Nails/Normal");
    assert("Toggles/Acc/BackpackOff"@.len() != "Nails/Normal"@.len());
    reveal_strlit("Nails/Square");
    assert("Toggles/Acc/BackpackOff"@.len() != "Nails/Square"@.len());
    reveal_strlit("Nails/Almond");
    assert("Toggles/Acc/BackpackOff"@.len() != "Nails/Almond"@.len());
    reveal_strlit("Nails/Longer");
    assert("Toggles/Acc/BackpackOff"@.len() != "Nails/Longer"@.len());
    reveal_strlit("Nails/Stilletto");
    assert("Toggles/Acc/BackpackOff"@.len() != "Nails/Stilletto"@.len());
    reveal_strlit("Mat/Hue");
    assert("Toggles/Acc/BackpackOff"@.len() != "Mat/Hue"@.len());
    reveal_strlit("Mat/Colors/HairHue");
    assert("Toggles/Acc/BackpackOff"@.len() != "Mat/Colors/HairHue"@.len());
    reveal_strlit("Mat/Colors/HairColored");
    assert("Toggles/Acc/BackpackOff"@.len() != "Mat/Colors/HairColored"@.len());
    reveal_strlit("Mat/Cyberpunk");
    assert("Toggles/Acc/BackpackOff"@.len() != "Mat/Cyberpunk"@.len());
    reveal_strlit("Mat/HairBlack");
    assert("Toggles/Acc/BackpackOff"@.len() != "Mat/HairBlack"@.len());
    reveal_strlit("Mat/HairWhite");
    assert("Toggles/Acc/BackpackOff"@.len() != "Mat/HairWhite"@.len());
    reveal_strlit("Mat/HairBlonde");
    assert("Toggles/Acc/BackpackOff"@.len() != "Mat/HairBlonde"@.len());
    reveal_strlit("Mat/Monochromatic");
    assert("Toggles/Acc/BackpackOff"@.len() != "Mat/Monochromatic"@.len());
    reveal_strlit("Mat/AudioLink");
    assert("Toggles/Acc/BackpackOff"@.len() != "Mat/AudioLink"@.len());
    reveal_strlit("Mat/Colors/AssPantsDark");
    assert("Toggles/Acc/BackpackOff"@[0] != "Mat/Colors/AssPantsDark"@[0]);
    reveal_strlit("Mat/Colors/BackpackDark");
    assert("Toggles/Acc/BackpackOff"@[0] != "Mat/Colors/BackpackDark"@[0]);
    reveal_strlit("Mat/Colors/BeanieDark");
    assert("Toggles/Acc/BackpackOff"@.len() != "Mat/Colors/BeanieDark"@.len());
    reveal_strlit("Mat/Colors/GlovesDark");
    assert("Toggles/Acc/BackpackOff"@.len() != "Mat/Colors/GlovesDark"@.len());
    reveal_strlit("Mat/Colors/HeadphonesDark");
    assert("Toggles/Acc/BackpackOff"@.len() != "Mat/Colors/HeadphonesDark"@.len());
    reveal_strlit("Mat/Colors/JacketDark");
    assert("Toggles/Acc/BackpackOff"@.len() != "Mat/Colors/JacketDark"@.len());
    reveal_strlit("Mat/Colors/MaskDark");
    assert("Toggles/Acc/BackpackOff"@.len() != "Mat/Colors/MaskDark"@.len());
    reveal_strlit("Mat/Colors/ShoeDark");
    assert("Toggles/Acc/BackpackOff"@.len() != "Mat/Colors/ShoeDark"@.len());
    reveal_strlit("Mat/Colors/SleevesDark");
    assert("Toggles/Acc/BackpackOff"@.len() != "Mat/Colors/SleevesDark"@.len());
    reveal_strlit("Mat/Colors/SwimsuitDark");
    assert("Toggles/Acc/BackpackOff"@[0] != "Mat/Colors/SwimsuitDark"@[0]);
    reveal_strlit("Mat/Colors/PantsDark");
    assert("Toggles/Acc/BackpackOff"@.len() != "Mat/Colors/PantsDark"@.len());
    reveal_strlit("Mat/Colors/SportsBraDark");
    assert("Toggles/Acc/BackpackOff"@.len() != "Mat/Colors/SportsBraDark"@.len());
    reveal_strlit("Mat/Colors/TankTopDark");
    assert("Toggles/Acc/BackpackOff"@.len() != "Mat/Colors/TankTopDark"@.len());
    reveal_strlit("Mat/Colors/CropDark");
    assert("Toggles/Acc/BackpackOff"@.len() != "Mat/Colors/CropDark"@.len());
}

proof fn lemma_distinct_from_later_22()
    ensures
        "Toggles/Acc/DogtagsOff"@ != "Toggles/Acc/LipRingsOff"@,
        "Toggles/Acc/DogtagsOff"@ != "Toggles/Acc/EarringsOff"@,
        "Toggles/Acc/DogtagsOff"@ != "Hair/ShortOn"@,
        "Toggles/Acc/DogtagsOff"@ != "Hair/PonyOn"@,
        "Toggles/Acc/DogtagsOff"@ != "Hair/LongOn"@,
        "Toggles/Acc/DogtagsOff"@ != "Nails/Normal"@,
        "Toggles/Acc/DogtagsOff"@ != "Nails/Square"@,
        "Toggles/Acc/DogtagsOff"@ != "Nails/Almond"@,
        "Toggles/Acc/DogtagsOff"@ != "Nails/Longer"@,
        "Toggles/Acc/DogtagsOff"@ != "Nails/Stilletto"@,
        "Toggles/Acc/DogtagsOff"@ != "Mat/Hue"@,
        "Toggles/Acc/DogtagsOff"@ != "Mat/Colors/HairHue"@,
        "Toggles/Acc/DogtagsOff"@ != "Mat/Colors/HairColored"@,
        "Toggles/Acc/DogtagsOff"@ != "Mat/Cyberpunk"@,
        "Toggles/Acc/DogtagsOff"@ != "Mat/HairBlack"@,
        "Toggles/Acc/DogtagsOff"@ != "Mat/HairWhite"@,
        "Toggles/Acc/DogtagsOff"@ != "Mat/HairBlonde"@,
        "Toggles/Acc/DogtagsOff"@ != "Mat/Monochromatic"@,
        "Toggles/Acc/DogtagsOff"@ != "Mat/AudioLink"@,
        "Toggles/Acc/DogtagsOff"@ != "Mat/Colors/AssPantsDark"@,
        "Toggles/Acc/DogtagsOff"@ != "Mat/Colors/BackpackDark"@,
        "Toggles/Acc/DogtagsOff"@ != "Mat/Colors/BeanieDark"@,
        "Toggles/Acc/DogtagsOff"@ != "Mat/Colors/GlovesDark"@,
        "Toggles/Acc/DogtagsOff"@ != "Mat/Colors/HeadphonesDark"@,
        "Toggles/Acc/DogtagsOff"@ != "Mat/Colors/JacketDark"@,
        "Toggles/Acc/DogtagsOff"@ != "Mat/Colors/MaskDark"@,
        "Toggles/Acc/DogtagsOff"@ != "Mat/Colors/ShoeDark"@,
        "Toggles/Acc/DogtagsOff"@ != "Mat/Colors/SleevesDark"@,
        "Toggles/Acc/DogtagsOff"@ != "Mat/Colors/SwimsuitDark"@,
        "Toggles/Acc/DogtagsOff"@ != "Mat/Colors/PantsDark"@,
        "Toggles/Acc/DogtagsOff"@ != "Mat/Colors/SportsBraDark"@,
        "Toggles/Acc/DogtagsOff"@ != "Mat/Colors/TankTopDark"@,
        "Toggles/Acc/DogtagsOff"@ != "Mat/Colors/CropDark"@,
{
    reveal_strlit("Toggles/Acc/DogtagsOff");
    reveal_strlit("Toggles/Acc/LipRingsOff");
    assert("Toggles/Acc/DogtagsOff"@.len() != "Toggles/Acc/LipRingsOff"@.len());
    reveal_strlit("Toggles/Acc/EarringsOff");
    assert("Toggles/Acc/DogtagsOff"@.len() != "Toggles/Acc/EarringsOff"@.len());
    reveal_strlit("Hair/ShortOn");
    assert("Toggles/Acc/DogtagsOff"@.len() != "Hair/ShortOn"@.len());
    reveal_strlit("Hair/PonyOn");
    assert("Toggles/Acc/DogtagsOff"@.len() != "Hair/PonyOn"@.len());
    reveal_strlit("Hair/LongOn");
    assert("Toggles/Acc/DogtagsOff"@.len() != "Hair/LongOn"@.len());
    reveal_strlit("Nails/Normal");
    assert("Toggles/Acc/DogtagsOff"@.len() != "Nails/Normal"@.len());
    reveal_strlit("Nails/Square");
    assert("Toggles/Acc/DogtagsOff"@.len() != "Nails/Square"@.len());
    reveal_strlit("Nails/Almond");
    assert("Toggles/Acc/DogtagsOff"@.len() != "Nails/Almond"@.len());
    reveal_strlit("Nails/Longer");
    assert("Toggles/Acc/DogtagsOff"@.len() != "Nails/Longer"@.len());
    reveal_strlit("Nails/Stilletto");
    assert("Toggles/Acc/DogtagsOff"@.len() != "Nails/Stilletto"@.len());
    reveal_strlit("Mat/Hue");
    assert("Toggles/Acc/DogtagsOff"@.len() != "Mat/Hue"@.len());
    reveal_strlit("Mat/Colors/HairHue");
    assert("Toggles/Acc/DogtagsOff"@.len() != "Mat/Colors/HairHue"@.len());
    reveal_strlit("Mat/Colors/HairColored");
    assert("Toggles/Acc/DogtagsOff"@[0] != "Mat/Colors/HairColored"@[0]);
    reveal_strlit("Mat/Cyberpunk");
    assert("Toggles/Acc/DogtagsOff"@.len() != "Mat/Cyberpunk"@.len());
    reveal_strlit("Mat/HairBlack");
    assert("Toggles/Acc/DogtagsOff"@.len() != "Mat/HairBlack"@.len());
    reveal_strlit("Mat/HairWhite");
    assert("Toggles/Acc/DogtagsOff"@.len() != "Mat/HairWhite"@.len());
    reveal_strlit("Mat/HairBlonde");
    assert("Toggles/Acc/DogtagsOff"@.len() != "Mat/HairBlonde"@.len());
    reveal_strlit("Mat/Monochromatic");
    assert("Toggles/Acc/DogtagsOff"@.len() != "Mat/Monochromatic"@.len());
    reveal_strlit("Mat/AudioLink");
    assert("Toggles/Acc/DogtagsOff"@.len() != "Mat/AudioLink"@.len());
    reveal_strlit("Mat/Colors/AssPantsDark");
    assert("Toggles/Acc/DogtagsOff"@.len() != "Mat/Colors/AssPantsDark"@.len());
    reveal_strlit("Mat/Colors/BackpackDark");
    assert("Toggles/Acc/DogtagsOff"@.len() != "Mat/Colors/BackpackDark"@.len());
    reveal_strlit("Mat/Colors/BeanieDark");
    assert("Toggles/Acc/DogtagsOff"@.len() != "Mat/Colors/BeanieDark"@.len());
    reveal_strlit("Mat/Colors/GlovesDark");
    assert("Toggles/Acc/DogtagsOff"@.len() != "Mat/Colors/GlovesDark"@.len());
    reveal_strlit("Mat/Colors/HeadphonesDark");
    assert("Toggles/Acc/DogtagsOff"@.len() != "Mat/Colors/HeadphonesDark"@.len());
    reveal_strlit("Mat/Colors/JacketDark");
    assert("Toggles/Acc/DogtagsOff"@.len() != "Mat/Colors/JacketDark"@.len());
    reveal_strlit("Mat/Colors/MaskDark");
    assert("Toggles/Acc/DogtagsOff"@.len() != "Mat/Colors/MaskDark"@.len());
    reveal_strlit("Mat/Colors/ShoeDark");
    assert("Toggles/Acc/DogtagsOff"@.len() != "Mat/Colors/ShoeDark"@.len());
    reveal_strlit("Mat/Colors/SleevesDark");
    assert("Toggles/Acc/DogtagsOff"@[0] != "Mat/Colors/SleevesDark"@[0]);
    reveal_strlit("Mat/Colors/SwimsuitDark");
    assert("Toggles/Acc/DogtagsOff"@.len() != "Mat/Colors/SwimsuitDark"@.len());
    reveal_strlit("Mat/Colors/PantsDark");
    assert("Toggles/Acc/DogtagsOff"@.len() != "Mat/Colors/PantsDark"@.len());
    reveal_strlit("Mat/Colors/SportsBraDark");
    assert("Toggles/Acc/DogtagsOff"@.len() != "Mat/Colors/SportsBraDark"@.len());
    reveal_strlit("Mat/Colors/TankTopDark");
    assert("Toggles/Acc/DogtagsOff"@[0] != "Mat/Colors/TankTopDark"@[0]);
    reveal_strlit("Mat/Colors/CropDark");
    assert("Toggles/Acc/DogtagsOff"@.len() != "Mat/Colors/CropDark"@.len());
}

proof fn lemma_distinct_from_later_23()
    ensures
        "Toggles/Acc/LipRingsOff"@ != "Toggles/Acc/EarringsOff"@,
        "Toggles/Acc/LipRingsOff"@ != "Hair/ShortOn"@,
        "Toggles/Acc/LipRingsOff"@ != "Hair/PonyOn"@,
        "Toggles/Acc/LipRingsOff"@ != "Hair/LongOn"@,
        "Toggles/Acc/LipRingsOff"@ != "Nails/Normal"@,
        "Toggles/Acc/LipRingsOff"@ != "Nails/Square"@,
        "Toggles/Acc/LipRingsOff"@ != "Nails/Almond"@,
        "Toggles/Acc/LipRingsOff"@ != "Nails/Longer"@,
        "Toggles/Acc/LipRingsOff"@ != "Nails/Stilletto"@,
        "Toggles/Acc/LipRingsOff"@ != "Mat/Hue"@,
        "Toggles/Acc/LipRingsOff"@ != "Mat/Colors/HairHue"@,
        "Toggles/Acc/LipRingsOff"@ != "Mat/Colors/HairColored"@,
        "Toggles/Acc/LipRingsOff"@ != "Mat/Cyberpunk"@,
        "Toggles/Acc/LipRingsOff"@ != "Mat/HairBlack"@,
        "Toggles/Acc/LipRingsOff"@ != "Mat/HairWhite"@,
        "Toggles/Acc/LipRingsOff"@ != "Mat/HairBlonde"@,
        "Toggles/Acc/LipRingsOff"@ != "Mat/Monochromatic"@,
        "Toggles/Acc/LipRingsOff"@ != "Mat/AudioLink"@,
        "Toggles/Acc/LipRingsOff"@ != "Mat/Colors/AssPantsDark"@,
        "Toggles/Acc/LipRingsOff"@ != "Mat/Colors/BackpackDark"@,
        "Toggles/Acc/LipRingsOff"@ != "Mat/Colors/BeanieDark"@,
        "Toggles/Acc/LipRingsOff"@ != "Mat/Colors/GlovesDark"@,
        "Toggles/Acc/LipRingsOff"@ != "Mat/Colors/HeadphonesDark"@,
        "Toggles/Acc/LipRingsOff"@ != "Mat/Colors/JacketDark"@,
        "Toggles/Acc/LipRingsOff"@ != "Mat/Colors/MaskDark"@,
        "Toggles/Acc/LipRingsOff"@ != "Mat/Colors/ShoeDark"@,
        "Toggles/Acc/LipRingsOff"@ != "Mat/Colors/SleevesDark"@,
        "Toggles/Acc/LipRingsOff"@ != "Mat/Colors/SwimsuitDark"@,
        "Toggles/Acc/LipRingsOff"@ != "Mat/Colors/PantsDark"@,
        "Toggles/Acc/LipRingsOff"@ != "Mat/Colors/SportsBraDark"@,
        "Toggles/Acc/LipRingsOff"@ != "Mat/Colors/TankTopDark"@,
        "Toggles/Acc/LipRingsOff"@ != "Mat/Colors/CropDark"@,
{
    reveal_strlit("Toggles/Acc/LipRingsOff");
    reveal_strlit("Toggles/Acc/EarringsOff");
    assert("Toggles/Acc/LipRingsOff"@[12] != "Toggles/Acc/EarringsOff"@[12]);
    reveal_strlit("Hair/ShortOn");
    assert("Toggles/Acc/LipRingsOff"@.len() != "Hair/ShortOn"@.len());
    reveal_strlit("Hair/PonyOn");
    assert("Toggles/Acc/LipRingsOff"@.len() != "Hair/PonyOn"@.len());
    reveal_strlit("Hair/LongOn");
    assert("Toggles/Acc/LipRingsOff"@.len() != "Hair/LongOn"@.len());
    reveal_strlit("Nails/Normal");
    assert("Toggles/Acc/LipRingsOff"@.len() != "Nails/Normal"@.len());
    reveal_strlit("Nails/Square");
    assert("Toggles/Acc/LipRingsOff"@.len() != "Nails/Square"@.len());
    reveal_strlit("Nails/Almond");
    assert("Toggles/Acc/LipRingsOff"@.len() != "Nails/Almond"@.len());
    reveal_strlit("Nails/Longer");
    assert("Toggles/Acc/LipRingsOff"@.len() != "Nails/Longer"@.len());
    reveal_strlit("Nails/Stilletto");
    assert("Toggles/Acc/LipRingsOff"@.len() != "Nails/Stilletto"@.len());
    reveal_strlit("Mat/Hue");
    assert("Toggles/Acc/LipRingsOff"@.len() != "Mat/Hue"@.len());
    reveal_strlit("Mat/Colors/HairHue");
    assert("Toggles/Acc/LipRingsOff"@.len() != "Mat/Colors/HairHue"@.len());
    reveal_strlit("Mat/Colors/HairColored");
    assert("Toggles/Acc/LipRingsOff"@.len() != "Mat/Colors/HairColored"@.len());
    reveal_strlit("Mat/Cyberpunk");
    assert("Toggles/Acc/LipRingsOff"@.len() != "Mat/Cyberpunk"@.len());
    reveal_strlit("Mat/HairBlack");
    assert("Toggles/Acc/LipRingsOff"@.len() != "Mat/HairBlack"@.len());
    reveal_strlit("Mat/HairWhite");
    assert("Toggles/Acc/LipRingsOff"@.len() != "Mat/HairWhite"@.len());
    reveal_strlit("Mat/HairBlonde");
    assert("Toggles/Acc/LipRingsOff"@.len() != "Mat/HairBlonde"@.len());
    reveal_strlit("Mat/Monochromatic");
    assert("Toggles/Acc/LipRingsOff"@.len() != "Mat/Monochromatic"@.len());
    reveal_strlit("Mat/AudioLink");
    assert("Toggles/Acc/LipRingsOff"@.len() != "Mat/AudioLink"@.len());
    reveal_strlit("Mat/Colors/AssPantsDark");
    assert("Toggles/Acc/LipRingsOff"@[0] != "Mat/Colors/AssPantsDark"@[0]);
    reveal_strlit("Mat/Colors/BackpackDark");
    assert("Toggles/Acc/LipRingsOff"@[0] != "Mat/Colors/BackpackDark"@[0]);
    reveal_strlit("Mat/Colors/BeanieDark");
    assert("Toggles/Acc/LipRingsOff"@.len() != "Mat/Colors/BeanieDark"@.len());
    reveal_strlit("Mat/Colors/GlovesDark");
    assert("Toggles/Acc/LipRingsOff"@.len() != "Mat/Colors/GlovesDark"@.len());
    reveal_strlit("Mat/Colors/HeadphonesDark");
    assert("Toggles/Acc/LipRingsOff"@.len() != "Mat/Colors/HeadphonesDark"@.len());
    reveal_strlit("Mat/Colors/JacketDark");
    assert("Toggles/Acc/LipRingsOff"@.len() != "Mat/Colors/JacketDark"@.len());
    reveal_strlit("Mat/Colors/MaskDark");
    assert("Toggles/Acc/LipRingsOff"@.len() != "Mat/Colors/MaskDark"@.len());
    reveal_strlit("Mat/Colors/ShoeDark");
    assert("Toggles/Acc/LipRingsOff"@.len() != "Mat/Colors/ShoeDark"@.len());
    reveal_strlit("Mat/Colors/SleevesDark");
    assert("Toggles/Acc/LipRingsOff"@.len() != "Mat/Colors/SleevesDark"@.len());
    reveal_strlit("Mat/Colors/SwimsuitDark");
    assert("Toggles/Acc/LipRingsOff"@[0] != "Mat/Colors/SwimsuitDark"@[0]);
    reveal_strlit("Mat/Colors/PantsDark");
    assert("Toggles/Acc/LipRingsOff"@.len() != "Mat/Colors/PantsDark"@.len());
    reveal_strlit("Mat/Colors/SportsBraDark");
    assert("Toggles/Acc/LipRingsOff"@.len() != "Mat/Colors/SportsBraDark"@.len());
    reveal_strlit("Mat/Colors/TankTopDark");
    assert("Toggles/Acc/LipRingsOff"@.len() != "Mat/Colors/TankTopDark"@.len());
    reveal_strlit("Mat/Colors/CropDark");
    assert("Toggles/Acc/LipRingsOff"@.len() != "Mat/Colors/CropDark"@.len());
}

proof fn lemma_distinct_from_later_24()
    ensures
        "Toggles/Acc/EarringsOff"@ != "Hair/ShortOn"@,
        "Toggles/Acc/EarringsOff"@ != "Hair/PonyOn"@,
        "Toggles/Acc/EarringsOff"@ != "Hair/LongOn"@,
        "Toggles/Acc/EarringsOff"@ != "Nails/Normal"@,
        "Toggles/Acc/EarringsOff"@ != "Nails/Square"@,
        "Toggles/Acc/EarringsOff"@ != "Nails/Almond"@,
        "Toggles/Acc/EarringsOff"@ != "Nails/Longer"@,
        "Toggles/Acc/EarringsOff"@ != "Nails/Stilletto"@,
        "Toggles/Acc/EarringsOff"@ != "Mat/Hue"@,
        "Toggles/Acc/EarringsOff"@ != "Mat/Colors/HairHue"@,
        "Toggles/Acc/EarringsOff"@ != "Mat/Colors/HairColored"@,
        "Toggles/Acc/EarringsOff"@ != "Mat/Cyberpunk"@,
        "Toggles/Acc/EarringsOff"@ != "Mat/HairBlack"@,
        "Toggles/Acc/EarringsOff"@ != "Mat/HairWhite"@,
        "Toggles/Acc/EarringsOff"@ != "Mat/HairBlonde"@,
        "Toggles/Acc/EarringsOff"@ != "Mat/Monochromatic"@,
        "Toggles/Acc/EarringsOff"@ != "Mat/AudioLink"@,
        "Toggles/Acc/EarringsOff"@ != "Mat/Colors/AssPantsDark"@,
        "Toggles/Acc/EarringsOff"@ != "Mat/Colors/BackpackDark"@,
        "Toggles/Acc/EarringsOff"@ != "Mat/Colors/BeanieDark"@,
        "Toggles/Acc/EarringsOff"@ != "Mat/Colors/GlovesDark"@,
        "Toggles/Acc/EarringsOff"@ != "Mat/Colors/HeadphonesDark"@,
        "Toggles/Acc/EarringsOff"@ != "Mat/Colors/JacketDark"@,
        "Toggles/Acc/EarringsOff"@ != "Mat/Colors/MaskDark"@,
        "Toggles/Acc/EarringsOff"@ != "Mat/Colors/ShoeDark"@,
        "Toggles/Acc/EarringsOff"@ != "Mat/Colors/SleevesDark"@,
        "Toggles/Acc/EarringsOff"@ != "Mat/Colors/SwimsuitDark"@,
        "Toggles/Acc/EarringsOff"@ != "Mat/Colors/PantsDark"@,
        "Toggles/Acc/EarringsOff"@ != "Mat/Colors/SportsBraDark"@,
        "Toggles/Acc/EarringsOff"@ != "Mat/Colors/TankTopDark"@,
        "Toggles/Acc/EarringsOff"@ != "Mat/Colors/CropDark"@,
{
    reveal_strlit("Toggles/Acc/EarringsOff");
    reveal_strlit("Hair/ShortOn");
    assert("Toggles/Acc/EarringsOff"@.len() != "Hair/ShortOn"@.len());
    reveal_strlit("Hair/PonyOn");
    assert("Toggles/Acc/EarringsOff"@.len() != "Hair/PonyOn"@.len());
    reveal_strlit("Hair/LongOn");
    assert("Toggles/Acc/EarringsOff"@.len() != "Hair/LongOn"@.len());
    reveal_strlit("Nails/Normal");
    assert("Toggles/Acc/EarringsOff"@.len() != "Nails/Normal"@.len());
    reveal_strlit("Nails/Square");
    assert("Toggles/Acc/EarringsOff"@.len() != "Nails/Square"@.len());
    reveal_strlit("Nails/Almond");
    assert("Toggles/Acc/EarringsOff"@.len() != "Nails/Almond"@.len());
    reveal_strlit("Nails/Longer");
    assert("Toggles/Acc/EarringsOff"@.len() != "Nails/Longer"@.len());
    reveal_strlit("Nails/Stilletto");
    assert("Toggles/Acc/EarringsOff"@.len() != "Nails/Stilletto"@.len());
    reveal_strlit("Mat/Hue");
    assert("Toggles/Acc/EarringsOff"@.len() != "Mat/Hue"@.len());
    reveal_strlit("Mat/Colors/HairHue");
    assert("Toggles/Acc/EarringsOff"@.len() != "Mat/Colors/HairHue"@.len());
    reveal_strlit("Mat/Colors/HairColored");
    assert("Toggles/Acc/EarringsOff"@.len() != "Mat/Colors/HairColored"@.len());
    reveal_strlit("Mat/Cyberpunk");
    assert("Toggles/Acc/EarringsOff"@.len() != "Mat/Cyberpunk"@.len());
    reveal_strlit("Mat/HairBlack");
    assert("Toggles/Acc/EarringsOff"@.len() != "Mat/HairBlack"@.len());
    reveal_strlit("Mat/HairWhite");
    assert("Toggles/Acc/EarringsOff"@.len() != "Mat/HairWhite"@.len());
    reveal_strlit("Mat/HairBlonde");
    assert("Toggles/Acc/EarringsOff"@.len() != "Mat/HairBlonde"@.len());
    reveal_strlit("Mat/Monochromatic");
    assert("Toggles/Acc/EarringsOff"@.len() != "Mat/Monochromatic"@.len());
    reveal_strlit("Mat/AudioLink");
    assert("Toggles/Acc/EarringsOff"@.len() != "Mat/AudioLink"@.len());
    reveal_strlit("Mat/Colors/AssPantsDark");
    assert("Toggles/Acc/EarringsOff"@[0] != "Mat/Colors/AssPantsDark"@[0]);
    reveal_strlit("Mat/Colors/BackpackDark");
    assert("Toggles/Acc/EarringsOff"@[0] != "Mat/Colors/BackpackDark"@[0]);
    reveal_strlit("Mat/Colors/BeanieDark");
    assert("Toggles/Acc/EarringsOff"@.len() != "Mat/Colors/BeanieDark"@.len());
    reveal_strlit("Mat/Colors/GlovesDark");
    assert("Toggles/Acc/EarringsOff"@.len() != "Mat/Colors/GlovesDark"@.len());
    reveal_strlit("Mat/Colors/HeadphonesDark");
    assert("Toggles/Acc/EarringsOff"@.len() != "Mat/Colors/HeadphonesDark"@.len());
    reveal_strlit("Mat/Colors/JacketDark");
    assert("Toggles/Acc/EarringsOff"@.len() != "Mat/Colors/JacketDark"@.len());
    reveal_strlit("Mat/Colors/MaskDark");
    assert("Toggles/Acc/EarringsOff"@.len() != "Mat/Colors/MaskDark"@.len());
    reveal_strlit("Mat/Colors/ShoeDark");
    assert("Toggles/Acc/EarringsOff"@.len() != "Mat/Colors/ShoeDark"@.len());
    reveal_strlit("Mat/Colors/SleevesDark");
    assert("Toggles/Acc/EarringsOff"@.len() != "Mat/Colors/SleevesDark"@.len());
    reveal_strlit("Mat/Colors/SwimsuitDark");
    assert("Toggles/Acc/EarringsOff"@[0] != "Mat/Colors/SwimsuitDark"@[0]);
    reveal_strlit("Mat/Colors/PantsDark");
    assert("Toggles/Acc/EarringsOff"@.len() != "Mat/Colors/PantsDark"@.len());
    reveal_strlit("Mat/Colors/SportsBraDark");
    assert("Toggles/Acc/EarringsOff"@.len() != "Mat/Colors/SportsBraDark"@.len());
    reveal_strlit("Mat/Colors/TankTopDark");
    assert("Toggles/Acc/EarringsOff"@.len() != "Mat/Colors/TankTopDark"@.len());
    reveal_strlit("Mat/Colors/CropDark");
    assert("Toggles/Acc/EarringsOff"@.len() != "Mat/Colors/CropDark"@.len());
}

proof fn lemma_distinct_from_later_25()
    ensures
        "Hair/ShortOn"@ != "Hair/PonyOn"@,
        "Hair/ShortOn"@ != "Hair/LongOn"@,
        "Hair/ShortOn"@ != "Nails/Normal"@,
        "Hair/ShortOn"@ != "Nails/Square"@,
        "Hair/ShortOn"@ != "Nails/Almond"@,
        "Hair/ShortOn"@ != "Nails/Longer"@,
        "Hair/ShortOn"@ != "Nails/Stilletto"@,
        "Hair/ShortOn"@ != "Mat/Hue"@,
        "Hair/ShortOn"@ != "Mat/Colors/HairHue"@,
        "Hair/ShortOn"@ != "Mat/Colors/HairColored"@,
        "Hair/ShortOn"@ != "Mat/Cyberpunk"@,
        "Hair/ShortOn"@ != "Mat/HairBlack"@,
        "Hair/ShortOn"@ != "Mat/HairWhite"@,
        "Hair/ShortOn"@ != "Mat/HairBlonde"@,
        "Hair/ShortOn"@ != "Mat/Monochromatic"@,
        "Hair/ShortOn"@ != "Mat/AudioLink"@,
        "Hair/ShortOn"@ != "Mat/Colors/AssPantsDark"@,
        "Hair/ShortOn"@ != "Mat/Colors/BackpackDark"@,
        "Hair/ShortOn"@ != "Mat/Colors/BeanieDark"@,
        "Hair/ShortOn"@ != "Mat/Colors/GlovesDark"@,
        "Hair/ShortOn"@ != "Mat/Colors/HeadphonesDark"@,
        "Hair/ShortOn"@ != "Mat/Colors/JacketDark"@,
        "Hair/ShortOn"@ != "Mat/Colors/MaskDark"@,
        "Hair/ShortOn"@ != "Mat/Colors/ShoeDark"@,
        "Hair/ShortOn"@ != "Mat/Colors/SleevesDark"@,
        "Hair/ShortOn"@ != "Mat/Colors/SwimsuitDark"@,
        "Hair/ShortOn"@ != "Mat/Colors/PantsDark"@,
        "Hair/ShortOn"@ != "Mat/Colors/SportsBraDark"@,
        "Hair/ShortOn"@ != "Mat/Colors/TankTopDark"@,
        "Hair/ShortOn"@ != "Mat/Colors/CropDark"@,
{
    reveal_strlit("Hair/ShortOn");
    reveal_strlit("Hair/PonyOn");
    assert("Hair/ShortOn"@.len() != "Hair/PonyOn"@.len());
    reveal_strlit("Hair/LongOn");
    assert("Hair/ShortOn"@.len() != "Hair/LongOn"@.len());
    reveal_strlit("Nails/Normal");
    assert("Hair/ShortOn"@[0] != "Nails/Normal"@[0]);
    reveal_strlit("Nails/Square");
    assert("Hair/ShortOn"@[0] != "Nails/Square"@[0]);
    reveal_strlit("Nails/Almond");
    assert("Hair/ShortOn"@[0] != "Nails/Almond"@[0]);
    reveal_strlit("Nails/Longer");
    assert("Hair/ShortOn"@[0] != "Nails/Longer"@[0]);
    reveal_strlit("Nails/Stilletto");
    assert("Hair/ShortOn"@.len() != "Nails/Stilletto"@.len());
    reveal_strlit("Mat/Hue");
    assert("Hair/ShortOn"@.len() != "Mat/Hue"@.len());
    reveal_strlit("Mat/Colors/HairHue");
    assert("Hair/ShortOn"@.len() != "Mat/Colors/HairHue"@.len());
    reveal_strlit("Mat/Colors/HairColored");
    assert("Hair/ShortOn"@.len() != "Mat/Colors/HairColored"@.len());
    reveal_strlit("Mat/Cyberpunk");
    assert("Hair/ShortOn"@.len() != "Mat/Cyberpunk"@.len());
    reveal_strlit("Mat/HairBlack");
    assert("Hair/ShortOn"@.len() != "Mat/HairBlack"@.len());
    reveal_strlit("Mat/HairWhite");
    assert("Hair/ShortOn"@.len() != "Mat/HairWhite"@.len());
    reveal_strlit("Mat/HairBlonde");
    assert("Hair/ShortOn"@.len() != "Mat/HairBlonde"@.len());
    reveal_strlit("Mat/Monochromatic");
    assert("Hair/ShortOn"@.len() != "Mat/Monochromatic"@.len());
    reveal_strlit("Mat/AudioLink");
    assert("Hair/ShortOn"@.len() != "Mat/AudioLink"@.len());
    reveal_strlit("Mat/Colors/AssPantsDark");
    assert("Hair/ShortOn"@.len() != "Mat/Colors/AssPantsDark"@.len());
    reveal_strlit("Mat/Colors/BackpackDark");
    assert("Hair/ShortOn"@.len() != "Mat/Colors/BackpackDark"@.len());
    reveal_strlit("Mat/Colors/BeanieDark");
    assert("Hair/ShortOn"@.len() != "Mat/Colors/BeanieDark"@.len());
    reveal_strlit("Mat/Colors/GlovesDark");
    assert("Hair/ShortOn"@.len() != "Mat/Colors/GlovesDark"@.len());
    reveal_strlit("Mat/Colors/HeadphonesDark");
    assert("Hair/ShortOn"@.len() != "Mat/Colors/HeadphonesDark"@.len());
    reveal_strlit("Mat/Colors/JacketDark");
    assert("Hair/ShortOn"@.len() != "Mat/Colors/JacketDark"@.len());
    reveal_strlit("Mat/Colors/MaskDark");
    assert("Hair/ShortOn"@.len() != "Mat/Colors/MaskDark"@.len());
    reveal_strlit("Mat/Colors/ShoeDark");
    assert("Hair/ShortOn"@.len() != "Mat/Colors/ShoeDark"@.len());
    reveal_strlit("Mat/Colors/SleevesDark");
    assert("Hair/ShortOn"@.len() != "Mat/Colors/SleevesDark"@.len());
    reveal_strlit("Mat/Colors/SwimsuitDark");
    assert("Hair/ShortOn"@.len() != "Mat/Colors/SwimsuitDark"@.len());
    reveal_strlit("Mat/Colors/PantsDark");
    assert("Hair/ShortOn"@.len() != "Mat/Colors/PantsDark"@.len());
    reveal_strlit("Mat/Colors/SportsBraDark");
    assert("Hair/ShortOn"@.len() != "Mat/Colors/SportsBraDark"@.len());
    reveal_strlit("Mat/Colors/TankTopDark");
    assert("Hair/ShortOn"@.len() != "Mat/Colors/TankTopDark"@.len());
    reveal_strlit("Mat/Colors/CropDark");
    assert("Hair/ShortOn"@.len() != "Mat/Colors/CropDark"@.len());
}

proof fn lemma_distinct_from_later_26()
    ensures
        "Hair/PonyOn"@ != "Hair/LongOn"@,
        "Hair/PonyOn"@ != "Nails/Normal"@,
        "Hair/PonyOn"@ != "Nails/Square"@,
        "Hair/PonyOn"@ != "Nails/Almond"@,
        "Hair/PonyOn"@ != "Nails/Longer"@,
        "Hair/PonyOn"@ != "Nails/Stilletto"@,
        "Hair/PonyOn"@ != "Mat/Hue"@,
        "Hair/PonyOn"@ != "Mat/Colors/HairHue"@,
        "Hair/PonyOn"@ != "Mat/Colors/HairColored"@,
        "Hair/PonyOn"@ != "Mat/Cyberpunk"@,
        "Hair/PonyOn"@ != "Mat/HairBlack"@,
        "Hair/PonyOn"@ != "Mat/HairWhite"@,
        "Hair/PonyOn"@ != "Mat/HairBlonde"@,
        "Hair/PonyOn"@ != "Mat/Monochromatic"@,
        "Hair/PonyOn"@ != "Mat/AudioLink"@,
        "Hair/PonyOn"@ != "Mat/Colors/AssPantsDark"@,
        "Hair/PonyOn"@ != "Mat/Colors/BackpackDark"@,
        "Hair/PonyOn"@ != "Mat/Colors/BeanieDark"@,
        "Hair/PonyOn"@ != "Mat/Colors/GlovesDark"@,
        "Hair/PonyOn"@ != "Mat/Colors/HeadphonesDark"@,
        "Hair/PonyOn"@ != "Mat/Colors/JacketDark"@,
        "Hair/PonyOn"@ != "Mat/Colors/MaskDark"@,
        "Hair/PonyOn"@ != "Mat/Colors/ShoeDark"@,
        "Hair/PonyOn"@ != "Mat/Colors/SleevesDark"@,
        "Hair/PonyOn"@ != "Mat/Colors/SwimsuitDark"@,
        "Hair/PonyOn"@ != "Mat/Colors/PantsDark"@,
        "Hair/PonyOn"@ != "Mat/Colors/SportsBraDark"@,
        "Hair/PonyOn"@ != "Mat/Colors/TankTopDark"@,
        "Hair/PonyOn"@ != "Mat/Colors/CropDark"@,
{
    reveal_strlit("Hair/PonyOn");
    reveal_strlit("Hair/LongOn");
    assert("Hair/PonyOn"@[5] != "Hair/LongOn"@[5]);
    reveal_strlit("Nails/Normal");
    assert("Hair/PonyOn"@.len() != "Nails/Normal"@.len());
    reveal_strlit("Nails/Square");
    assert("Hair/PonyOn"@.len() != "Nails/Square"@.len());
    reveal_strlit("Nails/Almond");
    assert("Hair/PonyOn"@.len() != "Nails/Almond"@.len());
    reveal_strlit("Nails/Longer");
    assert("Hair/PonyOn"@.len() != "Nails/Longer"@.len());
    reveal_strlit("Nails/Stilletto");
    assert("Hair/PonyOn"@.len() != "Nails/Stilletto"@.len());
    reveal_strlit("Mat/Hue");
    assert("Hair/PonyOn"@.len() != "Mat/Hue"@.len());
    reveal_strlit("Mat/Colors/HairHue");
    assert("Hair/PonyOn"@.len() != "Mat/Colors/HairHue"@.len());
    reveal_strlit("Mat/Colors/HairColored");
    assert("Hair/PonyOn"@.len() != "Mat/Colors/HairColored"@.len());
    reveal_strlit("Mat/Cyberpunk");
    assert("Hair/PonyOn"@.len() != "Mat/Cyberpunk"@.len());
    reveal_strlit("Mat/HairBlack");
    assert("Hair/PonyOn"@.len() != "Mat/HairBlack"@.len());
    reveal_strlit("Mat/HairWhite");
    assert("Hair/PonyOn"@.len() != "Mat/HairWhite"@.len());
    reveal_strlit("Mat/HairBlonde");
    assert("Hair/PonyOn"@.len() != "Mat/HairBlonde"@.len());
    reveal_strlit("Mat/Monochromatic");
    assert("Hair/PonyOn"@.len() != "Mat/Monochromatic"@.len());
    reveal_strlit("Mat/AudioLink");
    assert("Hair/PonyOn"@.len() != "Mat/AudioLink"@.len());
    reveal_strlit("Mat/Colors/AssPantsDark");
    assert("Hair/PonyOn"@.len() != "Mat/Colors/AssPantsDark"@.len());
    reveal_strlit("Mat/Colors/BackpackDark");
    assert("Hair/PonyOn"@.len() != "Mat/Colors/BackpackDark"@.len());
    reveal_strlit("Mat/Colors/BeanieDark");
    assert("Hair/PonyOn"@.len() != "Mat/Colors/BeanieDark"@.len());
    reveal_strlit("Mat/Colors/GlovesDark");
    assert("Hair/PonyOn"@.len() != "Mat/Colors/GlovesDark"@.len());
    reveal_strlit("Mat/Colors/HeadphonesDark");
    assert("Hair/PonyOn"@.len() != "Mat/Colors/HeadphonesDark"@.len());
    reveal_strlit("Mat/Colors/JacketDark");
    assert("Hair/PonyOn"@.len() != "Mat/Colors/JacketDark"@.len());
    reveal_strlit("Mat/Colors/MaskDark");
    assert("Hair/PonyOn"@.len() != "Mat/Colors/MaskDark"@.len());
    reveal_strlit("Mat/Colors/ShoeDark");
    assert("Hair/PonyOn"@.len() != "Mat/Colors/ShoeDark"@.len());
    reveal_strlit("Mat/Colors/SleevesDark");
    assert("Hair/PonyOn"@.len() != "Mat/Colors/SleevesDark"@.len());
    reveal_strlit("Mat/Colors/SwimsuitDark");
    assert("Hair/PonyOn"@.len() != "Mat/Colors/SwimsuitDark"@.len());
    reveal_strlit("Mat/Colors/PantsDark");
    assert("Hair/PonyOn"@.len() != "Mat/Colors/PantsDark"@.len());
    reveal_strlit("Mat/Colors/SportsBraDark");
    assert("Hair/PonyOn"@.len() != "Mat/Colors/SportsBraDark"@.len());
    reveal_strlit("Mat/Colors/TankTopDark");
    assert("Hair/PonyOn"@.len() != "Mat/Colors/TankTopDark"@.len());
    reveal_strlit("Mat/Colors/CropDark");
    assert("Hair/PonyOn"@.len() != "Mat/Colors/CropDark"@.len());
}

proof fn lemma_distinct_from_later_27()
    ensures
        "Hair/LongOn"@ != "Nails/Normal"@,
        "Hair/LongOn"@ != "Nails/Square"@,
        "Hair/LongOn"@ != "Nails/Almond"@,
        "Hair/LongOn"@ != "Nails/Longer"@,
        "Hair/LongOn"@ != "Nails/Stilletto"@,
        "Hair/LongOn"@ != "Mat/Hue"@,
        "Hair/LongOn"@ != "Mat/Colors/HairHue"@,
        "Hair/LongOn"@ != "Mat/Colors/HairColored"@,
        "Hair/LongOn"@ != "Mat/Cyberpunk"@,
        "Hair/LongOn"@ != "Mat/HairBlack"@,
        "Hair/LongOn"@ != "Mat/HairWhite"@,
        "Hair/LongOn"@ != "Mat/HairBlonde"@,
        "Hair/LongOn"@ != "Mat/Monochromatic"@,
        "Hair/LongOn"@ != "Mat/AudioLink"@,
        "Hair/LongOn"@ != "Mat/Colors/AssPantsDark"@,
        "Hair/LongOn"@ != "Mat/Colors/BackpackDark"@,
        "Hair/LongOn"@ != "Mat/Colors/BeanieDark"@,
        "Hair/LongOn"@ != "Mat/Colors/GlovesDark"@,
        "Hair/LongOn"@ != "Mat/Colors/HeadphonesDark"@,
        "Hair/LongOn"@ != "Mat/Colors/JacketDark"@,
        "Hair/LongOn"@ != "Mat/Colors/MaskDark"@,
        "Hair/LongOn"@ != "Mat/Colors/ShoeDark"@,
        "Hair/LongOn"@ != "Mat/Colors/SleevesDark"@,
        "Hair/LongOn"@ != "Mat/Colors/SwimsuitDark"@,
        "Hair/LongOn"@ != "Mat/Colors/PantsDark"@,
        "Hair/LongOn"@ != "Mat/Colors/SportsBraDark"@,
        "Hair/LongOn"@ != "Mat/Colors/TankTopDark"@,
        "Hair/LongOn"@ != "Mat/Colors/CropDark"@,
{
    reveal_strlit("Hair/LongOn");
    reveal_strlit("Nails/Normal");
    assert("Hair/LongOn"@.len() != "Nails/Normal"@.len());
    reveal_strlit("Nails/Square");
    assert("Hair/LongOn"@.len() != "Nails/Square"@.len());
    reveal_strlit("Nails/Almond");
    assert("Hair/LongOn"@.len() != "Nails/Almond"@.len());
    reveal_strlit("Nails/Longer");
    assert("Hair/LongOn"@.len() != "Nails/Longer"@.len());
    reveal_strlit("Nails/Stilletto");
    assert("Hair/LongOn"@.len() != "Nails/Stilletto"@.len());
    reveal_strlit("Mat/Hue");
    assert("Hair/LongOn"@.len() != "Mat/Hue"@.len());
    reveal_strlit("Mat/Colors/HairHue");
    assert("Hair/LongOn"@.len() != "Mat/Colors/HairHue"@.len());
    reveal_strlit("Mat/Colors/HairColored");
    assert("Hair/LongOn"@.len() != "Mat/Colors/HairColored"@.len());
    reveal_strlit("Mat/Cyberpunk");
    assert("Hair/LongOn"@.len() != "Mat/Cyberpunk"@.len());
    reveal_strlit("Mat/HairBlack");
    assert("Hair/LongOn"@.len() != "Mat/HairBlack"@.len());
    reveal_strlit("Mat/HairWhite");
    assert("Hair/LongOn"@.len() != "Mat/HairWhite"@.len());
    reveal_strlit("Mat/HairBlonde");
    assert("Hair/LongOn"@.len() != "Mat/HairBlonde"@.len());
    reveal_strlit("Mat/Monochromatic");
    assert("Hair/LongOn"@.len() != "Mat/Monochromatic"@.len());
    reveal_strlit("Mat/AudioLink");
    assert("Hair/LongOn"@.len() != "Mat/AudioLink"@.len());
    reveal_strlit("Mat/Colors/AssPantsDark");
    assert("Hair/LongOn"@.len() != "Mat/Colors/AssPantsDark"@.len());
    reveal_strlit("Mat/Colors/BackpackDark");
    assert("Hair/LongOn"@.len() != "Mat/Colors/BackpackDark"@.len());
    reveal_strlit("Mat/Colors/BeanieDark");
    assert("Hair/LongOn"@.len() != "Mat/Colors/BeanieDark"@.len());
    reveal_strlit("Mat/Colors/GlovesDark");
    assert("Hair/LongOn"@.len() != "Mat/Colors/GlovesDark"@.len());
    reveal_strlit("Mat/Colors/HeadphonesDark");
    assert("Hair/LongOn"@.len() != "Mat/Colors/HeadphonesDark"@.len());
    reveal_strlit("Mat/Colors/JacketDark");
    assert("Hair/LongOn"@.len() != "Mat/Colors/JacketDark"@.len());
    reveal_strlit("Mat/Colors/MaskDark");
    assert("Hair/LongOn"@.len() != "Mat/Colors/MaskDark"@.len());
    reveal_strlit("Mat/Colors/ShoeDark");
    assert("Hair/LongOn"@.len() != "Mat/Colors/ShoeDark"@.len());
    reveal_strlit("Mat/Colors/SleevesDark");
    assert("Hair/LongOn"@.len() != "Mat/Colors/SleevesDark"@.len());
    reveal_strlit("Mat/Colors/SwimsuitDark");
    assert("Hair/LongOn"@.len() != "Mat/Colors/SwimsuitDark"@.len());
    reveal_strlit("Mat/Colors/PantsDark");
    assert("Hair/LongOn"@.len() != "Mat/Colors/PantsDark"@.len());
    reveal_strlit("Mat/Colors/SportsBraDark");
    assert("Hair/LongOn"@.len() != "Mat/Colors/SportsBraDark"@.len());
    reveal_strlit("Mat/Colors/TankTopDark");
    assert("Hair/LongOn"@.len() != "Mat/Colors/TankTopDark"@.len());
    reveal_strlit("Mat/Colors/CropDark");
    assert("Hair/LongOn"@.len() != "Mat/Colors/CropDark"@.len());
}

proof fn lemma_distinct_from_later_28()
    ensures
        "Nails/Normal"@ != "Nails/Square"@,
        "Nails/Normal"@ != "Nails/Almond"@,
        "Nails/Normal"@ != "Nails/Longer"@,
        "Nails/Normal"@ != "Nails/Stilletto"@,
        "Nails/Normal"@ != "Mat/Hue"@,
        "Nails/Normal"@ != "Mat/Colors/HairHue"@,
        "Nails/Normal"@ != "Mat/Colors/HairColored"@,
        "Nails/Normal"@ != "Mat/Cyberpunk"@,
        "Nails/Normal"@ != "Mat/HairBlack"@,
        "Nails/Normal"@ != "Mat/HairWhite"@,
        "Nails/Normal"@ != "Mat/HairBlonde"@,
        "Nails/Normal"@ != "Mat/Monochromatic"@,
        "Nails/Normal"@ != "Mat/AudioLink"@,
        "Nails/Normal"@ != "Mat/Colors/AssPantsDark"@,
        "Nails/Normal"@ != "Mat/Colors/BackpackDark"@,
        "Nails/Normal"@ != "Mat/Colors/BeanieDark"@,
        "Nails/Normal"@ != "Mat/Colors/GlovesDark"@,
        "Nails/Normal"@ != "Mat/Colors/HeadphonesDark"@,
        "Nails/Normal"@ != "Mat/Colors/JacketDark"@,
        "Nails/Normal"@ != "Mat/Colors/MaskDark"@,
        "Nails/Normal"@ != "Mat/Colors/ShoeDark"@,
        "Nails/Normal"@ != "Mat/Colors/SleevesDark"@,
        "Nails/Normal"@ != "Mat/Colors/SwimsuitDark"@,
        "Nails/Normal"@ != "Mat/Colors/PantsDark"@,
        "Nails/Normal"@ != "Mat/Colors/SportsBraDark"@,
        "Nails/Normal"@ != "Mat/Colors/TankTopDark"@,
        "Nails/Normal"@ != "Mat/Colors/CropDark"@,
{
    reveal_strlit("Nails/Normal");
    reveal_strlit("Nails/Square");
    assert("Nails/Normal"@[6] != "Nails/Square"@[6]);
    reveal_strlit("Nails/Almond");
    assert("Nails/Normal"@[6] != "Nails/Almond"@[6]);
    reveal_strlit("Nails/Longer");
    assert("Nails/Normal"@[6] != "Nails/Longer"@[6]);
    reveal_strlit("Nails/Stilletto");
    assert("Nails/Normal"@.len() != "Nails/Stilletto"@.len());
    reveal_strlit("Mat/Hue");
    assert("Nails/Normal"@.len() != "Mat/Hue"@.len());
    reveal_strlit("Mat/Colors/HairHue");
    assert("Nails/Normal"@.len() != "Mat/Colors/HairHue"@.len());
    reveal_strlit("Mat/Colors/HairColored");
    assert("Nails/Normal"@.len() != "Mat/Colors/HairColored"@.len());
    reveal_strlit("Mat/Cyberpunk");
    assert("Nails/Normal"@.len() != "Mat/Cyberpunk"@.len());
    reveal_strlit("Mat/HairBlack");
    assert("Nails/Normal"@.len() != "Mat/HairBlack"@.len());
    reveal_strlit("Mat/HairWhite");
    assert("Nails/Normal"@.len() != "Mat/HairWhite"@.len());
    reveal_strlit("Mat/HairBlonde");
    assert("Nails/Normal"@.len() != "Mat/HairBlonde"@.len());
    reveal_strlit("Mat/Monochromatic");
    assert("Nails/Normal"@.len() != "Mat/Monochromatic"@.len());
    reveal_strlit("Mat/AudioLink");
    assert("Nails/Normal"@.len() != "Mat/AudioLink"@.len());
    reveal_strlit("Mat/Colors/AssPantsDark");
    assert("Nails/Normal"@.len() != "Mat/Colors/AssPantsDark"@.len());
    reveal_strlit("Mat/Colors/BackpackDark");
    assert("Nails/Normal"@.len() != "Mat/Colors/BackpackDark"@.len());
    reveal_strlit("Mat/Colors/BeanieDark");
    assert("Nails/Normal"@.len() != "Mat/Colors/BeanieDark"@.len());
    reveal_strlit("Mat/Colors/GlovesDark");
    assert("Nails/Normal"@.len() != "Mat/Colors/GlovesDark"@.len());
    reveal_strlit("Mat/Colors/HeadphonesDark");
    assert("Nails/Normal"@.len() != "Mat/Colors/HeadphonesDark"@.len());
    reveal_strlit("Mat/Colors/JacketDark");
    assert("Nails/Normal"@.len() != "Mat/Colors/JacketDark"@.len());
    reveal_strlit("Mat/Colors/MaskDark");
    assert("Nails/Normal"@.len() != "Mat/Colors/MaskDark"@.len());
    reveal_strlit("Mat/Colors/ShoeDark");
    assert("Nails/Normal"@.len() != "Mat/Colors/ShoeDark"@.len());
    reveal_strlit("Mat/Colors/SleevesDark");
    assert("Nails/Normal"@.len() != "Mat/Colors/SleevesDark"@.len());
    reveal_strlit("Mat/Colors/SwimsuitDark");
    assert("Nails/Normal"@.len() != "Mat/Colors/SwimsuitDark"@.len());
    reveal_strlit("Mat/Colors/PantsDark");
    assert("Nails/Normal"@.len() != "Mat/Colors/PantsDark"@.len());
    reveal_strlit("Mat/Colors/SportsBraDark");
    assert("Nails/Normal"@.len() != "Mat/Colors/SportsBraDark"@.len());
    reveal_strlit("Mat/Colors/TankTopDark");
    assert("Nails/Normal"@.len() != "Mat/Colors/TankTopDark"@.len());
    reveal_strlit("Mat/Colors/CropDark");
    assert("Nails/Normal"@.len() != "Mat/Colors/CropDark"@.len());
}

proof fn lemma_distinct_from_later_29()
    ensures
        "Nails/Square"@ != "Nails/Almond"@,
        "Nails/Square"@ != "Nails/Longer"@,
        "Nails/Square"@ != "Nails/Stilletto"@,
        "Nails/Square"@ != "Mat/Hue"@,
        "Nails/Square"@ != "Mat/Colors/HairHue"@,
        "Nails/Square"@ != "Mat/Colors/HairColored"@,
        "Nails/Square"@ != "Mat/Cyberpunk"@,
        "Nails/Square"@ != "Mat/HairBlack"@,
        "Nails/Square"@ != "Mat/HairWhite"@,
        "Nails/Square"@ != "Mat/HairBlonde"@,
        "Nails/Square"@ != "Mat/Monochromatic"@,
        "Nails/Square"@ != "Mat/AudioLink"@,
        "Nails/Square"@ != "Mat/Colors/AssPantsDark"@,
        "Nails/Square"@ != "Mat/Colors/BackpackDark"@,
        "Nails/Square"@ != "Mat/Colors/BeanieDark"@,
        "Nails/Square"@ != "Mat/Colors/GlovesDark"@,
        "Nails/Square"@ != "Mat/Colors/HeadphonesDark"@,
        "Nails/Square"@ != "Mat/Colors/JacketDark"@,
        "Nails/Square"@ != "Mat/Colors/MaskDark"@,
        "Nails/Square"@ != "Mat/Colors/ShoeDark"@,
        "Nails/Square"@ != "Mat/Colors/SleevesDark"@,
        "Nails/Square"@ != "Mat/Colors/SwimsuitDark"@,
        "Nails/Square"@ != "Mat/Colors/PantsDark"@,
        "Nails/Square"@ != "Mat/Colors/SportsBraDark"@,
        "Nails/Square"@ != "Mat/Colors/TankTopDark"@,
        "Nails/Square"@ != "Mat/Colors/CropDark"@,
{
    reveal_strlit("Nails/Square");
    reveal_strlit("Nails/Almond");
    assert("Nails/Square"@[6] != "Nails/Almond"@[6]);
    reveal_strlit("Nails/Longer");
    assert("Nails/Square"@[6] != "Nails/Longer"@[6]);
    reveal_strlit("Nails/Stilletto");
    assert("Nails/Square"@.len() != "Nails/Stilletto"@.len());
    reveal_strlit("Mat/Hue");
    assert("Nails/Square"@.len() != "Mat/Hue"@.len());
    reveal_strlit("Mat/Colors/HairHue");
    assert("Nails/Square"@.len() != "Mat/Colors/HairHue"@.len());
    reveal_strlit("Mat/Colors/HairColored");
    assert("Nails/Square"@.len() != "Mat/Colors/HairColored"@.len());
    reveal_strlit("Mat/Cyberpunk");
    assert("Nails/Square"@.len() != "Mat/Cyberpunk"@.len());
    reveal_strlit("Mat/HairBlack");
    assert("Nails/Square"@.len() != "Mat/HairBlack"@.len());
    reveal_strlit("Mat/HairWhite");
    assert("Nails/Square"@.len() != "Mat/HairWhite"@.len());
    reveal_strlit("Mat/HairBlonde");
    assert("Nails/Square"@.len() != "Mat/HairBlonde"@.len());
    reveal_strlit("Mat/Monochromatic");
    assert("Nails/Square"@.len() != "Mat/Monochromatic"@.len());
    reveal_strlit("Mat/AudioLink");
    assert("Nails/Square"@.len() != "Mat/AudioLink"@.len());
    reveal_strlit("Mat/Colors/AssPantsDark");
    assert("Nails/Square"@.len() != "Mat/Colors/AssPantsDark"@.len());
    reveal_strlit("Mat/Colors/BackpackDark");
    assert("Nails/Square"@.len() != "Mat/Colors/BackpackDark"@.len());
    reveal_strlit("Mat/Colors/BeanieDark");
    assert("Nails/Square"@.len() != "Mat/Colors/BeanieDark"@.len());
    reveal_strlit("Mat/Colors/GlovesDark");
    assert("Nails/Square"@.len() != "Mat/Colors/GlovesDark"@.len());
    reveal_strlit("Mat/Colors/HeadphonesDark");
    assert("Nails/Square"@.len() != "Mat/Colors/HeadphonesDark"@.len());
    reveal_strlit("Mat/Colors/JacketDark");
    assert("Nails/Square"@.len() != "Mat/Colors/JacketDark"@.len());
    reveal_strlit("Mat/Colors/MaskDark");
    assert("Nails/Square"@.len() != "Mat/Colors/MaskDark"@.len());
    reveal_strlit("Mat/Colors/ShoeDark");
    assert("Nails/Square"@.len() != "Mat/Colors/ShoeDark"@.len());
    reveal_strlit("Mat/Colors/SleevesDark");
    assert("Nails/Square"@.len() != "Mat/Colors/SleevesDark"@.len());
    reveal_strlit("Mat/Colors/SwimsuitDark");
    assert("Nails/Square"@.len() != "Mat/Colors/SwimsuitDark"@.len());
    reveal_strlit("Mat/Colors/PantsDark");
    assert("Nails/Square"@.len() != "Mat/Colors/PantsDark"@.len());
    reveal_strlit("Mat/Colors/SportsBraDark");
    assert("Nails/Square"@.len() != "Mat/Colors/SportsBraDark"@.len());
    reveal_strlit("Mat/Colors/TankTopDark");
    assert("Nails/Square"@.len() != "Mat/Colors/TankTopDark"@.len());
    reveal_strlit("Mat/Colors/CropDark");
    assert("Nails/Square"@.len() != "Mat/Colors/CropDark"@.len());
}

proof fn lemma_distinct_from_later_30()
    ensures
        "Nails/Almond"@ != "Nails/Longer"@,
        "Nails/Almond"@ != "Nails/Stilletto"@,
        "Nails/Almond"@ != "Mat/Hue"@,
        "Nails/Almond"@ != "Mat/Colors/HairHue"@,
        "Nails/Almond"@ != "Mat/Colors/HairColored"@,
        "Nails/Almond"@ != "Mat/Cyberpunk"@,
        "Nails/Almond"@ != "Mat/HairBlack"@,
        "Nails/Almond"@ != "Mat/HairWhite"@,
        "Nails/Almond"@ != "Mat/HairBlonde"@,
        "Nails/Almond"@ != "Mat/Monochromatic"@,
        "Nails/Almond"@ != "Mat/AudioLink"@,
        "Nails/Almond"@ != "Mat/Colors/AssPantsDark"@,
        "Nails/Almond"@ != "Mat/Colors/BackpackDark"@,
        "Nails/Almond"@ != "Mat/Colors/BeanieDark"@,
        "Nails/Almond"@ != "Mat/Colors/GlovesDark"@,
        "Nails/Almond"@ != "Mat/Colors/HeadphonesDark"@,
        "Nails/Almond"@ != "Mat/Colors/JacketDark"@,
        "Nails/Almond"@ != "Mat/Colors/MaskDark"@,
        "Nails/Almond"@ != "Mat/Colors/ShoeDark"@,
        "Nails/Almond"@ != "Mat/Colors/SleevesDark"@,
        "Nails/Almond"@ != "Mat/Colors/SwimsuitDark"@,
        "Nails/Almond"@ != "Mat/Colors/PantsDark"@,
        "Nails/Almond"@ != "Mat/Colors/SportsBraDark"@,
        "Nails/Almond"@ != "Mat/Colors/TankTopDark"@,
        "Nails/Almond"@ != "Mat/Colors/CropDark"@,
{
    reveal_strlit("Nails/Almond");
    reveal_strlit("Nails/Longer");
    assert("Nails/Almond"@[6] != "Nails/Longer"@[6]);
    reveal_strlit("Nails/Stilletto");
    assert("Nails/Almond"@.len() != "Nails/Stilletto"@.len());
    reveal_strlit("Mat/Hue");
    assert("Nails/Almond"@.len() != "Mat/Hue"@.len());
    reveal_strlit("Mat/Colors/HairHue");
    assert("Nails/Almond"@.len() != "Mat/Colors/HairHue"@.len());
    reveal_strlit("Mat/Colors/HairColored");
    assert("Nails/Almond"@.len() != "Mat/Colors/HairColored"@.len());
    reveal_strlit("Mat/Cyberpunk");
    assert("Nails/Almond"@.len() != "Mat/Cyberpunk"@.len());
    reveal_strlit("Mat/HairBlack");
    assert("Nails/Almond"@.len() != "Mat/HairBlack"@.len());
    reveal_strlit("Mat/HairWhite");
    assert("Nails/Almond"@.len() != "Mat/HairWhite"@.len());
    reveal_strlit("Mat/HairBlonde");
    assert("Nails/Almond"@.len() != "Mat/HairBlonde"@.len());
    reveal_strlit("Mat/Monochromatic");
    assert("Nails/Almond"@.len() != "Mat/Monochromatic"@.len());
    reveal_strlit("Mat/AudioLink");
    assert("Nails/Almond"@.len() != "Mat/AudioLink"@.len());
    reveal_strlit("Mat/Colors/AssPantsDark");
    assert("Nails/Almond"@.len() != "Mat/Colors/AssPantsDark"@.len());
    reveal_strlit("Mat/Colors/BackpackDark");
    assert("Nails/Almond"@.len() != "Mat/Colors/BackpackDark"@.len());
    reveal_strlit("Mat/Colors/BeanieDark");
    assert("Nails/Almond"@.len() != "Mat/Colors/BeanieDark"@.len());
    reveal_strlit("Mat/Colors/GlovesDark");
    assert("Nails/Almond"@.len() != "Mat/Colors/GlovesDark"@.len());
    reveal_strlit("Mat/Colors/HeadphonesDark");
    assert("Nails/Almond"@.len() != "Mat/Colors/HeadphonesDark"@.len());
    reveal_strlit("Mat/Colors/JacketDark");
    assert("Nails/Almond"@.len() != "Mat/Colors/JacketDark"@.len());
    reveal_strlit("Mat/Colors/MaskDark");
    assert("Nails/Almond"@.len() != "Mat/Colors/MaskDark"@.len());
    reveal_strlit("Mat/Colors/ShoeDark");
    assert("Nails/Almond"@.len() != "Mat/Colors/ShoeDark"@.len());
    reveal_strlit("Mat/Colors/SleevesDark");
    assert("Nails/Almond"@.len() != "Mat/Colors/SleevesDark"@.len());
    reveal_strlit("Mat/Colors/SwimsuitDark");
    assert("Nails/Almond"@.len() != "Mat/Colors/SwimsuitDark"@.len());
    reveal_strlit("Mat/Colors/PantsDark");
    assert("Nails/Almond"@.len() != "Mat/Colors/PantsDark"@.len());
    reveal_strlit("Mat/Colors/SportsBraDark");
    assert("Nails/Almond"@.len() != "Mat/Colors/SportsBraDark"@.len());
    reveal_strlit("Mat/Colors/TankTopDark");
    assert("Nails/Almond"@.len() != "Mat/Colors/TankTopDark"@.len());
    reveal_strlit("Mat/Colors/CropDark");
    assert("Nails/Almond"@.len() != "Mat/Colors/CropDark"@.len());
}

proof fn lemma_distinct_from_later_31()
    ensures
        "Nails/Longer"@ != "Nails/Stilletto"@,
        "Nails/Longer"@ != "Mat/Hue"@,
        "Nails/Longer"@ != "Mat/Colors/HairHue"@,
        "Nails/Longer"@ != "Mat/Colors/HairColored"@,
        "Nails/Longer"@ != "Mat/Cyberpunk"@,
        "Nails/Longer"@ != "Mat/HairBlack"@,
        "Nails/Longer"@ != "Mat/HairWhite"@,
        "Nails/Longer"@ != "Mat/HairBlonde"@,
        "Nails/Longer"@ != "Mat/Monochromatic"@,
        "Nails/Longer"@ != "Mat/AudioLink"@,
        "Nails/Longer"@ != "Mat/Colors/AssPantsDark"@,
        "Nails/Longer"@ != "Mat/Colors/BackpackDark"@,
        "Nails/Longer"@ != "Mat/Colors/BeanieDark"@,
        "Nails/Longer"@ != "Mat/Colors/GlovesDark"@,
        "Nails/Longer"@ != "Mat/Colors/HeadphonesDark"@,
        "Nails/Longer"@ != "Mat/Colors/JacketDark"@,
        "Nails/Longer"@ != "Mat/Colors/MaskDark"@,
        "Nails/Longer"@ != "Mat/Colors/ShoeDark"@,
        "Nails/Longer"@ != "Mat/Colors/SleevesDark"@,
        "Nails/Longer"@ != "Mat/Colors/SwimsuitDark"@,
        "Nails/Longer"@ != "Mat/Colors/PantsDark"@,
        "Nails/Longer"@ != "Mat/Colors/SportsBraDark"@,
        "Nails/Longer"@ != "Mat/Colors/TankTopDark"@,
        "Nails/Longer"@ != "Mat/Colors/CropDark"@,
{
    reveal_strlit("Nails/Longer");
    reveal_strlit("Nails/Stilletto");
    assert("Nails/Longer"@.len() != "Nails/Stilletto"@.len());
    reveal_strlit("Mat/Hue");
    assert("Nails/Longer"@.len() != "Mat/Hue"@.len());
    reveal_strlit("Mat/Colors/HairHue");
    assert("Nails/Longer"@.len() != "Mat/Colors/HairHue"@.len());
    reveal_strlit("Mat/Colors/HairColored");
    assert("Nails/Longer"@.len() != "Mat/Colors/HairColored"@.len());
    reveal_strlit("Mat/Cyberpunk");
    assert("Nails/Longer"@.len() != "Mat/Cyberpunk"@.len());
    reveal_strlit("Mat/HairBlack");
    assert("Nails/Longer"@.len() != "Mat/HairBlack"@.len());
    reveal_strlit("Mat/HairWhite");
    assert("Nails/Longer"@.len() != "Mat/HairWhite"@.len());
    reveal_strlit("Mat/HairBlonde");
    assert("Nails/Longer"@.len() != "Mat/HairBlonde"@.len());
    reveal_strlit("Mat/Monochromatic");
    assert("Nails/Longer"@.len() != "Mat/Monochromatic"@.len());
    reveal_strlit("Mat/AudioLink");
    assert("Nails/Longer"@.len() != "Mat/AudioLink"@.len());
    reveal_strlit("Mat/Colors/AssPantsDark");
    assert("Nails/Longer"@.len() != "Mat/Colors/AssPantsDark"@.len());
    reveal_strlit("Mat/Colors/BackpackDark");
    assert("Nails/Longer"@.len() != "Mat/Colors/BackpackDark"@.len());
    reveal_strlit("Mat/Colors/BeanieDark");
    assert("Nails/Longer"@.len() != "Mat/Colors/BeanieDark"@.len());
    reveal_strlit("Mat/Colors/GlovesDark");
    assert("Nails/Longer"@.len() != "Mat/Colors/GlovesDark"@.len());
    reveal_strlit("Mat/Colors/HeadphonesDark");
    assert("Nails/Longer"@.len() != "Mat/Colors/HeadphonesDark"@.len());
    reveal_strlit("Mat/Colors/JacketDark");
    assert("Nails/Longer"@.len() != "Mat/Colors/JacketDark"@.len());
    reveal_strlit("Mat/Colors/MaskDark");
    assert("Nails/Longer"@.len() != "Mat/Colors/MaskDark"@.len());
    reveal_strlit("Mat/Colors/ShoeDark");
    assert("Nails/Longer"@.len() != "Mat/Colors/ShoeDark"@.len());
    reveal_strlit("Mat/Colors/SleevesDark");
    assert("Nails/Longer"@.len() != "Mat/Colors/SleevesDark"@.len());
    reveal_strlit("Mat/Colors/SwimsuitDark");
    assert("Nails/Longer"@.len() != "Mat/Colors/SwimsuitDark"@.len());
    reveal_strlit("Mat/Colors/PantsDark");
    assert("Nails/Longer"@.len() != "Mat/Colors/PantsDark"@.len());
    reveal_strlit("Mat/Colors/SportsBraDark");
    assert("Nails/Longer"@.len() != "Mat/Colors/SportsBraDark"@.len());
    reveal_strlit("Mat/Colors/TankTopDark");
    assert("Nails/Longer"@.len() != "Mat/Colors/TankTopDark"@.len());
    reveal_strlit("Mat/Colors/CropDark");
    assert("Nails/Longer"@.len() != "Mat/Colors/CropDark"@.len());
}

proof fn lemma_distinct_from_later_32()
    ensures
        "Nails/Stilletto"@ != "Mat/Hue"@,
        "Nails/Stilletto"@ != "Mat/Colors/HairHue"@,
        "Nails/Stilletto"@ != "Mat/Colors/HairColored"@,
        "Nails/Stilletto"@ != "Mat/Cyberpunk"@,
        "Nails/Stilletto"@ != "Mat/HairBlack"@,
        "Nails/Stilletto"@ != "Mat/HairWhite"@,
        "Nails/Stilletto"@ != "Mat/HairBlonde"@,
        "Nails/Stilletto"@ != "Mat/Monochromatic"@,
        "Nails/Stilletto"@ != "Mat/AudioLink"@,
        "Nails/Stilletto"@ != "Mat/Colors/AssPantsDark"@,
        "Nails/Stilletto"@ != "Mat/Colors/BackpackDark"@,
        "Nails/Stilletto"@ != "Mat/Colors/BeanieDark"@,
        "Nails/Stilletto"@ != "Mat/Colors/GlovesDark"@,
        "Nails/Stilletto"@ != "Mat/Colors/HeadphonesDark"@,
        "Nails/Stilletto"@ != "Mat/Colors/JacketDark"@,
        "Nails/Stilletto"@ != "Mat/Colors/MaskDark"@,
        "Nails/Stilletto"@ != "Mat/Colors/ShoeDark"@,
        "Nails/Stilletto"@ != "Mat/Colors/SleevesDark"@,
        "Nails/Stilletto"@ != "Mat/Colors/SwimsuitDark"@,
        "Nails/Stilletto"@ != "Mat/Colors/PantsDark"@,
        "Nails/Stilletto"@ != "Mat/Colors/SportsBraDark"@,
        "Nails/Stilletto"@ != "Mat/Colors/TankTopDark"@,
        "Nails/Stilletto"@ != "Mat/Colors/CropDark"@,
{
    reveal_strlit("Nails/Stilletto");
    reveal_strlit("Mat/Hue");
    assert("Nails/Stilletto"@.len() != "Mat/Hue"@.len());
    reveal_strlit("Mat/Colors/HairHue");
    assert("Nails/Stilletto"@.len() != "Mat/Colors/HairHue"@.len());
    reveal_strlit("Mat/Colors/HairColored");
    assert("Nails/Stilletto"@.len() != "Mat/Colors/HairColored"@.len());
    reveal_strlit("Mat/Cyberpunk");
    assert("Nails/Stilletto"@.len() != "Mat/Cyberpunk"@.len());
    reveal_strlit("Mat/HairBlack");
    assert("Nails/Stilletto"@.len() != "Mat/HairBlack"@.len());
    reveal_strlit("Mat/HairWhite");
    assert("Nails/Stilletto"@.len() != "Mat/HairWhite"@.len());
    reveal_strlit("Mat/HairBlonde");
    assert("Nails/Stilletto"@.len() != "Mat/HairBlonde"@.len());
    reveal_strlit("Mat/Monochromatic");
    assert("Nails/Stilletto"@.len() != "Mat/Monochromatic"@.len());
    reveal_strlit("Mat/AudioLink");
    assert("Nails/Stilletto"@.len() != "Mat/AudioLink"@.len());
    reveal_strlit("Mat/Colors/AssPantsDark");
    assert("Nails/Stilletto"@.len() != "Mat/Colors/AssPantsDark"@.len());
    reveal_strlit("Mat/Colors/BackpackDark");
    assert("Nails/Stilletto"@.len() != "Mat/Colors/BackpackDark"@.len());
    reveal_strlit("Mat/Colors/BeanieDark");
    assert("Nails/Stilletto"@.len() != "Mat/Colors/BeanieDark"@.len());
    reveal_strlit("Mat/Colors/GlovesDark");
    assert("Nails/Stilletto"@.len() != "Mat/Colors/GlovesDark"@.len());
    reveal_strlit("Mat/Colors/HeadphonesDark");
    assert("Nails/Stilletto"@.len() != "Mat/Colors/HeadphonesDark"@.len());
    reveal_strlit("Mat/Colors/JacketDark");
    assert("Nails/Stilletto"@.len() != "Mat/Colors/JacketDark"@.len());
    reveal_strlit("Mat/Colors/MaskDark");
    assert("Nails/Stilletto"@.len() != "Mat/Colors/MaskDark"@.len());
    reveal_strlit("Mat/Colors/ShoeDark");
    assert("Nails/Stilletto"@.len() != "Mat/Colors/ShoeDark"@.len());
    reveal_strlit("Mat/Colors/SleevesDark");
    assert("Nails/Stilletto"@.len() != "Mat/Colors/SleevesDark"@.len());
    reveal_strlit("Mat/Colors/SwimsuitDark");
    assert("Nails/Stilletto"@.len() != "Mat/Colors/SwimsuitDark"@.len());
    reveal_strlit("Mat/Colors/PantsDark");
    assert("Nails/Stilletto"@.len() != "Mat/Colors/PantsDark"@.len());
    reveal_strlit("Mat/Colors/SportsBraDark");
    assert("Nails/Stilletto"@.len() != "Mat/Colors/SportsBraDark"@.len());
    reveal_strlit("Mat/Colors/TankTopDark");
    assert("Nails/Stilletto"@.len() != "Mat/Colors/TankTopDark"@.len());
    reveal_strlit("Mat/Colors/CropDark");
    assert("Nails/Stilletto"@.len() != "Mat/Colors/CropDark"@.len());
}

proof fn lemma_distinct_from_later_33()
    ensures
        "Mat/Hue"@ != "Mat/Colors/HairHue"@,
        "Mat/Hue"@ != "Mat/Colors/HairColored"@,
        "Mat/Hue"@ != "Mat/Cyberpunk"@,
        "Mat/Hue"@ != "Mat/HairBlack"@,
        "Mat/Hue"@ != "Mat/HairWhite"@,
        "Mat/Hue"@ != "Mat/HairBlonde"@,
        "Mat/Hue"@ != "Mat/Monochromatic"@,
        "Mat/Hue"@ != "Mat/AudioLink"@,
        "Mat/Hue"@ != "Mat/Colors/AssPantsDark"@,
        "Mat/Hue"@ != "Mat/Colors/BackpackDark"@,
        "Mat/Hue"@ != "Mat/Colors/BeanieDark"@,
        "Mat/Hue"@ != "Mat/Colors/GlovesDark"@,
        "Mat/Hue"@ != "Mat/Colors/HeadphonesDark"@,
        "Mat/Hue"@ != "Mat/Colors/JacketDark"@,
        "Mat/Hue"@ != "Mat/Colors/MaskDark"@,
        "Mat/Hue"@ != "Mat/Colors/ShoeDark"@,
        "Mat/Hue"@ != "Mat/Colors/SleevesDark"@,
        "Mat/Hue"@ != "Mat/Colors/SwimsuitDark"@,
        "Mat/Hue"@ != "Mat/Colors/PantsDark"@,
        "Mat/Hue"@ != "Mat/Colors/SportsBraDark"@,
        "Mat/Hue"@ != "Mat/Colors/TankTopDark"@,
        "Mat/Hue"@ != "Mat/Colors/CropDark"@,
{
    reveal_strlit("Mat/Hue");
    reveal_strlit("Mat/Colors/HairHue");
    assert("Mat/Hue"@.len() != "Mat/Colors/HairHue"@.len());
    reveal_strlit("Mat/Colors/HairColored");
    assert("Mat/Hue"@.len() != "Mat/Colors/HairColored"@.len());
    reveal_strlit("Mat/Cyberpunk");
    assert("Mat/Hue"@.len() != "Mat/Cyberpunk"@.len());
    reveal_strlit("Mat/HairBlack");
    assert("Mat/Hue"@.len() != "Mat/HairBlack"@.len());
    reveal_strlit("Mat/HairWhite");
    assert("Mat/Hue"@.len() != "Mat/HairWhite"@.len());
    reveal_strlit("Mat/HairBlonde");
    assert("Mat/Hue"@.len() != "Mat/HairBlonde"@.len());
    reveal_strlit("Mat/Monochromatic");
    assert("Mat/Hue"@.len() != "Mat/Monochromatic"@.len());
    reveal_strlit("Mat/AudioLink");
    assert("Mat/Hue"@.len() != "Mat/AudioLink"@.len());
    reveal_strlit("Mat/Colors/AssPantsDark");
    assert("Mat/Hue"@.len() != "Mat/Colors/AssPantsDark"@.len());
    reveal_strlit("Mat/Colors/BackpackDark");
    assert("Mat/Hue"@.len() != "Mat/Colors/BackpackDark"@.len());
    reveal_strlit("Mat/Colors/BeanieDark");
    assert("Mat/Hue"@.len() != "Mat/Colors/BeanieDark"@.len());
    reveal_strlit("Mat/Colors/GlovesDark");
    assert("Mat/Hue"@.len() != "Mat/Colors/GlovesDark"@.len());
    reveal_strlit("Mat/Colors/HeadphonesDark");
    assert("Mat/Hue"@.len() != "Mat/Colors/HeadphonesDark"@.len());
    reveal_strlit("Mat/Colors/JacketDark");
    assert("Mat/Hue"@.len() != "Mat/Colors/JacketDark"@.len());
    reveal_strlit("Mat/Colors/MaskDark");
    assert("Mat/Hue"@.len() != "Mat/Colors/MaskDark"@.len());
    reveal_strlit("Mat/Colors/ShoeDark");
    assert("Mat/Hue"@.len() != "Mat/Colors/ShoeDark"@.len());
    reveal_strlit("Mat/Colors/SleevesDark");
    assert("Mat/Hue"@.len() != "Mat/Colors/SleevesDark"@.len());
    reveal_strlit("Mat/Colors/SwimsuitDark");
    assert("Mat/Hue"@.len() != "Mat/Colors/SwimsuitDark"@.len());
    reveal_strlit("Mat/Colors/PantsDark");
    assert("Mat/Hue"@.len() != "Mat/Colors/PantsDark"@.len());
    reveal_strlit("Mat/Colors/SportsBraDark");
    assert("Mat/Hue"@.len() != "Mat/Colors/SportsBraDark"@.len());
    reveal_strlit("Mat/Colors/TankTopDark");
    assert("Mat/Hue"@.len() != "Mat/Colors/TankTopDark"@.len());
    reveal_strlit("Mat/Colors/CropDark");
    assert("Mat/Hue"@.len() != "Mat/Colors/CropDark"@.len());
}

proof fn lemma_distinct_from_later_34()
    ensures
        "Mat/Colors/HairHue"@ != "Mat/Colors/HairColored"@,
        "Mat/Colors/HairHue"@ != "Mat/Cyberpunk"@,
        "Mat/Colors/HairHue"@ != "Mat/HairBlack"@,
        "Mat/Colors/HairHue"@ != "Mat/HairWhite"@,
        "Mat/Colors/HairHue"@ != "Mat/HairBlonde"@,
        "Mat/Colors/HairHue"@ != "Mat/Monochromatic"@,
        "Mat/Colors/HairHue"@ != "Mat/AudioLink"@,
        "Mat/Colors/HairHue"@ != "Mat/Colors/AssPantsDark"@,
        "Mat/Colors/HairHue"@ != "Mat/Colors/BackpackDark"@,
        "Mat/Colors/HairHue"@ != "Mat/Colors/BeanieDark"@,
        "Mat/Colors/HairHue"@ != "Mat/Colors/GlovesDark"@,
        "Mat/Colors/HairHue"@ != "Mat/Colors/HeadphonesDark"@,
        "Mat/Colors/HairHue"@ != "Mat/Colors/JacketDark"@,
        "Mat/Colors/HairHue"@ != "Mat/Colors/MaskDark"@,
        "Mat/Colors/HairHue"@ != "Mat/Colors/ShoeDark"@,
        "Mat/Colors/HairHue"@ != "Mat/Colors/SleevesDark"@,
        "Mat/Colors/HairHue"@ != "Mat/Colors/SwimsuitDark"@,
        "Mat/Colors/HairHue"@ != "Mat/Colors/PantsDark"@,
        "Mat/Colors/HairHue"@ != "Mat/Colors/SportsBraDark"@,
        "Mat/Colors/HairHue"@ != "Mat/Colors/TankTopDark"@,
        "Mat/Colors/HairHue"@ != "Mat/Colors/CropDark"@,
{
    reveal_strlit("Mat/Colors/HairHue");
    reveal_strlit("Mat/Colors/HairColored");
    assert("Mat/Colors/HairHue"@.len() != "Mat/Colors/HairColored"@.len());
    reveal_strlit("Mat/Cyberpunk");
    assert("Mat/Colors/HairHue"@.len() != "Mat/Cyberpunk"@.len());
    reveal_strlit("Mat/HairBlack");
    assert("Mat/Colors/HairHue"@.len() != "Mat/HairBlack"@.len());
    reveal_strlit("Mat/HairWhite");
    assert("Mat/Colors/HairHue"@.len() != "Mat/HairWhite"@.len());
    reveal_strlit("Mat/HairBlonde");
    assert("Mat/Colors/HairHue"@.len() != "Mat/HairBlonde"@.len());
    reveal_strlit("Mat/Monochromatic");
    assert("Mat/Colors/HairHue"@.len() != "Mat/Monochromatic"@.len());
    reveal_strlit("Mat/AudioLink");
    assert("Mat/Colors/HairHue"@.len() != "Mat/AudioLink"@.len());
    reveal_strlit("Mat/Colors/AssPantsDark");
    assert("Mat/Colors/HairHue"@.len() != "Mat/Colors/AssPantsDark"@.len());
    reveal_strlit("Mat/Colors/BackpackDark");
    assert("Mat/Colors/HairHue"@.len() != "Mat/Colors/BackpackDark"@.len());
    reveal_strlit("Mat/Colors/BeanieDark");
    assert("Mat/Colors/HairHue"@.len() != "Mat/Colors/BeanieDark"@.len());
    reveal_strlit("Mat/Colors/GlovesDark");
    assert("Mat/Colors/HairHue"@.len() != "Mat/Colors/GlovesDark"@.len());
    reveal_strlit("Mat/Colors/HeadphonesDark");
    assert("Mat/Colors/HairHue"@.len() != "Mat/Colors/HeadphonesDark"@.len());
    reveal_strlit("Mat/Colors/JacketDark");
    assert("Mat/Colors/HairHue"@.len() != "Mat/Colors/JacketDark"@.len());
    reveal_strlit("Mat/Colors/MaskDark");
    assert("Mat/Colors/HairHue"@.len() != "Mat/Colors/MaskDark"@.len());
    reveal_strlit("Mat/Colors/ShoeDark");
    assert("Mat/Colors/HairHue"@.len() != "Mat/Colors/ShoeDark"@.len());
    reveal_strlit("Mat/Colors/SleevesDark");
    assert("Mat/Colors/HairHue"@.len() != "Mat/Colors/SleevesDark"@.len());
    reveal_strlit("Mat/Colors/SwimsuitDark");
    assert("Mat/Colors/HairHue"@.len() != "Mat/Colors/SwimsuitDark"@.len());
    reveal_strlit("Mat/Colors/PantsDark");
    assert("Mat/Colors/HairHue"@.len() != "Mat/Colors/PantsDark"@.len());
    reveal_strlit("Mat/Colors/SportsBraDark");
    assert("Mat/Colors/HairHue"@.len() != "Mat/Colors/SportsBraDark"@.len());
    reveal_strlit("Mat/Colors/TankTopDark");
    assert("Mat/Colors/HairHue"@.len() != "Mat/Colors/TankTopDark"@.len());
    reveal_strlit("Mat/Colors/CropDark");
    assert("Mat/Colors/HairHue"@.len() != "Mat/Colors/CropDark"@.len());
}

proof fn lemma_distinct_from_later_35()
    ensures
        "Mat/Colors/HairColored"@ != "Mat/Cyberpunk"@,
        "Mat/Colors/HairColored"@ != "Mat/HairBlack"@,
        "Mat/Colors/HairColored"@ != "Mat/HairWhite"@,
        "Mat/Colors/HairColored"@ != "Mat/HairBlonde"@,
        "Mat/Colors/HairColored"@ != "Mat/Monochromatic"@,
        "Mat/Colors/HairColored"@ != "Mat/AudioLink"@,
        "Mat/Colors/HairColored"@ != "Mat/Colors/AssPantsDark"@,
        "Mat/Colors/HairColored"@ != "Mat/Colors/BackpackDark"@,
        "Mat/Colors/HairColored"@ != "Mat/Colors/BeanieDark"@,
        "Mat/Colors/HairColored"@ != "Mat/Colors/GlovesDark"@,
        "Mat/Colors/HairColored"@ != "Mat/Colors/HeadphonesDark"@,
        "Mat/Colors/HairColored"@ != "Mat/Colors/JacketDark"@,
        "Mat/Colors/HairColored"@ != "Mat/Colors/MaskDark"@,
        "Mat/Colors/HairColored"@ != "Mat/Colors/ShoeDark"@,
        "Mat/Colors/HairColored"@ != "Mat/Colors/SleevesDark"@,
        "Mat/Colors/HairColored"@ != "Mat/Colors/SwimsuitDark"@,
        "Mat/Colors/HairColored"@ != "Mat/Colors/PantsDark"@,
        "Mat/Colors/HairColored"@ != "Mat/Colors/SportsBraDark"@,
        "Mat/Colors/HairColored"@ != "Mat/Colors/TankTopDark"@,
        "Mat/Colors/HairColored"@ != "Mat/Colors/CropDark"@,
{
    reveal_strlit("Mat/Colors/HairColored");
    reveal_strlit("Mat/Cyberpunk");
    assert("Mat/Colors/HairColored"@.len() != "Mat/Cyberpunk"@.len());
    reveal_strlit("Mat/HairBlack");
    assert("Mat/Colors/HairColored"@.len() != "Mat/HairBlack"@.len());
    reveal_strlit("Mat/HairWhite");
    assert("Mat/Colors/HairColored"@.len() != "Mat/HairWhite"@.len());
    reveal_strlit("Mat/HairBlonde");
    assert("Mat/Colors/HairColored"@.len() != "Mat/HairBlonde"@.len());
    reveal_strlit("Mat/Monochromatic");
    assert("Mat/Colors/HairColored"@.len() != "Mat/Monochromatic"@.len());
    reveal_strlit("Mat/AudioLink");
    assert("Mat/Colors/HairColored"@.len() != "Mat/AudioLink"@.len());
    reveal_strlit("Mat/Colors/AssPantsDark");
    assert("Mat/Colors/HairColored"@.len() != "Mat/Colors/AssPantsDark"@.len());
    reveal_strlit("Mat/Colors/BackpackDark");
    assert("Mat/Colors/HairColored"@.len() != "Mat/Colors/BackpackDark"@.len());
    reveal_strlit("Mat/Colors/BeanieDark");
    assert("Mat/Colors/HairColored"@.len() != "Mat/Colors/BeanieDark"@.len());
    reveal_strlit("Mat/Colors/GlovesDark");
    assert("Mat/Colors/HairColored"@.len() != "Mat/Colors/GlovesDark"@.len());
    reveal_strlit("Mat/Colors/HeadphonesDark");
    assert("Mat/Colors/HairColored"@.len() != "Mat/Colors/HeadphonesDark"@.len());
    reveal_strlit("Mat/Colors/JacketDark");
    assert("Mat/Colors/HairColored"@.len() != "Mat/Colors/JacketDark"@.len());
    reveal_strlit("Mat/Colors/MaskDark");
    assert("Mat/Colors/HairColored"@.len() != "Mat/Colors/MaskDark"@.len());
    reveal_strlit("Mat/Colors/ShoeDark");
    assert("Mat/Colors/HairColored"@.len() != "Mat/Colors/ShoeDark"@.len());
    reveal_strlit("Mat/Colors/SleevesDark");
    assert("Mat/Colors/HairColored"@[11] != "Mat/Colors/SleevesDark"@[11]);
    reveal_strlit("Mat/Colors/SwimsuitDark");
    assert("Mat/Colors/HairColored"@.len() != "Mat/Colors/SwimsuitDark"@.len());
    reveal_strlit("Mat/Colors/PantsDark");
    assert("Mat/Colors/HairColored"@.len() != "Mat/Colors/PantsDark"@.len());
    reveal_strlit("Mat/Colors/SportsBraDark");
    assert("Mat/Colors/HairColored"@.len() != "Mat/Colors/SportsBraDark"@.len());
    reveal_strlit("Mat/Colors/TankTopDark");
    assert("Mat/Colors/HairColored"@[11] != "Mat/Colors/TankTopDark"@[11]);
    reveal_strlit("Mat/Colors/CropDark");
    assert("Mat/Colors/HairColored"@.len() != "Mat/Colors/CropDark"@.len());
}

proof fn lemma_distinct_from_later_36()
    ensures
        "Mat/Cyberpunk"@ != "Mat/HairBlack"@,
        "Mat/Cyberpunk"@ != "Mat/HairWhite"@,
        "Mat/Cyberpunk"@ != "Mat/HairBlonde"@,
        "Mat/Cyberpunk"@ != "Mat/Monochromatic"@,
        "Mat/Cyberpunk"@ != "Mat/AudioLink"@,
        "Mat/Cyberpunk"@ != "Mat/Colors/AssPantsDark"@,
        "Mat/Cyberpunk"@ != "Mat/Colors/BackpackDark"@,
        "Mat/Cyberpunk"@ != "Mat/Colors/BeanieDark"@,
        "Mat/Cyberpunk"@ != "Mat/Colors/GlovesDark"@,
        "Mat/Cyberpunk"@ != "Mat/Colors/HeadphonesDark"@,
        "Mat/Cyberpunk"@ != "Mat/Colors/JacketDark"@,
        "Mat/Cyberpunk"@ != "Mat/Colors/MaskDark"@,
        "Mat/Cyberpunk"@ != "Mat/Colors/ShoeDark"@,
        "Mat/Cyberpunk"@ != "Mat/Colors/SleevesDark"@,
        "Mat/Cyberpunk"@ != "Mat/Colors/SwimsuitDark"@,
        "Mat/Cyberpunk"@ != "Mat/Colors/PantsDark"@,
        "Mat/Cyberpunk"@ != "Mat/Colors/SportsBraDark"@,
        "Mat/Cyberpunk"@ != "Mat/Colors/TankTopDark"@,
        "Mat/Cyberpunk"@ != "Mat/Colors/CropDark"@,
{
    reveal_strlit("Mat/Cyberpunk");
    reveal_strlit("Mat/HairBlack");
    assert("Mat/Cyberpunk"@[4] != "Mat/HairBlack"@[4]);
    reveal_strlit("Mat/HairWhite");
    assert("Mat/Cyberpunk"@[4] != "Mat/HairWhite"@[4]);
    reveal_strlit("Mat/HairBlonde");
    assert("Mat/Cyberpunk"@.len() != "Mat/HairBlonde"@.len());
    reveal_strlit("Mat/Monochromatic");
    assert("Mat/Cyberpunk"@.len() != "Mat/Monochromatic"@.len());
    reveal_strlit("Mat/AudioLink");
    assert("Mat/Cyberpunk"@[4] != "Mat/AudioLink"@[4]);
    reveal_strlit("Mat/Colors/AssPantsDark");
    assert("Mat/Cyberpunk"@.len() != "Mat/Colors/AssPantsDark"@.len());
    reveal_strlit("Mat/Colors/BackpackDark");
    assert("Mat/Cyberpunk"@.len() != "Mat/Colors/BackpackDark"@.len());
    reveal_strlit("Mat/Colors/BeanieDark");
    assert("Mat/Cyberpunk"@.len() != "Mat/Colors/BeanieDark"@.len());
    reveal_strlit("Mat/Colors/GlovesDark");
    assert("Mat/Cyberpunk"@.len() != "Mat/Colors/GlovesDark"@.len());
    reveal_strlit("Mat/Colors/HeadphonesDark");
    assert("Mat/Cyberpunk"@.len() != "Mat/Colors/HeadphonesDark"@.len());
    reveal_strlit("Mat/Colors/JacketDark");
    assert("Mat/Cyberpunk"@.len() != "Mat/Colors/JacketDark"@.len());
    reveal_strlit("Mat/Colors/MaskDark");
    assert("Mat/Cyberpunk"@.len() != "Mat/Colors/MaskDark"@.len());
    reveal_strlit("Mat/Colors/ShoeDark");
    assert("Mat/Cyberpunk"@.len() != "Mat/Colors/ShoeDark"@.len());
    reveal_strlit("Mat/Colors/SleevesDark");
    assert("Mat/Cyberpunk"@.len() != "Mat/Colors/SleevesDark"@.len());
    reveal_strlit("Mat/Colors/SwimsuitDark");
    assert("Mat/Cyberpunk"@.len() != "Mat/Colors/SwimsuitDark"@.len());
    reveal_strlit("Mat/Colors/PantsDark");
    assert("Mat/Cyberpunk"@.len() != "Mat/Colors/PantsDark"@.len());
    reveal_strlit("Mat/Colors/SportsBraDark");
    assert("Mat/Cyberpunk"@.len() != "Mat/Colors/SportsBraDark"@.len());
    reveal_strlit("Mat/Colors/TankTopDark");
    assert("Mat/Cyberpunk"@.len() != "Mat/Colors/TankTopDark"@.len());
    reveal_strlit("Mat/Colors/CropDark");
    assert("Mat/Cyberpunk"@.len() != "Mat/Colors/CropDark"@.len());
}

proof fn lemma_distinct_from_later_37()
    ensures
        "Mat/HairBlack"@ != "Mat/HairWhite"@,
        "Mat/HairBlack"@ != "Mat/HairBlonde"@,
        "Mat/HairBlack"@ != "Mat/Monochromatic"@,
        "Mat/HairBlack"@ != "Mat/AudioLink"@,
        "Mat/HairBlack"@ != "Mat/Colors/AssPantsDark"@,
        "Mat/HairBlack"@ != "Mat/Colors/BackpackDark"@,
        "Mat/HairBlack"@ != "Mat/Colors/BeanieDark"@,
        "Mat/HairBlack"@ != "Mat/Colors/GlovesDark"@,
        "Mat/HairBlack"@ != "Mat/Colors/HeadphonesDark"@,
        "Mat/HairBlack"@ != "Mat/Colors/JacketDark"@,
        "Mat/HairBlack"@ != "Mat/Colors/MaskDark"@,
        "Mat/HairBlack"@ != "Mat/Colors/ShoeDark"@,
        "Mat/HairBlack"@ != "Mat/Colors/SleevesDark"@,
        "Mat/HairBlack"@ != "Mat/Colors/SwimsuitDark"@,
        "Mat/HairBlack"@ != "Mat/Colors/PantsDark"@,
        "Mat/HairBlack"@ != "Mat/Colors/SportsBraDark"@,
        "Mat/HairBlack"@ != "Mat/Colors/TankTopDark"@,
        "Mat/HairBlack"@ != "Mat/Colors/CropDark"@,
{
    reveal_strlit("Mat/HairBlack");
    reveal_strlit("Mat/HairWhite");
    assert("Mat/HairBlack"@[8] != "Mat/HairWhite"@[8]);
    reveal_strlit("Mat/HairBlonde");
    assert("Mat/HairBlack"@.len() != "Mat/HairBlonde"@.len());
    reveal_strlit("Mat/Monochromatic");
    assert("Mat/HairBlack"@.len() != "Mat/Monochromatic"@.len());
    reveal_strlit("Mat/AudioLink");
    assert("Mat/HairBlack"@[4] != "Mat/AudioLink"@[4]);
    reveal_strlit("Mat/Colors/AssPantsDark");
    assert("Mat/HairBlack"@.len() != "Mat/Colors/AssPantsDark"@.len());
    reveal_strlit("Mat/Colors/BackpackDark");
    assert("Mat/HairBlack"@.len() != "Mat/Colors/BackpackDark"@.len());
    reveal_strlit("Mat/Colors/BeanieDark");
    assert("Mat/HairBlack"@.len() != "Mat/Colors/BeanieDark"@.len());
    reveal_strlit("Mat/Colors/GlovesDark");
    assert("Mat/HairBlack"@.len() != "Mat/Colors/GlovesDark"@.len());
    reveal_strlit("Mat/Colors/HeadphonesDark");
    assert("Mat/HairBlack"@.len() != "Mat/Colors/HeadphonesDark"@.len());
    reveal_strlit("Mat/Colors/JacketDark");
    assert("Mat/HairBlack"@.len() != "Mat/Colors/JacketDark"@.len());
    reveal_strlit("Mat/Colors/MaskDark");
    assert("Mat/HairBlack"@.len() != "Mat/Colors/MaskDark"@.len());
    reveal_strlit("Mat/Colors/ShoeDark");
    assert("Mat/HairBlack"@.len() != "Mat/Colors/ShoeDark"@.len());
    reveal_strlit("Mat/Colors/SleevesDark");
    assert("Mat/HairBlack"@.len() != "Mat/Colors/SleevesDark"@.len());
    reveal_strlit("Mat/Colors/SwimsuitDark");
    assert("Mat/HairBlack"@.len() != "Mat/Colors/SwimsuitDark"@.len());
    reveal_strlit("Mat/Colors/PantsDark");
    assert("Mat/HairBlack"@.len() != "Mat/Colors/PantsDark"@.len());
    reveal_strlit("Mat/Colors/SportsBraDark");
    assert("Mat/HairBlack"@.len() != "Mat/Colors/SportsBraDark"@.len());
    reveal_strlit("Mat/Colors/TankTopDark");
    assert("Mat/HairBlack"@.len() != "Mat/Colors/TankTopDark"@.len());
    reveal_strlit("Mat/Colors/CropDark");
    assert("Mat/HairBlack"@.len() != "Mat/Colors/CropDark"@.len());
}

proof fn lemma_distinct_from_later_38()
    ensures
        "Mat/HairWhite"@ != "Mat/HairBlonde"@,
        "Mat/HairWhite"@ != "Mat/Monochromatic"@,
        "Mat/HairWhite"@ != "Mat/AudioLink"@,
        "Mat/HairWhite"@ != "Mat/Colors/AssPantsDark"@,
        "Mat/HairWhite"@ != "Mat/Colors/BackpackDark"@,
        "Mat/HairWhite"@ != "Mat/Colors/BeanieDark"@,
        "Mat/HairWhite"@ != "Mat/Colors/GlovesDark"@,
        "Mat/HairWhite"@ != "Mat/Colors/HeadphonesDark"@,
        "Mat/HairWhite"@ != "Mat/Colors/JacketDark"@,
        "Mat/HairWhite"@ != "Mat/Colors/MaskDark"@,
        "Mat/HairWhite"@ != "Mat/Colors/ShoeDark"@,
        "Mat/HairWhite"@ != "Mat/Colors/SleevesDark"@,
        "Mat/HairWhite"@ != "Mat/Colors/SwimsuitDark"@,
        "Mat/HairWhite"@ != "Mat/Colors/PantsDark"@,
        "Mat/HairWhite"@ != "Mat/Colors/SportsBraDark"@,
        "Mat/HairWhite"@ != "Mat/Colors/TankTopDark"@,
        "Mat/HairWhite"@ != "Mat/Colors/CropDark"@,
{
    reveal_strlit("Mat/HairWhite");
    reveal_strlit("Mat/HairBlonde");
    assert("Mat/HairWhite"@.len() != "Mat/HairBlonde"@.len());
    reveal_strlit("Mat/Monochromatic");
    assert("Mat/HairWhite"@.len() != "Mat/Monochromatic"@.len());
    reveal_strlit("Mat/AudioLink");
    assert("Mat/HairWhite"@[4] != "Mat/AudioLink"@[4]);
    reveal_strlit("Mat/Colors/AssPantsDark");
    assert("Mat/HairWhite"@.len() != "Mat/Colors/AssPantsDark"@.len());
    reveal_strlit("Mat/Colors/BackpackDark");
    assert("Mat/HairWhite"@.len() != "Mat/Colors/BackpackDark"@.len());
    reveal_strlit("Mat/Colors/BeanieDark");
    assert("Mat/HairWhite"@.len() != "Mat/Colors/BeanieDark"@.len());
    reveal_strlit("Mat/Colors/GlovesDark");
    assert("Mat/HairWhite"@.len() != "Mat/Colors/GlovesDark"@.len());
    reveal_strlit("Mat/Colors/HeadphonesDark");
    assert("Mat/HairWhite"@.len() != "Mat/Colors/HeadphonesDark"@.len());
    reveal_strlit("Mat/Colors/JacketDark");
    assert("Mat/HairWhite"@.len() != "Mat/Colors/JacketDark"@.len());
    reveal_strlit("Mat/Colors/MaskDark");
    assert("Mat/HairWhite"@.len() != "Mat/Colors/MaskDark"@.len());
    reveal_strlit("Mat/Colors/ShoeDark");
    assert("Mat/HairWhite"@.len() != "Mat/Colors/ShoeDark"@.len());
    reveal_strlit("Mat/Colors/SleevesDark");
    assert("Mat/HairWhite"@.len() != "Mat/Colors/SleevesDark"@.len());
    reveal_strlit("Mat/Colors/SwimsuitDark");
    assert("Mat/HairWhite"@.len() != "Mat/Colors/SwimsuitDark"@.len());
    reveal_strlit("Mat/Colors/PantsDark");
    assert("Mat/HairWhite"@.len() != "Mat/Colors/PantsDark"@.len());
    reveal_strlit("Mat/Colors/SportsBraDark");
    assert("Mat/HairWhite"@.len() != "Mat/Colors/SportsBraDark"@.len());
    reveal_strlit("Mat/Colors/TankTopDark");
    assert("Mat/HairWhite"@.len() != "Mat/Colors/TankTopDark"@.len());
    reveal_strlit("Mat/Colors/CropDark");
    assert("Mat/HairWhite"@.len() != "Mat/Colors/CropDark"@.len());
}

proof fn lemma_distinct_from_later_39()
    ensures
        "Mat/HairBlonde"@ != "Mat/Monochromatic"@,
        "Mat/HairBlonde"@ != "Mat/AudioLink"@,
        "Mat/HairBlonde"@ != "Mat/Colors/AssPantsDark"@,
        "Mat/HairBlonde"@ != "Mat/Colors/BackpackDark"@,
        "Mat/HairBlonde"@ != "Mat/Colors/BeanieDark"@,
        "Mat/HairBlonde"@ != "Mat/Colors/GlovesDark"@,
        "Mat/HairBlonde"@ != "Mat/Colors/HeadphonesDark"@,
        "Mat/HairBlonde"@ != "Mat/Colors/JacketDark"@,
        "Mat/HairBlonde"@ != "Mat/Colors/MaskDark"@,
        "Mat/HairBlonde"@ != "Mat/Colors/ShoeDark"@,
        "Mat/HairBlonde"@ != "Mat/Colors/SleevesDark"@,
        "Mat/HairBlonde"@ != "Mat/Colors/SwimsuitDark"@,
        "Mat/HairBlonde"@ != "Mat/Colors/PantsDark"@,
        "Mat/HairBlonde"@ != "Mat/Colors/SportsBraDark"@,
        "Mat/HairBlonde"@ != "Mat/Colors/TankTopDark"@,
        "Mat/HairBlonde"@ != "Mat/Colors/CropDark"@,
{
    reveal_strlit("Mat/HairBlonde");
    reveal_strlit("Mat/Monochromatic");
    assert("Mat/HairBlonde"@.len() != "Mat/Monochromatic"@.len());
    reveal_strlit("Mat/AudioLink");
    assert("Mat/HairBlonde"@.len() != "Mat/AudioLink"@.len());
    reveal_strlit("Mat/Colors/AssPantsDark");
    assert("Mat/HairBlonde"@.len() != "Mat/Colors/AssPantsDark"@.len());
    reveal_strlit("Mat/Colors/BackpackDark");
    assert("Mat/HairBlonde"@.len() != "Mat/Colors/BackpackDark"@.len());
    reveal_strlit("Mat/Colors/BeanieDark");
    assert("Mat/HairBlonde"@.len() != "Mat/Colors/BeanieDark"@.len());
    reveal_strlit("Mat/Colors/GlovesDark");
    assert("Mat/HairBlonde"@.len() != "Mat/Colors/GlovesDark"@.len());
    reveal_strlit("Mat/Colors/HeadphonesDark");
    assert("Mat/HairBlonde"@.len() != "Mat/Colors/HeadphonesDark"@.len());
    reveal_strlit("Mat/Colors/JacketDark");
    assert("Mat/HairBlonde"@.len() != "Mat/Colors/JacketDark"@.len());
    reveal_strlit("Mat/Colors/MaskDark");
    assert("Mat/HairBlonde"@.len() != "Mat/Colors/MaskDark"@.len());
    reveal_strlit("Mat/Colors/ShoeDark");
    assert("Mat/HairBlonde"@.len() != "Mat/Colors/ShoeDark"@.len());
    reveal_strlit("Mat/Colors/SleevesDark");
    assert("Mat/HairBlonde"@.len() != "Mat/Colors/SleevesDark"@.len());
    reveal_strlit("Mat/Colors/SwimsuitDark");
    assert("Mat/HairBlonde"@.len() != "Mat/Colors/SwimsuitDark"@.len());
    reveal_strlit("Mat/Colors/PantsDark");
    assert("Mat/HairBlonde"@.len() != "Mat/Colors/PantsDark"@.len());
    reveal_strlit("Mat/Colors/SportsBraDark");
    assert("Mat/HairBlonde"@.len() != "Mat/Colors/SportsBraDark"@.len());
    reveal_strlit("Mat/Colors/TankTopDark");
    assert("Mat/HairBlonde"@.len() != "Mat/Colors/TankTopDark"@.len());
    reveal_strlit("Mat/Colors/CropDark");
    assert("Mat/HairBlonde"@.len() != "Mat/Colors/CropDark"@.len());
}

proof fn lemma_distinct_from_later_40()
    ensures
        "Mat/Monochromatic"@ != "Mat/AudioLink"@,
        "Mat/Monochromatic"@ != "Mat/Colors/AssPantsDark"@,
        "Mat/Monochromatic"@ != "Mat/Colors/BackpackDark"@,
        "Mat/Monochromatic"@ != "Mat/Colors/BeanieDark"@,
        "Mat/Monochromatic"@ != "Mat/Colors/GlovesDark"@,
        "Mat/Monochromatic"@ != "Mat/Colors/HeadphonesDark"@,
        "Mat/Monochromatic"@ != "Mat/Colors/JacketDark"@,
        "Mat/Monochromatic"@ != "Mat/Colors/MaskDark"@,
        "Mat/Monochromatic"@ != "Mat/Colors/ShoeDark"@,
        "Mat/Monochromatic"@ != "Mat/Colors/SleevesDark"@,
        "Mat/Monochromatic"@ != "Mat/Colors/SwimsuitDark"@,
        "Mat/Monochromatic"@ != "Mat/Colors/PantsDark"@,
        "Mat/Monochromatic"@ != "Mat/Colors/SportsBraDark"@,
        "Mat/Monochromatic"@ != "Mat/Colors/TankTopDark"@,
        "Mat/Monochromatic"@ != "Mat/Colors/CropDark"@,
{
    reveal_strlit("Mat/Monochromatic");
    reveal_strlit("Mat/AudioLink");
    assert("Mat/Monochromatic"@.len() != "Mat/AudioLink"@.len());
    reveal_strlit("Mat/Colors/AssPantsDark");
    assert("Mat/Monochromatic"@.len() != "Mat/Colors/AssPantsDark"@.len());
    reveal_strlit("Mat/Colors/BackpackDark");
    assert("Mat/Monochromatic"@.len() != "Mat/Colors/BackpackDark"@.len());
    reveal_strlit("Mat/Colors/BeanieDark");
    assert("Mat/Monochromatic"@.len() != "Mat/Colors/BeanieDark"@.len());
    reveal_strlit("Mat/Colors/GlovesDark");
    assert("Mat/Monochromatic"@.len() != "Mat/Colors/GlovesDark"@.len());
    reveal_strlit("Mat/Colors/HeadphonesDark");
    assert("Mat/Monochromatic"@.len() != "Mat/Colors/HeadphonesDark"@.len());
    reveal_strlit("Mat/Colors/JacketDark");
    assert("Mat/Monochromatic"@.len() != "Mat/Colors/JacketDark"@.len());
    reveal_strlit("Mat/Colors/MaskDark");
    assert("Mat/Monochromatic"@.len() != "Mat/Colors/MaskDark"@.len());
    reveal_strlit("Mat/Colors/ShoeDark");
    assert("Mat/Monochromatic"@.len() != "Mat/Colors/ShoeDark"@.len());
    reveal_strlit("Mat/Colors/SleevesDark");
    assert("Mat/Monochromatic"@.len() != "Mat/Colors/SleevesDark"@.len());
    reveal_strlit("Mat/Colors/SwimsuitDark");
    assert("Mat/Monochromatic"@.len() != "Mat/Colors/SwimsuitDark"@.len());
    reveal_strlit("Mat/Colors/PantsDark");
    assert("Mat/Monochromatic"@.len() != "Mat/Colors/PantsDark"@.len());
    reveal_strlit("Mat/Colors/SportsBraDark");
    assert("Mat/Monochromatic"@.len() != "Mat/Colors/SportsBraDark"@.len());
    reveal_strlit("Mat/Colors/TankTopDark");
    assert("Mat/Monochromatic"@.len() != "Mat/Colors/TankTopDark"@.len());
    reveal_strlit("Mat/Colors/CropDark");
    assert("Mat/Monochromatic"@.len() != "Mat/Colors/CropDark"@.len());
}

proof fn lemma_distinct_from_later_41()
    ensures
        "Mat/AudioLink"@ != "Mat/Colors/AssPantsDark"@,
        "Mat/AudioLink"@ != "Mat/Colors/BackpackDark"@,
        "Mat/AudioLink"@ != "Mat/Colors/BeanieDark"@,
        "Mat/AudioLink"@ != "Mat/Colors/GlovesDark"@,
        "Mat/AudioLink"@ != "Mat/Colors/HeadphonesDark"@,
        "Mat/AudioLink"@ != "Mat/Colors/JacketDark"@,
        "Mat/AudioLink"@ != "Mat/Colors/MaskDark"@,
        "Mat/AudioLink"@ != "Mat/Colors/ShoeDark"@,
        "Mat/AudioLink"@ != "Mat/Colors/SleevesDark"@,
        "Mat/AudioLink"@ != "Mat/Colors/SwimsuitDark"@,
        "Mat/AudioLink"@ != "Mat/Colors/PantsDark"@,
        "Mat/AudioLink"@ != "Mat/Colors/SportsBraDark"@,
        "Mat/AudioLink"@ != "Mat/Colors/TankTopDark"@,
        "Mat/AudioLink"@ != "Mat/Colors/CropDark"@,
{
    reveal_strlit("Mat/AudioLink");
    reveal_strlit("Mat/Colors/AssPantsDark");
    assert("Mat/AudioLink"@.len() != "Mat/Colors/AssPantsDark"@.len());
    reveal_strlit("Mat/Colors/BackpackDark");
    assert("Mat/AudioLink"@.len() != "Mat/Colors/BackpackDark"@.len());
    reveal_strlit("Mat/Colors/BeanieDark");
    assert("Mat/AudioLink"@.len() != "Mat/Colors/BeanieDark"@.len());
    reveal_strlit("Mat/Colors/GlovesDark");
    assert("Mat/AudioLink"@.len() != "Mat/Colors/GlovesDark"@.len());
    reveal_strlit("Mat/Colors/HeadphonesDark");
    assert("Mat/AudioLink"@.len() != "Mat/Colors/HeadphonesDark"@.len());
    reveal_strlit("Mat/Colors/JacketDark");
    assert("Mat/AudioLink"@.len() != "Mat/Colors/JacketDark"@.len());
    reveal_strlit("Mat/Colors/MaskDark");
    assert("Mat/AudioLink"@.len() != "Mat/Colors/MaskDark"@.len());
    reveal_strlit("Mat/Colors/ShoeDark");
    assert("Mat/AudioLink"@.len() != "Mat/Colors/ShoeDark"@.len());
    reveal_strlit("Mat/Colors/SleevesDark");
    assert("Mat/AudioLink"@.len() != "Mat/Colors/SleevesDark"@.len());
    reveal_strlit("Mat/Colors/SwimsuitDark");
    assert("Mat/AudioLink"@.len() != "Mat/Colors/SwimsuitDark"@.len());
    reveal_strlit("Mat/Colors/PantsDark");
    assert("Mat/AudioLink"@.len() != "Mat/Colors/PantsDark"@.len());
    reveal_strlit("Mat/Colors/SportsBraDark");
    assert("Mat/AudioLink"@.len() != "Mat/Colors/SportsBraDark"@.len());
    reveal_strlit("Mat/Colors/TankTopDark");
    assert("Mat/AudioLink"@.len() != "Mat/Colors/TankTopDark"@.len());
    reveal_strlit("Mat/Colors/CropDark");
    assert("Mat/AudioLink"@.len() != "Mat/Colors/CropDark"@.len());
}

proof fn lemma_distinct_from_later_42()
    ensures
        "Mat/Colors/AssPantsDark"@ != "Mat/Colors/BackpackDark"@,
        "Mat/Colors/AssPantsDark"@ != "Mat/Colors/BeanieDark"@,
        "Mat/Colors/AssPantsDark"@ != "Mat/Colors/GlovesDark"@,
        "Mat/Colors/AssPantsDark"@ != "Mat/Colors/HeadphonesDark"@,
        "Mat/Colors/AssPantsDark"@ != "Mat/Colors/JacketDark"@,
        "Mat/Colors/AssPantsDark"@ != "Mat/Colors/MaskDark"@,
        "Mat/Colors/AssPantsDark"@ != "Mat/Colors/ShoeDark"@,
        "Mat/Colors/AssPantsDark"@ != "Mat/Colors/SleevesDark"@,
        "Mat/Colors/AssPantsDark"@ != "Mat/Colors/SwimsuitDark"@,
        "Mat/Colors/AssPantsDark"@ != "Mat/Colors/PantsDark"@,
        "Mat/Colors/AssPantsDark"@ != "Mat/Colors/SportsBraDark"@,
        "Mat/Colors/AssPantsDark"@ != "Mat/Colors/TankTopDark"@,
        "Mat/Colors/AssPantsDark"@ != "Mat/Colors/CropDark"@,
{
    reveal_strlit("Mat/Colors/AssPantsDark");
    reveal_strlit("Mat/Colors/BackpackDark");
    assert("Mat/Colors/AssPantsDark"@[11] != "Mat/Colors/BackpackDark"@[11]);
    reveal_strlit("Mat/Colors/BeanieDark");
    assert("Mat/Colors/AssPantsDark"@.len() != "Mat/Colors/BeanieDark"@.len());
    reveal_strlit("Mat/Colors/GlovesDark");
    assert("Mat/Colors/AssPantsDark"@.len() != "Mat/Colors/GlovesDark"@.len());
    reveal_strlit("Mat/Colors/HeadphonesDark");
    assert("Mat/Colors/AssPantsDark"@.len() != "Mat/Colors/HeadphonesDark"@.len());
    reveal_strlit("Mat/Colors/JacketDark");
    assert("Mat/Colors/AssPantsDark"@.len() != "Mat/Colors/JacketDark"@.len());
    reveal_strlit("Mat/Colors/MaskDark");
    assert("Mat/Colors/AssPantsDark"@.len() != "Mat/Colors/MaskDark"@.len());
    reveal_strlit("Mat/Colors/ShoeDark");
    assert("Mat/Colors/AssPantsDark"@.len() != "Mat/Colors/ShoeDark"@.len());
    reveal_strlit("Mat/Colors/SleevesDark");
    assert("Mat/Colors/AssPantsDark"@.len() != "Mat/Colors/SleevesDark"@.len());
    reveal_strlit("Mat/Colors/SwimsuitDark");
    assert("Mat/Colors/AssPantsDark"@[11] != "Mat/Colors/SwimsuitDark"@[11]);
    reveal_strlit("Mat/Colors/PantsDark");
    assert("Mat/Colors/AssPantsDark"@.len() != "Mat/Colors/PantsDark"@.len());
    reveal_strlit("Mat/Colors/SportsBraDark");
    assert("Mat/Colors/AssPantsDark"@.len() != "Mat/Colors/SportsBraDark"@.len());
    reveal_strlit("Mat/Colors/TankTopDark");
    assert("Mat/Colors/AssPantsDark"@.len() != "Mat/Colors/TankTopDark"@.len());
    reveal_strlit("Mat/Colors/CropDark");
    assert("Mat/Colors/AssPantsDark"@.len() != "Mat/Colors/CropDark"@.len());
}

proof fn lemma_distinct_from_later_43()
    ensures
        "Mat/Colors/BackpackDark"@ != "Mat/Colors/BeanieDark"@,
        "Mat/Colors/BackpackDark"@ != "Mat/Colors/GlovesDark"@,
        "Mat/Colors/BackpackDark"@ != "Mat/Colors/HeadphonesDark"@,
        "Mat/Colors/BackpackDark"@ != "Mat/Colors/JacketDark"@,
        "Mat/Colors/BackpackDark"@ != "Mat/Colors/MaskDark"@,
        "Mat/Colors/BackpackDark"@ != "Mat/Colors/ShoeDark"@,
        "Mat/Colors/BackpackDark"@ != "Mat/Colors/SleevesDark"@,
        "Mat/Colors/BackpackDark"@ != "Mat/Colors/SwimsuitDark"@,
        "Mat/Colors/BackpackDark"@ != "Mat/Colors/PantsDark"@,
        "Mat/Colors/BackpackDark"@ != "Mat/Colors/SportsBraDark"@,
        "Mat/Colors/BackpackDark"@ != "Mat/Colors/TankTopDark"@,
        "Mat/Colors/BackpackDark"@ != "Mat/Colors/CropDark"@,
{
    reveal_strlit("Mat/Colors/BackpackDark");
    reveal_strlit("Mat/Colors/BeanieDark");
    assert("Mat/Colors/BackpackDark"@.len() != "Mat/Colors/BeanieDark"@.len());
    reveal_strlit("Mat/Colors/GlovesDark");
    assert("Mat/Colors/BackpackDark"@.len() != "Mat/Colors/GlovesDark"@.len());
    reveal_strlit("Mat/Colors/HeadphonesDark");
    assert("Mat/Colors/BackpackDark"@.len() != "Mat/Colors/HeadphonesDark"@.len());
    reveal_strlit("Mat/Colors/JacketDark");
    assert("Mat/Colors/BackpackDark"@.len() != "Mat/Colors/JacketDark"@.len());
    reveal_strlit("Mat/Colors/MaskDark");
    assert("Mat/Colors/BackpackDark"@.len() != "Mat/Colors/MaskDark"@.len());
    reveal_strlit("Mat/Colors/ShoeDark");
    assert("Mat/Colors/BackpackDark"@.len() != "Mat/Colors/ShoeDark"@.len());
    reveal_strlit("Mat/Colors/SleevesDark");
    assert("Mat/Colors/BackpackDark"@.len() != "Mat/Colors/SleevesDark"@.len());
    reveal_strlit("Mat/Colors/SwimsuitDark");
    assert("Mat/Colors/BackpackDark"@[11] != "Mat/Colors/SwimsuitDark"@[11]);
    reveal_strlit("Mat/Colors/PantsDark");
    assert("Mat/Colors/BackpackDark"@.len() != "Mat/Colors/PantsDark"@.len());
    reveal_strlit("Mat/Colors/SportsBraDark");
    assert("Mat/Colors/BackpackDark"@.len() != "Mat/Colors/SportsBraDark"@.len());
    reveal_strlit("Mat/Colors/TankTopDark");
    assert("Mat/Colors/BackpackDark"@.len() != "Mat/Colors/TankTopDark"@.len());
    reveal_strlit("Mat/Colors/CropDark");
    assert("Mat/Colors/BackpackDark"@.len() != "Mat/Colors/CropDark"@.len());
}

proof fn lemma_distinct_from_later_44()
    ensures
        "Mat/Colors/BeanieDark"@ != "Mat/Colors/GlovesDark"@,
        "Mat/Colors/BeanieDark"@ != "Mat/Colors/HeadphonesDark"@,
        "Mat/Colors/BeanieDark"@ != "Mat/Colors/JacketDark"@,
        "Mat/Colors/BeanieDark"@ != "Mat/Colors/MaskDark"@,
        "Mat/Colors/BeanieDark"@ != "Mat/Colors/ShoeDark"@,
        "Mat/Colors/BeanieDark"@ != "Mat/Colors/SleevesDark"@,
        "Mat/Colors/BeanieDark"@ != "Mat/Colors/SwimsuitDark"@,
        "Mat/Colors/BeanieDark"@ != "Mat/Colors/PantsDark"@,
        "Mat/Colors/BeanieDark"@ != "Mat/Colors/SportsBraDark"@,
        "Mat/Colors/BeanieDark"@ != "Mat/Colors/TankTopDark"@,
        "Mat/Colors/BeanieDark"@ != "Mat/Colors/CropDark"@,
{
    reveal_strlit("Mat/Colors/BeanieDark");
    reveal_strlit("Mat/Colors/GlovesDark");
    assert("Mat/Colors/BeanieDark"@[11] != "Mat/Colors/GlovesDark"@[11]);
    reveal_strlit("Mat/Colors/HeadphonesDark");
    assert("Mat/Colors/BeanieDark"@.len() != "Mat/Colors/HeadphonesDark"@.len());
    reveal_strlit("Mat/Colors/JacketDark");
    assert("Mat/Colors/BeanieDark"@[11] != "Mat/Colors/JacketDark"@[11]);
    reveal_strlit("Mat/Colors/MaskDark");
    assert("Mat/Colors/BeanieDark"@.len() != "Mat/Colors/MaskDark"@.len());
    reveal_strlit("Mat/Colors/ShoeDark");
    assert("Mat/Colors/BeanieDark"@.len() != "Mat/Colors/ShoeDark"@.len());
    reveal_strlit("Mat/Colors/SleevesDark");
    assert("Mat/Colors/BeanieDark"@.len() != "Mat/Colors/SleevesDark"@.len());
    reveal_strlit("Mat/Colors/SwimsuitDark");
    assert("Mat/Colors/BeanieDark"@.len() != "Mat/Colors/SwimsuitDark"@.len());
    reveal_strlit("Mat/Colors/PantsDark");
    assert("Mat/Colors/BeanieDark"@.len() != "Mat/Colors/PantsDark"@.len());
    reveal_strlit("Mat/Colors/SportsBraDark");
    assert("Mat/Colors/BeanieDark"@.len() != "Mat/Colors/SportsBraDark"@.len());
    reveal_strlit("Mat/Colors/TankTopDark");
    assert("Mat/Colors/BeanieDark"@.len() != "Mat/Colors/TankTopDark"@.len());
    reveal_strlit("Mat/Colors/CropDark");
    assert("Mat/Colors/BeanieDark"@.len() != "Mat/Colors/CropDark"@.len());
}

proof fn lemma_distinct_from_later_45()
    ensures
        "Mat/Colors/GlovesDark"@ != "Mat/Colors/HeadphonesDark"@,
        "Mat/Colors/GlovesDark"@ != "Mat/Colors/JacketDark"@,
        "Mat/Colors/GlovesDark"@ != "Mat/Colors/MaskDark"@,
        "Mat/Colors/GlovesDark"@ != "Mat/Colors/ShoeDark"@,
        "Mat/Colors/GlovesDark"@ != "Mat/Colors/SleevesDark"@,
        "Mat/Colors/GlovesDark"@ != "Mat/Colors/SwimsuitDark"@,
        "Mat/Colors/GlovesDark"@ != "Mat/Colors/PantsDark"@,
        "Mat/Colors/GlovesDark"@ != "Mat/Colors/SportsBraDark"@,
        "Mat/Colors/GlovesDark"@ != "Mat/Colors/TankTopDark"@,
        "Mat/Colors/GlovesDark"@ != "Mat/Colors/CropDark"@,
{
    reveal_strlit("Mat/Colors/GlovesDark");
    reveal_strlit("Mat/Colors/HeadphonesDark");
    assert("Mat/Colors/GlovesDark"@.len() != "Mat/Colors/HeadphonesDark"@.len());
    reveal_strlit("Mat/Colors/JacketDark");
    assert("Mat/Colors/GlovesDark"@[11] != "Mat/Colors/JacketDark"@[11]);
    reveal_strlit("Mat/Colors/MaskDark");
    assert("Mat/Colors/GlovesDark"@.len() != "Mat/Colors/MaskDark"@.len());
    reveal_strlit("Mat/Colors/ShoeDark");
    assert("Mat/Colors/GlovesDark"@.len() != "Mat/Colors/ShoeDark"@.len());
    reveal_strlit("Mat/Colors/SleevesDark");
    assert("Mat/Colors/GlovesDark"@.len() != "Mat/Colors/SleevesDark"@.len());
    reveal_strlit("Mat/Colors/SwimsuitDark");
    assert("Mat/Colors/GlovesDark"@.len() != "Mat/Colors/SwimsuitDark"@.len());
    reveal_strlit("Mat/Colors/PantsDark");
    assert("Mat/Colors/GlovesDark"@.len() != "Mat/Colors/PantsDark"@.len());
    reveal_strlit("Mat/Colors/SportsBraDark");
    assert("Mat/Colors/GlovesDark"@.len() != "Mat/Colors/SportsBraDark"@.len());
    reveal_strlit("Mat/Colors/TankTopDark");
    assert("Mat/Colors/GlovesDark"@.len() != "Mat/Colors/TankTopDark"@.len());
    reveal_strlit("Mat/Colors/CropDark");
    assert("Mat/Colors/GlovesDark"@.len() != "Mat/Colors/CropDark"@.len());
}

proof fn lemma_distinct_from_later_46()
    ensures
        "Mat/Colors/HeadphonesDark"@ != "Mat/Colors/JacketDark"@,
        "Mat/Colors/HeadphonesDark"@ != "Mat/Colors/MaskDark"@,
        "Mat/Colors/HeadphonesDark"@ != "Mat/Colors/ShoeDark"@,
        "Mat/Colors/HeadphonesDark"@ != "Mat/Colors/SleevesDark"@,
        "Mat/Colors/HeadphonesDark"@ != "Mat/Colors/SwimsuitDark"@,
        "Mat/Colors/HeadphonesDark"@ != "Mat/Colors/PantsDark"@,
        "Mat/Colors/HeadphonesDark"@ != "Mat/Colors/SportsBraDark"@,
        "Mat/Colors/HeadphonesDark"@ != "Mat/Colors/TankTopDark"@,
        "Mat/Colors/HeadphonesDark"@ != "Mat/Colors/CropDark"@,
{
    reveal_strlit("Mat/Colors/HeadphonesDark");
    reveal_strlit("Mat/Colors/JacketDark");
    assert("Mat/Colors/HeadphonesDark"@.len() != "Mat/Colors/JacketDark"@.len());
    reveal_strlit("Mat/Colors/MaskDark");
    assert("Mat/Colors/HeadphonesDark"@.len() != "Mat/Colors/MaskDark"@.len());
    reveal_strlit("Mat/Colors/ShoeDark");
    assert("Mat/Colors/HeadphonesDark"@.len() != "Mat/Colors/ShoeDark"@.len());
    reveal_strlit("Mat/Colors/SleevesDark");
    assert("Mat/Colors/HeadphonesDark"@.len() != "Mat/Colors/SleevesDark"@.len());
    reveal_strlit("Mat/Colors/SwimsuitDark");
    assert("Mat/Colors/HeadphonesDark"@.len() != "Mat/Colors/SwimsuitDark"@.len());
    reveal_strlit("Mat/Colors/PantsDark");
    assert("Mat/Colors/HeadphonesDark"@.len() != "Mat/Colors/PantsDark"@.len());
    reveal_strlit("Mat/Colors/SportsBraDark");
    assert("Mat/Colors/HeadphonesDark"@.len() != "Mat/Colors/SportsBraDark"@.len());
    reveal_strlit("Mat/Colors/TankTopDark");
    assert("Mat/Colors/HeadphonesDark"@.len() != "Mat/Colors/TankTopDark"@.len());
    reveal_strlit("Mat/Colors/CropDark");
    assert("Mat/Colors/HeadphonesDark"@.len() != "Mat/Colors/CropDark"@.len());
}

proof fn lemma_distinct_from_later_47()
    ensures
        "Mat/Colors/JacketDark"@ != "Mat/Colors/MaskDark"@,
        "Mat/Colors/JacketDark"@ != "Mat/Colors/ShoeDark"@,
        "Mat/Colors/JacketDark"@ != "Mat/Colors/SleevesDark"@,
        "Mat/Colors/JacketDark"@ != "Mat/Colors/SwimsuitDark"@,
        "Mat/Colors/JacketDark"@ != "Mat/Colors/PantsDark"@,
        "Mat/Colors/JacketDark"@ != "Mat/Colors/SportsBraDark"@,
        "Mat/Colors/JacketDark"@ != "Mat/Colors/TankTopDark"@,
        "Mat/Colors/JacketDark"@ != "Mat/Colors/CropDark"@,
{
    reveal_strlit("Mat/Colors/JacketDark");
    reveal_strlit("Mat/Colors/MaskDark");
    assert("Mat/Colors/JacketDark"@.len() != "Mat/Colors/MaskDark"@.len());
    reveal_strlit("Mat/Colors/ShoeDark");
    assert("Mat/Colors/JacketDark"@.len() != "Mat/Colors/ShoeDark"@.len());
    reveal_strlit("Mat/Colors/SleevesDark");
    assert("Mat/Colors/JacketDark"@.len() != "Mat/Colors/SleevesDark"@.len());
    reveal_strlit("Mat/Colors/SwimsuitDark");
    assert("Mat/Colors/JacketDark"@.len() != "Mat/Colors/SwimsuitDark"@.len());
    reveal_strlit("Mat/Colors/PantsDark");
    assert("Mat/Colors/JacketDark"@.len() != "Mat/Colors/PantsDark"@.len());
    reveal_strlit("Mat/Colors/SportsBraDark");
    assert("Mat/Colors/JacketDark"@.len() != "Mat/Colors/SportsBraDark"@.len());
    reveal_strlit("Mat/Colors/TankTopDark");
    assert("Mat/Colors/JacketDark"@.len() != "Mat/Colors/TankTopDark"@.len());
    reveal_strlit("Mat/Colors/CropDark");
    assert("Mat/Colors/JacketDark"@.len() != "Mat/Colors/CropDark"@.len());
}

proof fn lemma_distinct_from_later_48()
    ensures
        "Mat/Colors/MaskDark"@ != "Mat/Colors/ShoeDark"@,
        "Mat/Colors/MaskDark"@ != "Mat/Colors/SleevesDark"@,
        "Mat/Colors/MaskDark"@ != "Mat/Colors/SwimsuitDark"@,
        "Mat/Colors/MaskDark"@ != "Mat/Colors/PantsDark"@,
        "Mat/Colors/MaskDark"@ != "Mat/Colors/SportsBraDark"@,
        "Mat/Colors/MaskDark"@ != "Mat/Colors/TankTopDark"@,
        "Mat/Colors/MaskDark"@ != "Mat/Colors/CropDark"@,
{
    reveal_strlit("Mat/Colors/MaskDark");
    reveal_strlit("Mat/Colors/ShoeDark");
    assert("Mat/Colors/MaskDark"@[11] != "Mat/Colors/ShoeDark"@[11]);
    reveal_strlit("Mat/Colors/SleevesDark");
    assert("Mat/Colors/MaskDark"@.len() != "Mat/Colors/SleevesDark"@.len());
    reveal_strlit("Mat/Colors/SwimsuitDark");
    assert("Mat/Colors/MaskDark"@.len() != "Mat/Colors/SwimsuitDark"@.len());
    reveal_strlit("Mat/Colors/PantsDark");
    assert("Mat/Colors/MaskDark"@.len() != "Mat/Colors/PantsDark"@.len());
    reveal_strlit("Mat/Colors/SportsBraDark");
    assert("Mat/Colors/MaskDark"@.len() != "Mat/Colors/SportsBraDark"@.len());
    reveal_strlit("Mat/Colors/TankTopDark");
    assert("Mat/Colors/MaskDark"@.len() != "Mat/Colors/TankTopDark"@.len());
    reveal_strlit("Mat/Colors/CropDark");
    assert("Mat/Colors/MaskDark"@[11] != "Mat/Colors/CropDark"@[11]);
}

proof fn lemma_distinct_from_later_49()
    ensures
        "Mat/Colors/ShoeDark"@ != "Mat/Colors/SleevesDark"@,
        "Mat/Colors/ShoeDark"@ != "Mat/Colors/SwimsuitDark"@,
        "Mat/Colors/ShoeDark"@ != "Mat/Colors/PantsDark"@,
        "Mat/Colors/ShoeDark"@ != "Mat/Colors/SportsBraDark"@,
        "Mat/Colors/ShoeDark"@ != "Mat/Colors/TankTopDark"@,
        "Mat/Colors/ShoeDark"@ != "Mat/Colors/CropDark"@,
{
    reveal_strlit("Mat/Colors/ShoeDark");
    reveal_strlit("Mat/Colors/SleevesDark");
    assert("Mat/Colors/ShoeDark"@.len() != "Mat/Colors/SleevesDark"@.len());
    reveal_strlit("Mat/Colors/SwimsuitDark");
    assert("Mat/Colors/ShoeDark"@.len() != "Mat/Colors/SwimsuitDark"@.len());
    reveal_strlit("Mat/Colors/PantsDark");
    assert("Mat/Colors/ShoeDark"@.len() != "Mat/Colors/PantsDark"@.len());
    reveal_strlit("Mat/Colors/SportsBraDark");
    assert("Mat/Colors/ShoeDark"@.len() != "Mat/Colors/SportsBraDark"@.len());
    reveal_strlit("Mat/Colors/TankTopDark");
    assert("Mat/Colors/ShoeDark"@.len() != "Mat/Colors/TankTopDark"@.len());
    reveal_strlit("Mat/Colors/CropDark");
    assert("Mat/Colors/ShoeDark"@[11] != "Mat/Colors/CropDark"@[11]);
}

proof fn lemma_distinct_from_later_50()
    ensures
        "Mat/Colors/SleevesDark"@ != "Mat/Colors/SwimsuitDark"@,
        "Mat/Colors/SleevesDark"@ != "Mat/Colors/PantsDark"@,
        "Mat/Colors/SleevesDark"@ != "Mat/Colors/SportsBraDark"@,
        "Mat/Colors/SleevesDark"@ != "Mat/Colors/TankTopDark"@,
        "Mat/Colors/SleevesDark"@ != "Mat/Colors/CropDark"@,
{
    reveal_strlit("Mat/Colors/SleevesDark");
    reveal_strlit("Mat/Colors/SwimsuitDark");
    assert("Mat/Colors/SleevesDark"@.len() != "Mat/Colors/SwimsuitDark"@.len());
    reveal_strlit("Mat/Colors/PantsDark");
    assert("Mat/Colors/SleevesDark"@.len() != "Mat/Colors/PantsDark"@.len());
    reveal_strlit("Mat/Colors/SportsBraDark");
    assert("Mat/Colors/SleevesDark"@.len() != "Mat/Colors/SportsBraDark"@.len());
    reveal_strlit("Mat/Colors/TankTopDark");
    assert("Mat/Colors/SleevesDark"@[11] != "Mat/Colors/TankTopDark"@[11]);
    reveal_strlit("Mat/Colors/CropDark");
    assert("Mat/Colors/SleevesDark"@.len() != "Mat/Colors/CropDark"@.len());
}

proof fn lemma_distinct_from_later_51()
    ensures
        "Mat/Colors/SwimsuitDark"@ != "Mat/Colors/PantsDark"@,
        "Mat/Colors/SwimsuitDark"@ != "Mat/Colors/SportsBraDark"@,
        "Mat/Colors/SwimsuitDark"@ != "Mat/Colors/TankTopDark"@,
        "Mat/Colors/SwimsuitDark"@ != "Mat/Colors/CropDark"@,
{
    reveal_strlit("Mat/Colors/SwimsuitDark");
    reveal_strlit("Mat/Colors/PantsDark");
    assert("Mat/Colors/SwimsuitDark"@.len() != "Mat/Colors/PantsDark"@.len());
    reveal_strlit("Mat/Colors/SportsBraDark");
    assert("Mat/Colors/SwimsuitDark"@.len() != "Mat/Colors/SportsBraDark"@.len());
    reveal_strlit("Mat/Colors/TankTopDark");
    assert("Mat/Colors/SwimsuitDark"@.len() != "Mat/Colors/TankTopDark"@.len());
    reveal_strlit("Mat/Colors/CropDark");
    assert("Mat/Colors/SwimsuitDark"@.len() != "Mat/Colors/CropDark"@.len());
}

proof fn lemma_distinct_from_later_52()
    ensures
        "Mat/Colors/PantsDark"@ != "Mat/Colors/SportsBraDark"@,
        "Mat/Colors/PantsDark"@ != "Mat/Colors/TankTopDark"@,
        "Mat/Colors/PantsDark"@ != "Mat/Colors/CropDark"@,
{
    reveal_strlit("Mat/Colors/PantsDark");
    reveal_strlit("Mat/Colors/SportsBraDark");
    assert("Mat/Colors/PantsDark"@.len() != "Mat/Colors/SportsBraDark"@.len());
    reveal_strlit("Mat/Colors/TankTopDark");
    assert("Mat/Colors/PantsDark"@.len() != "Mat/Colors/TankTopDark"@.len());
    reveal_strlit("Mat/Colors/CropDark");
    assert("Mat/Colors/PantsDark"@.len() != "Mat/Colors/CropDark"@.len());
}

proof fn lemma_distinct_from_later_53()
    ensures
        "Mat/Colors/SportsBraDark"@ != "Mat/Colors/TankTopDark"@,
        "Mat/Colors/SportsBraDark"@ != "Mat/Colors/CropDark"@,
{
    reveal_strlit("Mat/Colors/SportsBraDark");
    reveal_strlit("Mat/Colors/TankTopDark");
    assert("Mat/Colors/SportsBraDark"@.len() != "Mat/Colors/TankTopDark"@.len());
    reveal_strlit("Mat/Colors/CropDark");
    assert("Mat/Colors/SportsBraDark"@.len() != "Mat/Colors/CropDark"@.len());
}

proof fn lemma_distinct_from_later_54()
    ensures
        "Mat/Colors/TankTopDark"@ != "Mat/Colors/CropDark"@,
{
    reveal_strlit("Mat/Colors/TankTopDark");
    reveal_strlit("Mat/Colors/CropDark");
    assert("Mat/Colors/TankTopDark"@.len() != "Mat/Colors/CropDark"@.len());
}

/// The starting list tracks exactly these 56 parameters, with these
/// starting values: the floats `Mat/Hue` and `Mat/Colors/HairHue` at 0.0,
/// and the toggles on or off as listed.
pub proof fn starting_list_is_fixed()
    ensures
        default_parameters().dom() == set![
            "Toggles/SwimsuitOn"@,
            "Toggles/JacketOn"@,
            "Toggles/Tops/CropOn"@,
            "Toggles/Tops/SportsBraOn"@,
            "Toggles/Tops/TankTopOn"@,
            "Toggles/Tops/NSFW"@,
            "Toggles/Acc/BeanieOff"@,
            "Toggles/Acc/GlovesOff"@,
            "Toggles/Acc/HeadphonesOff"@,
            "Toggles/Acc/MaskOff"@,
            "Toggles/Acc/ThighSocksOn"@,
            "Toggles/Acc/CalfSocksOn"@,
            "Toggles/Acc/SleevesOff"@,
            "Toggles/Acc/HolotagArmOff"@,
            "Toggles/Acc/HolotagThighOff"@,
            "Toggles/Acc/RunningShoeOff"@,
            "Toggles/Bottoms/PantiesOn"@,
            "Toggles/Bottoms/AssPantsOn"@,
            "Toggles/Bottoms/PantsOn"@,
            "Toggles/Bottoms/NSFW"@,
            "Toggles/Acc/GlassesOff"@,
            "Toggles/Acc/BackpackOff"@,
            "Toggles/Acc/DogtagsOff"@,
            "Toggles/Acc/LipRingsOff"@,
            "Toggles/Acc/EarringsOff"@,
            "Hair/ShortOn"@,
            "Hair/PonyOn"@,
            "Hair/LongOn"@,
            "Nails/Normal"@,
            "Nails/Square"@,
            "Nails/Almond"@,
            "Nails/Longer"@,
            "Nails/Stilletto"@,
            "Mat/Hue"@,
            "Mat/Colors/HairHue"@,
            "Mat/Colors/HairColored"@,
            "Mat/Cyberpunk"@,
            "Mat/HairBlack"@,
            "Mat/HairWhite"@,
            "Mat/HairBlonde"@,
            "Mat/Monochromatic"@,
            "Mat/AudioLink"@,
            "Mat/Colors/AssPantsDark"@,
            "Mat/Colors/BackpackDark"@,
            "Mat/Colors/BeanieDark"@,
            "Mat/Colors/GlovesDark"@,
            "Mat/Colors/HeadphonesDark"@,
            "Mat/Colors/JacketDark"@,
            "Mat/Colors/MaskDark"@,
            "Mat/Colors/ShoeDark"@,
            "Mat/Colors/SleevesDark"@,
            "Mat/Colors/SwimsuitDark"@,
            "Mat/Colors/PantsDark"@,
            "Mat/Colors/SportsBraDark"@,
            "Mat/Colors/TankTopDark"@,
            "Mat/Colors/CropDark"@
        ],
        default_parameters()["Toggles/SwimsuitOn"@] == AssParam::Bool(true),
        default_parameters()["Toggles/JacketOn"@] == AssParam::Bool(true),
        default_parameters()["Toggles/Tops/CropOn"@] == AssParam::Bool(false),
        default_parameters()["Toggles/Tops/SportsBraOn"@] == AssParam::Bool(false),
        default_parameters()["Toggles/Tops/TankTopOn"@] == AssParam::Bool(true),
        default_parameters()["Toggles/Tops/NSFW"@] == AssParam::Bool(false),
        default_parameters()["Toggles/Acc/BeanieOff"@] == AssParam::Bool(false),
        default_parameters()["Toggles/Acc/GlovesOff"@] == AssParam::Bool(false),
        default_parameters()["Toggles/Acc/HeadphonesOff"@] == AssParam::Bool(false),
        default_parameters()["Toggles/Acc/MaskOff"@] == AssParam::Bool(false),
        default_parameters()["Toggles/Acc/ThighSocksOn"@] == AssParam::Bool(true),
        default_parameters()["Toggles/Acc/CalfSocksOn"@] == AssParam::Bool(false),
        default_parameters()["Toggles/Acc/SleevesOff"@] == AssParam::Bool(false),
        default_parameters()["Toggles/Acc/HolotagArmOff"@] == AssParam::Bool(false),
        default_parameters()["Toggles/Acc/HolotagThighOff"@] == AssParam::Bool(false),
        default_parameters()["Toggles/Acc/RunningShoeOff"@] == AssParam::Bool(false),
        default_parameters()["Toggles/Bottoms/PantiesOn"@] == AssParam::Bool(false),
        default_parameters()["Toggles/Bottoms/AssPantsOn"@] == AssParam::Bool(true),
        default_parameters()["Toggles/Bottoms/PantsOn"@] == AssParam::Bool(false),
        default_parameters()["Toggles/Bottoms/NSFW"@] == AssParam::Bool(false),
        default_parameters()["Toggles/Acc/GlassesOff"@] == AssParam::Bool(false),
        default_parameters()["Toggles/Acc/BackpackOff"@] == AssParam::Bool(false),
        default_parameters()["Toggles/Acc/DogtagsOff"@] == AssParam::Bool(false),
        default_parameters()["Toggles/Acc/LipRingsOff"@] == AssParam::Bool(false),
        default_parameters()["Toggles/Acc/EarringsOff"@] == AssParam::Bool(false),
        default_parameters()["Hair/ShortOn"@] == AssParam::Bool(false),
        default_parameters()["Hair/PonyOn"@] == AssParam::Bool(false),
        default_parameters()["Hair/LongOn"@] == AssParam::Bool(true),
        default_parameters()["Nails/Normal"@] == AssParam::Bool(false),
        default_parameters()["Nails/Square"@] == AssParam::Bool(false),
        default_parameters()["Nails/Almond"@] == AssParam::Bool(false),
        default_parameters()["Nails/Longer"@] == AssParam::Bool(false),
        default_parameters()["Nails/Stilletto"@] == AssParam::Bool(true),
        default_parameters()["Mat/Hue"@] == AssParam::Float(0),
        default_parameters()["Mat/Colors/HairHue"@] == AssParam::Float(0),
        default_parameters()["Mat/Colors/HairColored"@] == AssParam::Bool(true),
        default_parameters()["Mat/Cyberpunk"@] == AssParam::Bool(true),
        default_parameters()["Mat/HairBlack"@] == AssParam::Bool(false),
        default_parameters()["Mat/HairWhite"@] == AssParam::Bool(false),
        default_parameters()["Mat/HairBlonde"@] == AssParam::Bool(true),
        default_parameters()["Mat/Monochromatic"@] == AssParam::Bool(false),
        default_parameters()["Mat/AudioLink"@] == AssParam::Bool(false),
        default_parameters()["Mat/Colors/AssPantsDark"@] == AssParam::Bool(true),
        default_parameters()["Mat/Colors/BackpackDark"@] == AssParam::Bool(false),
        default_parameters()["Mat/Colors/BeanieDark"@] == AssParam::Bool(true),
        default_parameters()["Mat/Colors/GlovesDark"@] == AssParam::Bool(true),
        default_parameters()["Mat/Colors/HeadphonesDark"@] == AssParam::Bool(true),
        default_parameters()["Mat/Colors/JacketDark"@] == AssParam::Bool(false),
        default_parameters()["Mat/Colors/MaskDark"@] == AssParam::Bool(true),
        default_parameters()["Mat/Colors/ShoeDark"@] == AssParam::Bool(false),
        default_parameters()["Mat/Colors/SleevesDark"@] == AssParam::Bool(true),
        default_parameters()["Mat/Colors/SwimsuitDark"@] == AssParam::Bool(false),
        default_parameters()["Mat/Colors/PantsDark"@] == AssParam::Bool(false),
        default_parameters()["Mat/Colors/SportsBraDark"@] == AssParam::Bool(true),
        default_parameters()["Mat/Colors/TankTopDark"@] == AssParam::Bool(true),
        default_parameters()["Mat/Colors/CropDark"@] == AssParam::Bool(true),
{
    lemma_distinct_from_later_0();
    lemma_distinct_from_later_1();
    lemma_distinct_from_later_2();
    lemma_distinct_from_later_3();
    lemma_distinct_from_later_4();
    lemma_distinct_from_later_5();
    lemma_distinct_from_later_6();
    lemma_distinct_from_later_7();
    lemma_distinct_from_later_8();
    lemma_distinct_from_later_9();
    lemma_distinct_from_later_10();
    lemma_distinct_from_later_11();
    lemma_distinct_from_later_12();
    lemma_distinct_from_later_13();
    lemma_distinct_from_later_14();
    lemma_distinct_from_later_15();
    lemma_distinct_from_later_16();
    lemma_distinct_from_later_17();
    lemma_distinct_from_later_18();
    lemma_distinct_from_later_19();
    lemma_distinct_from_later_20();
    lemma_distinct_from_later_21();
    lemma_distinct_from_later_22();
    lemma_distinct_from_later_23();
    lemma_distinct_from_later_24();
    lemma_distinct_from_later_25();
    lemma_distinct_from_later_26();
    lemma_distinct_from_later_27();
    lemma_distinct_from_later_28();
    lemma_distinct_from_later_29();
    lemma_distinct_from_later_30();
    lemma_distinct_from_later_31();
    lemma_distinct_from_later_32();
    lemma_distinct_from_later_33();
    lemma_distinct_from_later_34();
    lemma_distinct_from_later_35();
    lemma_distinct_from_later_36();
    lemma_distinct_from_later_37();
    lemma_distinct_from_later_38();
    lemma_distinct_from_later_39();
    lemma_distinct_from_later_40();
    lemma_distinct_from_later_41();
    lemma_distinct_from_later_42();
    lemma_distinct_from_later_43();
    lemma_distinct_from_later_44();
    lemma_distinct_from_later_45();
    lemma_distinct_from_later_46();
    lemma_distinct_from_later_47();
    lemma_distinct_from_later_48();
    lemma_distinct_from_later_49();
    lemma_distinct_from_later_50();
    lemma_distinct_from_later_51();
    lemma_distinct_from_later_52();
    lemma_distinct_from_later_53();
    lemma_distinct_from_later_54();
    assert(default_parameters().dom() =~= set![
            "Toggles/SwimsuitOn"@,
            "Toggles/JacketOn"@,
            "Toggles/Tops/CropOn"@,
            "Toggles/Tops/SportsBraOn"@,
            "Toggles/Tops/TankTopOn"@,
            "Toggles/Tops/NSFW"@,
            "Toggles/Acc/BeanieOff"@,
            "Toggles/Acc/GlovesOff"@,
            "Toggles/Acc/HeadphonesOff"@,
            "Toggles/Acc/MaskOff"@,
            "Toggles/Acc/ThighSocksOn"@,
            "Toggles/Acc/CalfSocksOn"@,
            "Toggles/Acc/SleevesOff"@,
            "Toggles/Acc/HolotagArmOff"@,
            "Toggles/Acc/HolotagThighOff"@,
            "Toggles/Acc/RunningShoeOff"@,
            "Toggles/Bottoms/PantiesOn"@,
            "Toggles/Bottoms/AssPantsOn"@,
            "Toggles/Bottoms/PantsOn"@,
            "Toggles/Bottoms/NSFW"@,
            "Toggles/Acc/GlassesOff"@,
            "Toggles/Acc/BackpackOff"@,
            "Toggles/Acc/DogtagsOff"@,
            "Toggles/Acc/LipRingsOff"@,
            "Toggles/Acc/EarringsOff"@,
            "Hair/ShortOn"@,
            "Hair/PonyOn"@,
            "Hair/LongOn"@,
            "Nails/Normal"@,
            "Nails/Square"@,
            "Nails/Almond"@,
            "Nails/Longer"@,
            "Nails/Stilletto"@,
            "Mat/Hue"@,
            "Mat/Colors/HairHue"@,
            "Mat/Colors/HairColored"@,
            "Mat/Cyberpunk"@,
            "Mat/HairBlack"@,
            "Mat/HairWhite"@,
            "Mat/HairBlonde"@,
            "Mat/Monochromatic"@,
            "Mat/AudioLink"@,
            "Mat/Colors/AssPantsDark"@,
            "Mat/Colors/BackpackDark"@,
            "Mat/Colors/BeanieDark"@,
            "Mat/Colors/GlovesDark"@,
            "Mat/Colors/HeadphonesDark"@,
            "Mat/Colors/JacketDark"@,
            "Mat/Colors/MaskDark"@,
            "Mat/Colors/ShoeDark"@,
            "Mat/Colors/SleevesDark"@,
            "Mat/Colors/SwimsuitDark"@,
            "Mat/Colors/PantsDark"@,
            "Mat/Colors/SportsBraDark"@,
            "Mat/Colors/TankTopDark"@,
            "Mat/Colors/CropDark"@
        ]);
}

/// What an entry of avatar data does to the parameter it names: when the
/// entry is the last one for a tracked name, that parameter ends as the
/// entry's float bits (0.0 where the value is no number) if the name holds
/// `Hue`, and otherwise as the toggle "the value is the integer 1" — for
/// every such name, whatever else it says.
pub proof fn entry_sets_named_parameter(m: Map<Seq<char>, AssParam>, ps: Seq<AnimationParameterView>, i: int)
    requires
        0 <= i < ps.len(),
        m.dom().contains(strip_char(ps[i].name_json, '"')),
        forall|j: int|
            i < j < ps.len() ==> strip_char(#[trigger] ps[j].name_json, '"') != strip_char(
                ps[i].name_json,
                '"',
            ),
    ensures
        apply_entries(m, ps)[strip_char(ps[i].name_json, '"')] == (if has_substring(
            strip_char(ps[i].name_json, '"'),
            "Hue"@,
        ) {
            AssParam::Float(
                if ps[i].float_bits is Some {
                    ps[i].float_bits->Some_0
                } else {
                    0u32
                },
            )
        } else {
            AssParam::Bool(ps[i].int_value == Some(1i64))
        }),
{
    assert forall|j: int| i < j < ps.len() implies entry_name(#[trigger] ps[j]) != entry_name(ps[i]) by {
        assert(strip_char(ps[j].name_json, '"') != strip_char(ps[i].name_json, '"'));
    }
    last_entry_decides(m, ps, i);
}

} // verus!
