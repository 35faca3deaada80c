//! The saver's reaction to each OSC message from VRChat: the session state it
//! keeps, and the action it asks the program around it to perform.
use vstd::prelude::*;
use vstd::utf8::*;
use vstd::string::StringSliceAdditionalSpecFns;
use crate::text::{
    has_substring, occurs_at, last_segment, parsed_i32, widened_index, contains_str, str_eq,
    last_segment_of, parse_i32, widen_index,
};
use crate::params::{
    AssParam, ParameterList, AnimationParameterView, apply_entries, default_parameters,
    read_parameters_keep_names_and_kinds,
};
use crate::osc::{OscArg, OscArgView, PacketError, read_datagram, osc_datagram, parameter_address, args_view};

verus! {

broadcast use {encode_utf8_decode_utf8, encode_utf8_valid_utf8};

/// A controller hand.
#[derive(Clone, Copy, Debug, PartialEq, Eq, Structural)]
pub enum Hand {
    Left,
    Right,
}

/// What the program around the session does after a message.
#[derive(Clone, Debug, PartialEq, Eq)]
pub enum Action {
    /// Nothing.
    Ignore,
    /// An avatar was put on: load the saved parameters of this avatar id.
    LoadAvatar(String),
    /// An avatar change came without an avatar id.
    AvatarIdMissing,
    /// Pulse the controller in this hand and reset its haptics parameter.
    Haptic(Hand),
    /// A tracked parameter took this value.
    Received(String, AssParam),
    /// Saving mode was switched.
    SavingChanged(bool),
    /// Write the current parameters to the state file with this index.
    SaveState(usize),
    /// Send the parameters of the state file with this index to VRChat.
    SendState(usize),
}

/// What an action is, with texts as character sequences.
pub enum ActionView {
    Ignore,
    LoadAvatar(Seq<char>),
    AvatarIdMissing,
    Haptic(Hand),
    Received(Seq<char>, AssParam),
    SavingChanged(bool),
    SaveState(nat),
    SendState(nat),
}

impl View for Action {
    type V = ActionView;

    open spec fn view(&self) -> ActionView {
        match self {
            Action::Ignore => ActionView::Ignore,
            Action::LoadAvatar(id) => ActionView::LoadAvatar(id@),
            Action::AvatarIdMissing => ActionView::AvatarIdMissing,
            Action::Haptic(h) => ActionView::Haptic(*h),
            Action::Received(name, v) => ActionView::Received(name@, *v),
            Action::SavingChanged(b) => ActionView::SavingChanged(*b),
            Action::SaveState(i) => ActionView::SaveState(*i as nat),
            Action::SendState(i) => ActionView::SendState(*i as nat),
        }
    }
}

/// The state that the saver keeps between messages.
pub struct Session {
    /// The id of the avatar last seen.
    pub avatar_id: String,
    /// The current values of the tracked parameters.
    pub state: ParameterList,
    /// Whether a state command saves (rather than sends) a state.
    pub is_saving: bool,
}

/// A session's state, with texts as character sequences.
pub struct SessionView {
    pub avatar_id: Seq<char>,
    pub state: Map<Seq<char>, AssParam>,
    pub is_saving: bool,
}

impl View for Session {
    type V = SessionView;

    open spec fn view(&self) -> SessionView {
        SessionView { avatar_id: self.avatar_id@, state: self.state@, is_saving: self.is_saving }
    }
}

/// The address announces an avatar change.
pub open spec fn is_avatar_change(addr: Seq<char>) -> bool {
    addr == "/avatar/change"@
}

/// The address is a haptics trigger.
pub open spec fn is_haptic(addr: Seq<char>) -> bool {
    has_substring(addr, "Haptics"@) && !has_substring(addr, "_"@)
}

/// The address's UTF-8 bytes can be cut after the 19 bytes of
/// `/avatar/parameters/`.
pub open spec fn has_parameter_suffix(addr: Seq<char>) -> bool {
    is_char_boundary(encode_utf8(addr), 19)
}

/// The address without its first 19 bytes (the length of
/// `/avatar/parameters/`): the parameter name it speaks of.
pub open spec fn parameter_suffix(addr: Seq<char>) -> Seq<char> {
    decode_utf8(encode_utf8(addr).subrange(19, encode_utf8(addr).len() as int))
}

/// The state index that a state command's address names.
pub open spec fn state_index(addr: Seq<char>) -> nat {
    widened_index(parsed_i32(last_segment(addr))->Some_0) as nat
}

/// The messages that the saver handles without failing, with `state` the
/// current parameters: an avatar change needs an argument; a message past
/// the haptics check needs an address that can be cut after 19 bytes; a
/// parameter, saving or state message needs an argument; a state message
/// whose argument is `true` needs an address that ends in an `i32`.
pub open spec fn message_handled(state: Map<Seq<char>, AssParam>, addr: Seq<char>, args: Seq<OscArgView>) -> bool {
    if is_avatar_change(addr) {
        args.len() > 0
    } else if is_haptic(addr) {
        true
    } else if !has_parameter_suffix(addr) {
        false
    } else if state.dom().contains(parameter_suffix(addr)) {
        args.len() > 0
    } else if has_substring(addr, "OSC/IsSaving"@) {
        args.len() > 0
    } else if has_substring(addr, "State"@) {
        args.len() > 0 && (args[0] matches OscArgView::Bool(true) ==> parsed_i32(last_segment(addr)) is Some)
    } else {
        true
    }
}

/// The session after the message `addr` with `args`, and the action it asks
/// for. The checks go in this order, the first that applies deciding:
/// - `/avatar/change`: saving mode ends; a string argument asks to load that
///   avatar (the kept avatar id stays as it was), any other empties the id;
/// - a haptics address (`Haptics`, no `_`): a pulse for the right hand if
///   the address says `Right`, else for the left if it says `Left`;
/// - an address whose part after `/avatar/parameters/` is a tracked name: a
///   toggle or float argument becomes that parameter's value;
/// - an address with `OSC/IsSaving`: a toggle argument sets saving mode;
/// - an address with `State`: a `true` argument saves or sends (by saving
///   mode) the state whose index ends the address;
/// - anything else: nothing.
pub open spec fn step(s: SessionView, addr: Seq<char>, args: Seq<OscArgView>) -> (SessionView, ActionView) {
    if is_avatar_change(addr) {
        match args[0] {
            OscArgView::Str(id) => (
                SessionView { avatar_id: s.avatar_id, state: s.state, is_saving: false },
                ActionView::LoadAvatar(id),
            ),
            _ => (
                SessionView { avatar_id: Seq::empty(), state: s.state, is_saving: false },
                ActionView::AvatarIdMissing,
            ),
        }
    } else if is_haptic(addr) {
        if has_substring(addr, "Right"@) {
            (s, ActionView::Haptic(Hand::Right))
        } else if has_substring(addr, "Left"@) {
            (s, ActionView::Haptic(Hand::Left))
        } else {
            (s, ActionView::Ignore)
        }
    } else if s.state.dom().contains(parameter_suffix(addr)) {
        let name = parameter_suffix(addr);
        match args[0] {
            OscArgView::Bool(b) => (
                SessionView {
                    avatar_id: s.avatar_id,
                    state: s.state.insert(name, AssParam::Bool(b)),
                    is_saving: s.is_saving,
                },
                ActionView::Received(name, AssParam::Bool(b)),
            ),
            OscArgView::Float(f) => (
                SessionView {
                    avatar_id: s.avatar_id,
                    state: s.state.insert(name, AssParam::Float(f)),
                    is_saving: s.is_saving,
                },
                ActionView::Received(name, AssParam::Float(f)),
            ),
            _ => (s, ActionView::Ignore),
        }
    } else if has_substring(addr, "OSC/IsSaving"@) {
        match args[0] {
            OscArgView::Bool(b) => (
                SessionView { avatar_id: s.avatar_id, state: s.state, is_saving: b },
                ActionView::SavingChanged(b),
            ),
            _ => (s, ActionView::Ignore),
        }
    } else if has_substring(addr, "State"@) {
        match args[0] {
            OscArgView::Bool(true) => if s.is_saving {
                (s, ActionView::SaveState(state_index(addr)))
            } else {
                (s, ActionView::SendState(state_index(addr)))
            },
            _ => (s, ActionView::Ignore),
        }
    } else {
        (s, ActionView::Ignore)
    }
}

/// The id an avatar change carries: its first argument, where that is a
/// string.
pub fn parse_id(args: &Vec<OscArg>) -> (r: Option<String>)
    requires
        args@.len() > 0,
    ensures
        match args@[0] {
            OscArg::Str(id) => r is Some && r->Some_0@ == id@,
            _ => r is None,
        },
{
    match &args[0] {
        OscArg::Str(id) => Some(id.clone()),
        _ => None,
    }
}

/// The parameter name in `addr`, where its bytes can be cut after 19.
fn parameter_suffix_of(addr: &str) -> (r: Option<&str>)
    ensures
        match r {
            Some(name) => has_parameter_suffix(addr@) && name@ == parameter_suffix(addr@),
            None => !has_parameter_suffix(addr@),
        },
{
    if addr.is_char_boundary(19) {
        let (_, rest) = addr.split_at(19);
        proof {
            assert(encode_utf8(rest@) == rest.spec_bytes());
        }
        Some(rest)
    } else {
        None
    }
}

/// The name of the parameter that resets the haptics of `hand`.
pub fn haptic_reset_parameter(hand: Hand) -> (r: &'static str)
    ensures
        r@ == match hand {
            Hand::Right => "avatar/parameters/OSC/Haptics/Right"@,
            Hand::Left => "avatar/parameters/OSC/Haptics/Left"@,
        },
{
    match hand {
        Hand::Right => "avatar/parameters/OSC/Haptics/Right",
        Hand::Left => "avatar/parameters/OSC/Haptics/Left",
    }
}

impl Session {
    /// The session before any message: no avatar, no parameters, not saving.
    pub fn new() -> (r: Self)
        ensures
            r@.avatar_id == Seq::<char>::empty(),
            r@.state == Map::<Seq<char>, AssParam>::empty(),
            !r@.is_saving,
    {
        Session { avatar_id: String::new(), state: ParameterList::new(), is_saving: false }
    }

    /// Whether the message `addr` with `args` is one the session handles.
    pub fn handles(&self, addr: &str, args: &Vec<OscArg>) -> (r: bool)
        ensures
            r == message_handled(self@.state, addr@, args_view(args@)),
    {
        if str_eq(addr, "/avatar/change") {
            return args.len() > 0;
        }
        if contains_str(addr, "Haptics") && !contains_str(addr, "_") {
            return true;
        }
        let name = match parameter_suffix_of(addr) {
            Some(n) => n,
            None => {
                return false;
            },
        };
        if self.state.contains_key(name) {
            return args.len() > 0;
        }
        if contains_str(addr, "OSC/IsSaving") {
            return args.len() > 0;
        }
        if contains_str(addr, "State") {
            if args.len() == 0 {
                return false;
            }
            return match &args[0] {
                OscArg::Bool(true) => parse_i32(last_segment_of(addr)).is_some(),
                _ => true,
            };
        }
        true
    }

    /// Handles one message from VRChat: updates the session and returns
    /// the action to perform, as `step` says.
    pub fn handle_message(&mut self, addr: &str, args: &Vec<OscArg>) -> (a: Action)
        requires
            message_handled(old(self)@.state, addr@, args_view(args@)),
        ensures
            (final(self)@, a@) == step(old(self)@, addr@, args_view(args@)),
    {
        if str_eq(addr, "/avatar/change") {
            self.is_saving = false;
            return match parse_id(args) {
                Some(id) => Action::LoadAvatar(id),
                None => {
                    self.avatar_id = String::new();
                    Action::AvatarIdMissing
                },
            };
        }
        if contains_str(addr, "Haptics") && !contains_str(addr, "_") {
            if contains_str(addr, "Right") {
                return Action::Haptic(Hand::Right);
            } else if contains_str(addr, "Left") {
                return Action::Haptic(Hand::Left);
            }
            return Action::Ignore;
        }
        let name = match parameter_suffix_of(addr) {
            Some(n) => n,
            None => {
                return Action::Ignore;
            },
        };
        if self.state.contains_key(name) {
            return match &args[0] {
                OscArg::Bool(b) => {
                    self.state.insert(name, AssParam::Bool(*b));
                    Action::Received(name.to_owned(), AssParam::Bool(*b))
                },
                OscArg::Float(f) => {
                    self.state.insert(name, AssParam::Float(*f));
                    Action::Received(name.to_owned(), AssParam::Float(*f))
                },
                _ => Action::Ignore,
            };
        }
        if contains_str(addr, "OSC/IsSaving") {
            return match &args[0] {
                OscArg::Bool(b) => {
                    self.is_saving = *b;
                    Action::SavingChanged(*b)
                },
                _ => Action::Ignore,
            };
        }
        if contains_str(addr, "State") {
            return match &args[0] {
                OscArg::Bool(true) => {
                    let id = match parse_i32(last_segment_of(addr)) {
                        Some(v) => v,
                        None => {
                            return Action::Ignore;
                        },
                    };
                    let index = widen_index(id);
                    if self.is_saving {
                        Action::SaveState(index)
                    } else {
                        Action::SendState(index)
                    }
                },
                _ => Action::Ignore,
            };
        }
        Action::Ignore
    }

    /// Takes on the parameters loaded for a new avatar, where there were any.
    pub fn adopt_loaded(&mut self, loaded: Option<ParameterList>)
        ensures
            final(self)@.avatar_id == old(self)@.avatar_id,
            final(self)@.is_saving == old(self)@.is_saving,
            final(self)@.state == match loaded {
                Some(m) => m@,
                None => old(self)@.state,
            },
    {
        match loaded {
            Some(m) => {
                self.state = m;
            },
            None => {},
        }
    }

    /// Handles one UDP datagram: decodes it and, for a message the session
    /// handles, acts as `handle_message`. A bundle is ignored; where the bytes
    /// are no OSC packet, or the message is not handled, the session is left
    /// as it was and the error says which.
    pub fn handle_datagram(&mut self, buf: &[u8]) -> (r: Result<Action, PacketError>)
        ensures
            osc_datagram(buf@) is None ==> r == Err::<Action, PacketError>(
                PacketError::Undecodable,
            ) && final(self)@ == old(self)@,
            osc_datagram(buf@) == Some(None::<(Seq<char>, Seq<OscArgView>)>) ==> r == Ok::<
                Action,
                PacketError,
            >(Action::Ignore) && final(self)@ == old(self)@,
            osc_datagram(buf@) matches Some(Some((addr, args))) ==> if message_handled(
                old(self)@.state,
                addr,
                args,
            ) {
                r is Ok && step(old(self)@, addr, args) == (final(self)@, r->Ok_0@)
            } else {
                r == Err::<Action, PacketError>(PacketError::Unhandled) && final(self)@ == old(
                    self,
                )@
            },
    {
        match read_datagram(buf) {
            Err(e) => Err(e),
            Ok(None) => Ok(Action::Ignore),
            Ok(Some(msg)) => {
                if !self.handles(msg.addr.as_str(), &msg.args) {
                    return Err(PacketError::Unhandled);
                }
                let a = self.handle_message(msg.addr.as_str(), &msg.args);
                Ok(a)
            },
        }
    }
}

/// The UTF-8 bytes of `p + n` are those of `p` then those of `n`, with a
/// character boundary between them.
proof fn lemma_encode_concat(p: Seq<char>, n: Seq<char>)
    ensures
        encode_utf8(p + n) == encode_utf8(p) + encode_utf8(n),
        is_char_boundary(encode_utf8(p + n), encode_utf8(p).len() as int),
    decreases p.len(),
{
    if p.len() == 0 {
        assert(p + n =~= n);
        assert(encode_utf8(p) =~= Seq::<u8>::empty());
        assert(encode_utf8(p) + encode_utf8(n) =~= encode_utf8(n));
    } else {
        let q = p + n;
        assert(q.drop_first() =~= p.drop_first() + n);
        lemma_encode_concat(p.drop_first(), n);
        let head = encode_scalar(p[0] as u32);
        assert(q[0] == p[0]);
        assert(encode_utf8(q) == head + encode_utf8(q.drop_first()));
        assert(encode_utf8(p) == head + encode_utf8(p.drop_first()));
        assert(encode_utf8(q) =~= encode_utf8(p) + encode_utf8(n));
        encode_utf8_first_scalar(q);
        let bytes = encode_utf8(q);
        assert(pop_first_scalar(bytes) =~= encode_utf8(q.drop_first()));
    }
}

/// The parameter that a message to `/avatar/parameters/<name>` speaks of
/// is `name`: what the saver sends under a name, it reads back under the
/// same name.
pub proof fn parameter_address_names_parameter(name: Seq<char>)
    ensures
        has_parameter_suffix(parameter_address(name)),
        parameter_suffix(parameter_address(name)) == name,
{
    let prefix = "/avatar/parameters/"@;
    reveal_strlit("/avatar/parameters/");
    assert(is_ascii_chars(prefix));
    is_ascii_chars_encode_utf8(prefix);
    lemma_encode_concat(prefix, name);
    let bytes = encode_utf8(parameter_address(name));
    assert(bytes.subrange(19, bytes.len() as int) =~= encode_utf8(name));
}

/// A text whose characters all differ from the first character of
/// `needle` (a non-empty text) does not contain `needle`.
proof fn lemma_lacks_first_char(k: Seq<char>, needle: Seq<char>)
    requires
        needle.len() > 0,
        forall|i: int| 0 <= i < k.len() ==> #[trigger] k[i] != needle[0],
    ensures
        !has_substring(k, needle),
{
    assert forall|i: int| !occurs_at(k, needle, i) by {
        if 0 <= i && i + needle.len() <= k.len() {
            assert(k.subrange(i, i + needle.len())[0] == k[i]);
        }
    }
}

/// A pattern that begins with a character the `/avatar/parameters/` prefix
/// does not hold occurs in an address `prefix + name` only within `name`.
proof fn lemma_pattern_in_name(name: Seq<char>, pat: Seq<char>)
    requires
        pat.len() > 0,
        forall|i: int| 0 <= i < 19 ==> #[trigger] "/avatar/parameters/"@[i] != pat[0],
        has_substring(parameter_address(name), pat),
    ensures
        has_substring(name, pat),
{
    reveal_strlit("/avatar/parameters/");
    let addr = parameter_address(name);
    let i = choose|i: int| occurs_at(addr, pat, i);
    assert(addr.subrange(i, i + pat.len())[0] == addr[i]);
    if i < 19 {
        assert(addr[i] == "/avatar/parameters/"@[i]);
    }
    assert(name.subrange(i - 19, i - 19 + pat.len()) =~= addr.subrange(i, i + pat.len()));
    assert(occurs_at(name, pat, i - 19));
}

/// An address `/avatar/parameters/<name>` is no avatar change, and it is no
/// haptics trigger unless `name` holds `Haptics` and no `_`.
proof fn lemma_parameter_address_kind(name: Seq<char>)
    ensures
        !is_avatar_change(parameter_address(name)),
        is_haptic(parameter_address(name)) ==> has_substring(name, "Haptics"@) && !has_substring(
            name,
            "_"@,
        ),
{
    reveal_strlit("/avatar/parameters/");
    reveal_strlit("/avatar/change");
    reveal_strlit("Haptics");
    reveal_strlit("_");
    assert(parameter_address(name).len() >= 19);
    if is_haptic(parameter_address(name)) {
        lemma_pattern_in_name(name, "Haptics"@);
        if has_substring(name, "_"@) {
            let j = choose|j: int| occurs_at(name, "_"@, j);
            assert(parameter_address(name).subrange(j + 19, j + 20) =~= name.subrange(j, j + 1));
            assert(occurs_at(parameter_address(name), "_"@, j + 19));
        }
    }
}

/// A toggle received for a tracked parameter is recorded, whichever way it
/// points: the message to `/avatar/parameters/<name>` whose first argument
/// is the toggle `b` is handled, sets that parameter to `b`, leaves all else
/// as it was, and is reported as received (unless the name makes the address
/// a haptics trigger).
pub proof fn tracked_toggle_is_recorded(
    s: SessionView,
    name: Seq<char>,
    b: bool,
    rest: Seq<OscArgView>,
)
    requires
        s.state.dom().contains(name),
        !has_substring(name, "Haptics"@) || has_substring(name, "_"@),
    ensures
        message_handled(s.state, parameter_address(name), seq![OscArgView::Bool(b)] + rest),
        step(s, parameter_address(name), seq![OscArgView::Bool(b)] + rest) == (
            SessionView {
                avatar_id: s.avatar_id,
                state: s.state.insert(name, AssParam::Bool(b)),
                is_saving: s.is_saving,
            },
            ActionView::Received(name, AssParam::Bool(b)),
        ),
{
    lemma_parameter_address_kind(name);
    parameter_address_names_parameter(name);
    assert((seq![OscArgView::Bool(b)] + rest)[0] == OscArgView::Bool(b));
}

/// Likewise a float received for a tracked parameter is recorded by its bits.
pub proof fn tracked_float_is_recorded(
    s: SessionView,
    name: Seq<char>,
    bits: u32,
    rest: Seq<OscArgView>,
)
    requires
        s.state.dom().contains(name),
        !has_substring(name, "Haptics"@) || has_substring(name, "_"@),
    ensures
        message_handled(s.state, parameter_address(name), seq![OscArgView::Float(bits)] + rest),
        step(s, parameter_address(name), seq![OscArgView::Float(bits)] + rest) == (
            SessionView {
                avatar_id: s.avatar_id,
                state: s.state.insert(name, AssParam::Float(bits)),
                is_saving: s.is_saving,
            },
            ActionView::Received(name, AssParam::Float(bits)),
        ),
{
    lemma_parameter_address_kind(name);
    parameter_address_names_parameter(name);
    assert((seq![OscArgView::Float(bits)] + rest)[0] == OscArgView::Float(bits));
}

/// The saving switch works both ways: a message whose address holds
/// `OSC/IsSaving` (and is no haptics trigger, can be cut after 19 bytes, and
/// names no tracked parameter) with the toggle `b` first is handled, sets
/// saving mode to `b`, and changes nothing else.
pub proof fn saving_switch_is_handled(
    s: SessionView,
    addr: Seq<char>,
    b: bool,
    rest: Seq<OscArgView>,
)
    requires
        has_substring(addr, "OSC/IsSaving"@),
        !is_haptic(addr),
        has_parameter_suffix(addr),
        !s.state.dom().contains(parameter_suffix(addr)),
    ensures
        message_handled(s.state, addr, seq![OscArgView::Bool(b)] + rest),
        step(s, addr, seq![OscArgView::Bool(b)] + rest) == (
            SessionView { avatar_id: s.avatar_id, state: s.state, is_saving: b },
            ActionView::SavingChanged(b),
        ),
{
    reveal_strlit("/avatar/change");
    reveal_strlit("OSC/IsSaving");
    if addr == "/avatar/change"@ {
        lemma_lacks_first_char(addr, "OSC/IsSaving"@);
    }
    assert((seq![OscArgView::Bool(b)] + rest)[0] == OscArgView::Bool(b));
}

/// No message adds or drops a tracked parameter.
pub proof fn message_keeps_parameter_names(s: SessionView, addr: Seq<char>, args: Seq<OscArgView>)
    requires
        message_handled(s.state, addr, args),
    ensures
        step(s, addr, args).0.state.dom() == s.state.dom(),
{
    if !is_avatar_change(addr) && !is_haptic(addr) && s.state.dom().contains(parameter_suffix(addr)) {
        let name = parameter_suffix(addr);
        assert(s.state.insert(name, AssParam::Bool(true)).dom() =~= s.state.dom());
        assert(s.state.insert(name, AssParam::Bool(false)).dom() =~= s.state.dom());
        match args[0] {
            OscArgView::Float(f) => {
                assert(s.state.insert(name, AssParam::Float(f)).dom() =~= s.state.dom());
            },
            _ => {},
        }
    }
}

/// Only a value received for a tracked parameter changes the parameters,
/// and then only that one parameter, to the value received.
pub proof fn only_received_values_change_parameters(
    s: SessionView,
    addr: Seq<char>,
    args: Seq<OscArgView>,
)
    requires
        message_handled(s.state, addr, args),
    ensures
        match step(s, addr, args).1 {
            ActionView::Received(name, v) => s.state.dom().contains(name) && step(
                s,
                addr,
                args,
            ).0.state == s.state.insert(name, v),
            _ => step(s, addr, args).0.state == s.state,
        },
{
}

/// After an avatar change the saver is not in saving mode, and the avatar id
/// it keeps is never the new one: it stays as it was, or is emptied.
pub proof fn avatar_change_ends_saving(s: SessionView, args: Seq<OscArgView>)
    requires
        message_handled(s.state, "/avatar/change"@, args),
    ensures
        !step(s, "/avatar/change"@, args).0.is_saving,
        step(s, "/avatar/change"@, args).0.avatar_id == s.avatar_id || step(
            s,
            "/avatar/change"@,
            args,
        ).0.avatar_id.len() == 0,
        step(s, "/avatar/change"@, args).0.state == s.state,
{
}

/// A state command saves exactly when the saver is in saving mode, and
/// sends otherwise; neither changes the session.
pub proof fn state_command_follows_saving_mode(s: SessionView, addr: Seq<char>, args: Seq<OscArgView>)
    requires
        message_handled(s.state, addr, args),
    ensures
        step(s, addr, args).1 is SaveState ==> s.is_saving && step(s, addr, args).0 == s,
        step(s, addr, args).1 is SendState ==> !s.is_saving && step(s, addr, args).0 == s,
{
}

/// The tracked names are none at all, or exactly those of the starting list.
pub open spec fn tracks_none_or_all(state: Map<Seq<char>, AssParam>) -> bool {
    state.dom() == Set::<Seq<char>>::empty() || state.dom() == default_parameters().dom()
}

/// What happens to a session between two of its states: a message arrives,
/// or the data of a new avatar was searched for (`None` where none was
/// found).
pub enum SessionInput {
    Message(Seq<char>, Seq<OscArgView>),
    AvatarData(Option<Seq<AnimationParameterView>>),
}

/// The session after one input. A message the session does not handle
/// stops the program, and leaves the session as it was; avatar data that
/// was found replaces the parameters with those it gives.
pub open spec fn after_input(s: SessionView, input: SessionInput) -> SessionView {
    match input {
        SessionInput::Message(addr, args) => if message_handled(s.state, addr, args) {
            step(s, addr, args).0
        } else {
            s
        },
        SessionInput::AvatarData(None) => s,
        SessionInput::AvatarData(Some(ps)) => SessionView {
            avatar_id: s.avatar_id,
            state: apply_entries(default_parameters(), ps),
            is_saving: s.is_saving,
        },
    }
}

/// The session after the inputs, in order.
pub open spec fn after_inputs(s: SessionView, inputs: Seq<SessionInput>) -> SessionView
    decreases inputs.len(),
{
    if inputs.len() == 0 {
        s
    } else {
        after_input(after_inputs(s, inputs.drop_last()), inputs.last())
    }
}

/// Over a whole run, starting as a new session does (no parameters), the
/// session tracks either no parameter or exactly the starting list's.
pub proof fn runs_track_none_or_all(s: SessionView, inputs: Seq<SessionInput>)
    requires
        tracks_none_or_all(s.state),
    ensures
        tracks_none_or_all(after_inputs(s, inputs).state),
    decreases inputs.len(),
{
    if inputs.len() > 0 {
        runs_track_none_or_all(s, inputs.drop_last());
        let prev = after_inputs(s, inputs.drop_last());
        match inputs.last() {
            SessionInput::Message(addr, args) => {
                if message_handled(prev.state, addr, args) {
                    message_keeps_parameter_names(prev, addr, args);
                }
            },
            SessionInput::AvatarData(Some(ps)) => {
                read_parameters_keep_names_and_kinds(ps);
            },
            SessionInput::AvatarData(None) => {},
        }
    }
}

/// Until avatar data is found, a session that tracks no parameter keeps
/// tracking none: no message changes its (empty) parameters.
pub proof fn runs_without_avatar_data_keep_parameters(s: SessionView, inputs: Seq<SessionInput>)
    requires
        s.state.dom() == Set::<Seq<char>>::empty(),
        forall|i: int| 0 <= i < inputs.len() ==> !(#[trigger] inputs[i] matches SessionInput::AvatarData(Some(_))),
    ensures
        after_inputs(s, inputs).state == s.state,
    decreases inputs.len(),
{
    if inputs.len() > 0 {
        let t = inputs.drop_last();
        assert forall|i: int| 0 <= i < t.len() implies !(#[trigger] t[i] matches SessionInput::AvatarData(Some(_))) by {
            assert(t[i] == inputs[i]);
        }
        runs_without_avatar_data_keep_parameters(s, t);
        let prev = after_inputs(s, t);
        assert(!(inputs[inputs.len() - 1] matches SessionInput::AvatarData(Some(_))));
        match inputs.last() {
            SessionInput::Message(addr, args) => {
                if message_handled(prev.state, addr, args) {
                    only_received_values_change_parameters(prev, addr, args);
                }
            },
            _ => {},
        }
    }
}

} // verus!
