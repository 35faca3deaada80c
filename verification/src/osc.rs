//! OSC packets as the saver reads and writes them, through `rosc`.
use vstd::prelude::*;
use vstd::utf8::encode_utf8;
use crate::text::{has_substring, contains_str, join_text};

verus! {

#[verifier::external_type_specification]
#[verifier::external_body]
pub struct ExOscError(rosc::OscError);

/// One OSC argument, as far as the saver tells them apart. A float is held
/// as the bits of its `f32`.
#[derive(Clone, Debug, PartialEq, Eq)]
pub enum OscArg {
    Str(String),
    Bool(bool),
    Float(u32),
    Other,
}

/// What an OSC argument is, with a string as a character sequence.
pub enum OscArgView {
    Str(Seq<char>),
    Bool(bool),
    Float(u32),
    Other,
}

impl View for OscArg {
    type V = OscArgView;

    open spec fn view(&self) -> OscArgView {
        match self {
            OscArg::Str(s) => OscArgView::Str(s@),
            OscArg::Bool(b) => OscArgView::Bool(*b),
            OscArg::Float(f) => OscArgView::Float(*f),
            OscArg::Other => OscArgView::Other,
        }
    }
}

/// The views of a list of arguments.
pub open spec fn args_view(args: Seq<OscArg>) -> Seq<OscArgView> {
    args.map_values(|a: OscArg| a@)
}

/// An OSC message that arrived: its address and its arguments.
pub struct IncomingMessage {
    pub addr: String,
    pub args: Vec<OscArg>,
}

/// Why a datagram led to no action.
#[derive(Clone, Copy, Debug, PartialEq, Eq, Structural)]
pub enum PacketError {
    /// The bytes are no OSC packet.
    Undecodable,
    /// The message is one that the saver cannot handle (its address or its
    /// arguments do not have the shape that its kind asks for).
    Unhandled,
}

/// The OSC-string form of `bytes`: the bytes, then one to four zero bytes
/// so that the length is a multiple of 4.
pub open spec fn osc_string_bytes(bytes: Seq<u8>) -> Seq<u8> {
    bytes + Seq::new((4 - bytes.len() % 4) as nat, |i: int| 0u8)
}

/// The bytes of an OSC message to `addr` with the one argument `Bool(value)`:
/// the address as an OSC string, then the type tags `,T` (or `,F`) as an OSC
/// string; a toggle carries no data bytes.
pub open spec fn osc_bool_message(addr: Seq<char>, value: bool) -> Seq<u8> {
    osc_string_bytes(encode_utf8(addr)) + seq![44u8, if value { 84u8 } else { 70u8 }, 0u8, 0u8]
}

/// What `rosc::decoder::decode_udp` finds in the bytes `bytes`: `None` where
/// they are no OSC packet, `Some(None)` for a bundle, and for a message its
/// address and its arguments as the saver tells them apart (strings,
/// toggles, floats by the bits of their `f32`, every other kind as `Other`).
pub uninterp spec fn osc_datagram(bytes: Seq<u8>) -> Option<Option<(Seq<char>, Seq<OscArgView>)>>;

/// `rosc::decoder::decode_udp`, keeping the packet (not the bytes after it)
/// and taking a message apart into its address and arguments, each argument
/// converted to an `OscArg` (a float by `to_bits`). The claim: the outcome
/// is the one `osc_datagram` names for the bytes.
#[verifier::external_body]
fn decode_datagram(buf: &[u8]) -> (r: Result<Option<(String, Vec<OscArg>)>, rosc::OscError>)
    ensures
        match osc_datagram(buf@) {
            None => r is Err,
            Some(None) => r matches Ok(None),
            Some(Some((addr, args))) => (r matches Ok(Some((a, v))) && a@ == addr && args_view(v@)
                == args),
        },
{
    match rosc::decoder::decode_udp(buf) {
        Ok((_, rosc::OscPacket::Message(m))) => {
            let args = m.args.into_iter().map(|t| match t {
                rosc::OscType::String(s) => OscArg::Str(s),
                rosc::OscType::Bool(b) => OscArg::Bool(b),
                rosc::OscType::Float(f) => OscArg::Float(f.to_bits()),
                _ => OscArg::Other,
            }).collect();
            Ok(Some((m.addr, args)))
        },
        Ok((_, rosc::OscPacket::Bundle(_))) => Ok(None),
        Err(e) => Err(e),
    }
}

/// `rosc::encoder::encode` on a message to `addr` with the one argument
/// `Bool(value)`. The claim: it succeeds (encoding into a `Vec` cannot fail,
/// as the crate's source notes) and gives `osc_bool_message(addr, value)`.
#[verifier::external_body]
fn encode_bool_message(addr: &str, value: bool) -> (r: Result<Vec<u8>, rosc::OscError>)
    ensures
        r is Ok,
        r is Ok ==> r->Ok_0@ == osc_bool_message(addr@, value),
{
    rosc::encoder::encode(
        &rosc::OscPacket::Message(
            rosc::OscMessage { addr: addr.to_string(), args: vec![rosc::OscType::Bool(value)] },
        ),
    )
}

/// Reads one UDP datagram: `Ok(Some(..))` for a message, `Ok(None)` for a
/// bundle, `Err(Undecodable)` where the bytes are no OSC packet.
pub fn read_datagram(buf: &[u8]) -> (r: Result<Option<IncomingMessage>, PacketError>)
    ensures
        match osc_datagram(buf@) {
            None => r == Err::<Option<IncomingMessage>, PacketError>(PacketError::Undecodable),
            Some(None) => r matches Ok(None),
            Some(Some((addr, args))) => (r matches Ok(Some(m)) && m.addr@ == addr && args_view(
                m.args@,
            ) == args),
        },
{
    match decode_datagram(buf) {
        Err(_) => Err(PacketError::Undecodable),
        Ok(None) => Ok(None),
        Ok(Some((addr, args))) => Ok(Some(IncomingMessage { addr, args })),
    }
}

/// The OSC address of the avatar parameter `name`.
pub open spec fn parameter_address(name: Seq<char>) -> Seq<char> {
    "/avatar/parameters/"@ + name
}

/// The address under which the parameter `name` is sent.
pub fn parameter_address_of(name: &str) -> (r: String)
    ensures
        r@ == parameter_address(name@),
{
    join_text("/avatar/parameters/", name)
}

/// The datagram that sets the parameter `name` to the toggle `value`.
pub fn bool_parameter_packet(name: &str, value: bool) -> (r: Vec<u8>)
    ensures
        r@ == osc_bool_message(parameter_address(name@), value),
{
    let addr = parameter_address_of(name);
    match encode_bool_message(addr.as_str(), value) {
        Ok(bytes) => bytes,
        Err(_) => Vec::new(),
    }
}

/// Whether sending the parameter `name` is announced on the console: all
/// but the `OSC/Enabled` ones are.
pub fn announces_send(name: &str) -> (r: bool)
    ensures
        r == !has_substring(name@, "OSC/Enabled"@),
{
    !contains_str(name, "OSC/Enabled")
}

} // verus!
