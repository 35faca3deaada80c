use remi_osc::osc::{announces_send, bool_parameter_packet, parameter_address_of, read_datagram, OscArg};

fn padded(s: &str) -> Vec<u8> {
    let mut b = s.as_bytes().to_vec();
    b.push(0);
    while b.len() % 4 != 0 {
        b.push(0);
    }
    b
}

#[test]
fn parameter_address_prefixes_the_name() {
    assert_eq!(parameter_address_of("Hair/LongOn"), "/avatar/parameters/Hair/LongOn");
}

#[test]
fn bool_packet_is_the_osc_encoding() {
    let mut expected = padded("/avatar/parameters/Toggles/SwimsuitOn");
    expected.extend(padded(",T"));
    assert_eq!(bool_parameter_packet("Toggles/SwimsuitOn", true), expected);
    let mut expected = padded("/avatar/parameters/Hair/PonyOn");
    expected.extend(padded(",F"));
    assert_eq!(bool_parameter_packet("Hair/PonyOn", false), expected);
}

#[test]
fn bool_packet_round_trips_through_the_decoder() {
    let bytes = bool_parameter_packet("Nails/Square", true);
    let msg = read_datagram(&bytes).unwrap().unwrap();
    assert_eq!(msg.addr, "/avatar/parameters/Nails/Square");
    assert_eq!(msg.args, vec![OscArg::Bool(true)]);
}

#[test]
fn read_datagram_tells_arguments_apart() {
    let bytes = rosc::encoder::encode(&rosc::OscPacket::Message(rosc::OscMessage {
        addr: "/a".to_string(),
        args: vec![
            rosc::OscType::String("s".to_string()),
            rosc::OscType::Float(1.5),
            rosc::OscType::Int(3),
            rosc::OscType::Bool(false),
        ],
    }))
    .unwrap();
    let msg = read_datagram(&bytes).unwrap().unwrap();
    assert_eq!(msg.addr, "/a");
    assert_eq!(
        msg.args,
        vec![
            OscArg::Str("s".to_string()),
            OscArg::Float(1.5f32.to_bits()),
            OscArg::Other,
            OscArg::Bool(false),
        ]
    );
}

#[test]
fn bundles_and_garbage() {
    let bundle = rosc::encoder::encode(&rosc::OscPacket::Bundle(rosc::OscBundle {
        timetag: rosc::OscTime { seconds: 0, fractional: 1 },
        content: vec![],
    }))
    .unwrap();
    assert!(matches!(read_datagram(&bundle), Ok(None)));
    assert!(read_datagram(&[0xff, 0, 0, 0]).is_err());
}

#[test]
fn enabled_parameters_are_sent_quietly() {
    assert!(announces_send("Hair/LongOn"));
    assert!(!announces_send("OSC/Enabled"));
    assert!(!announces_send("Some/OSC/Enabled/Thing"));
}
