use remi_osc::params::AssParam;
use remi_osc::transmit::{is_swimsuit_on, plan_transmission, SavedEntry, TransmitStep};

fn e(name: &str, value: Option<AssParam>) -> SavedEntry {
    SavedEntry { name: name.to_string(), value }
}

fn send(name: &str, v: AssParam) -> TransmitStep {
    TransmitStep::Send(name.to_string(), v)
}

#[test]
fn swimsuit_state_is_read_from_its_toggle() {
    assert!(is_swimsuit_on(&vec![e("Toggles/SwimsuitOn", Some(AssParam::Bool(true)))]));
    assert!(!is_swimsuit_on(&vec![e("Toggles/SwimsuitOn", Some(AssParam::Bool(false)))]));
    assert!(!is_swimsuit_on(&vec![e("Toggles/SwimsuitOn", Some(AssParam::Float(1)))]));
    assert!(!is_swimsuit_on(&vec![e("Toggles/SwimsuitOn", None)]));
    assert!(!is_swimsuit_on(&vec![e("Hair/LongOn", Some(AssParam::Bool(true)))]));
}

#[test]
fn swimsuit_on_skips_tops_and_bottoms() {
    let entries = vec![
        e("Hair/LongOn", Some(AssParam::Bool(true))),
        e("Mat/Hue", Some(AssParam::Float(42))),
        e("Toggles/Bottoms/PantsOn", Some(AssParam::Bool(true))),
        e("Toggles/SwimsuitOn", Some(AssParam::Bool(true))),
        e("Toggles/Tops/CropOn", Some(AssParam::Bool(false))),
    ];
    let t = plan_transmission(&entries);
    assert!(t.complete);
    assert_eq!(
        t.steps,
        vec![
            send("Toggles/SwimsuitOn", AssParam::Bool(true)),
            send("Hair/LongOn", AssParam::Bool(true)),
            send("Mat/Hue", AssParam::Float(42)),
            TransmitStep::Skip("Toggles/Bottoms/PantsOn".to_string()),
            TransmitStep::Skip("Toggles/Tops/CropOn".to_string()),
        ]
    );
}

#[test]
fn swimsuit_off_sends_only_tops_and_bottoms_that_are_on() {
    let entries = vec![
        e("Toggles/Bottoms/AssPantsOn", Some(AssParam::Bool(true))),
        e("Toggles/Bottoms/PantsOn", Some(AssParam::Bool(false))),
        e("Toggles/SwimsuitOn", Some(AssParam::Bool(false))),
        e("Toggles/Tops/TankTopOn", Some(AssParam::Bool(true))),
        e("Toggles/Tops/Weird", Some(AssParam::Float(3))),
    ];
    let t = plan_transmission(&entries);
    assert!(t.complete);
    assert_eq!(
        t.steps,
        vec![
            send("Toggles/Bottoms/AssPantsOn", AssParam::Bool(true)),
            send("Toggles/Tops/TankTopOn", AssParam::Bool(true)),
        ]
    );
}

#[test]
fn invalid_entry_stops_the_transmission() {
    let entries = vec![
        e("Hair/LongOn", Some(AssParam::Bool(true))),
        e("Hair/PonyOn", None),
        e("Hair/ShortOn", Some(AssParam::Bool(true))),
    ];
    let t = plan_transmission(&entries);
    assert!(!t.complete);
    assert_eq!(t.steps, vec![send("Hair/LongOn", AssParam::Bool(true))]);
}

#[test]
fn empty_state_sends_nothing() {
    let t = plan_transmission(&vec![]);
    assert!(t.complete);
    assert!(t.steps.is_empty());
}
