use vstd::prelude::*;

verus! {

/// The severity of a message shown to the player.
#[derive(Clone, Copy, Debug, PartialEq, Eq, Structural)]
pub enum MessageType {
    Error,
    Info,
    Warning,
}

/// Whether a MIDI port (device) is an input or an output.
#[derive(Clone, Copy, Debug, PartialEq, Eq, Structural)]
pub enum PortType {
    Input,
    Output,
}

/// The names shown for the root frequency override choices. The first (empty) name means that
/// there is no override; the others run from the F# below middle C to the F above it.
pub open spec fn spec_override_note_names() -> Seq<Seq<char>> {
    seq!["".view(), "F#".view(), "G".view(), "G#".view(), "A".view(), "A#".view(), "B".view(),
        "C".view(), "C#".view(), "D".view(), "D#".view(), "E".view(), "F".view()]
}

/// Returns the root frequency override note names, the first of which (empty) means no override.
pub fn override_note_names() -> (names: Vec<String>)
    ensures
        names@.len() == 13,
        forall|i: int| 0 <= i < 13 ==> #[trigger] names@[i]@ == spec_override_note_names()[i],
{
    let mut names: Vec<String> = Vec::new();
    names.push(String::from_str(""));
    names.push(String::from_str("F#"));
    names.push(String::from_str("G"));
    names.push(String::from_str("G#"));
    names.push(String::from_str("A"));
    names.push(String::from_str("A#"));
    names.push(String::from_str("B"));
    names.push(String::from_str("C"));
    names.push(String::from_str("C#"));
    names.push(String::from_str("D"));
    names.push(String::from_str("D#"));
    names.push(String::from_str("E"));
    names.push(String::from_str("F"));
    assert(names@.map_values(|n: String| n@) =~= spec_override_note_names());
    names
}

} // verus!
