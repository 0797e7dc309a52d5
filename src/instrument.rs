//! The cameras, and which of them a file name designates.
use vstd::prelude::*;

verus! {

/// Rover cameras whose frames this library knows about.
#[derive(Clone, Copy, PartialEq, Eq, Structural, Debug, Hash)]
pub enum Instrument {
    M20NavcamLeft,
    M20NavcamRight,
    M20FrontHazLeft,
    M20FrontHazRight,
    M20RearHazLeft,
    M20RearHazRight,
    M20MastcamZLeft,
    M20MastcamZRight,
}

/// The engineering cameras: the navigation and hazard-avoidance pairs.
pub open spec fn is_engineering_camera(i: Instrument) -> bool {
    match i {
        Instrument::M20MastcamZLeft | Instrument::M20MastcamZRight => false,
        _ => true,
    }
}

/// Whether `instrument` is one of the engineering cameras.
pub fn is_engineering(instrument: Instrument) -> (r: bool)
    ensures
        r == is_engineering_camera(instrument),
{
    match instrument {
        Instrument::M20MastcamZLeft | Instrument::M20MastcamZRight => false,
        _ => true,
    }
}

/// The character at `pos` of `name`, if it has one.
pub open spec fn char_at(name: Seq<char>, pos: int) -> Option<char> {
    if 0 <= pos < name.len() { Some(name[pos]) } else { None }
}

/// The camera that a file name's two-character prefix designates: the first
/// character picks the family (`N` navigation, `F` front hazard, `R` rear
/// hazard), the second the side (`L` left, anything else right). Any other
/// prefix designates the right navigation camera.
pub open spec fn instrument_of(name: Seq<char>) -> Instrument {
    let left = char_at(name, 1) == Some('L');
    if char_at(name, 0) == Some('N') {
        if left { Instrument::M20NavcamLeft } else { Instrument::M20NavcamRight }
    } else if char_at(name, 0) == Some('F') {
        if left { Instrument::M20FrontHazLeft } else { Instrument::M20FrontHazRight }
    } else if char_at(name, 0) == Some('R') {
        if left { Instrument::M20RearHazLeft } else { Instrument::M20RearHazRight }
    } else {
        Instrument::M20NavcamRight
    }
}

fn char_at_pos(name: &str, pos: usize) -> (r: Option<char>)
    ensures
        r == char_at(name@, pos as int),
{
    if pos < name.unicode_len() {
        Some(name.get_char(pos))
    } else {
        None
    }
}

/// The camera designated by the prefix of `file_name`, the base name of a
/// raw frame's file.
pub fn instrument_from_file_name(file_name: &str) -> (r: Instrument)
    ensures
        r == instrument_of(file_name@),
        is_engineering_camera(r),
{
    let first = char_at_pos(file_name, 0);
    let left = char_at_pos(file_name, 1) == Some('L');
    if first == Some('N') {
        if left { Instrument::M20NavcamLeft } else { Instrument::M20NavcamRight }
    } else if first == Some('F') {
        if left { Instrument::M20FrontHazLeft } else { Instrument::M20FrontHazRight }
    } else if first == Some('R') {
        if left { Instrument::M20RearHazLeft } else { Instrument::M20RearHazRight }
    } else {
        Instrument::M20NavcamRight
    }
}

} // verus!
