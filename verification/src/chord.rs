//! The push-to-talk key chord.
use vstd::prelude::*;

verus! {

/// A key of a chord: the two keys of the default chord by name, every other key by
/// its virtual-key code.
#[derive(Debug, Clone, Copy, PartialEq, Eq, Structural)]
pub enum KeyCode {
    LeftControl,
    LeftWindows,
    Other(u16),
}

/// Keys that are held down together, over a representation of the key list.
#[derive(Debug, PartialEq, Eq)]
pub struct Chord<K> {
    pub keys: K,
}

/// Keys that are held down together, in the order in which they go down.
pub type KeyChord = Chord<Vec<KeyCode>>;

/// A chord, with its keys as a sequence.
pub type ChordModel = Chord<Seq<KeyCode>>;

impl View for Chord<Vec<KeyCode>> {
    type V = Chord<Seq<KeyCode>>;

    open spec fn view(&self) -> Chord<Seq<KeyCode>> {
        Chord { keys: self.keys@ }
    }
}

/// The contents of an optional chord.
pub open spec fn chord_of(chord: Option<KeyChord>) -> Option<ChordModel> {
    match chord {
        Some(chord) => Some(chord@),
        None => None,
    }
}

/// The default push-to-talk chord of the WeType input method: left Control and left
/// Windows, in either order.
pub open spec fn is_wetype_default(chord: ChordModel) -> bool {
    chord.keys =~= seq![KeyCode::LeftControl, KeyCode::LeftWindows] || chord.keys =~= seq![
        KeyCode::LeftWindows,
        KeyCode::LeftControl,
    ]
}

impl Chord<Vec<KeyCode>> {
    /// A copy of the chord.
    pub fn copy(&self) -> (copy: KeyChord)
        ensures
            copy@ == self@,
    {
        let mut keys: Vec<KeyCode> = Vec::new();
        let mut i: usize = 0;
        while i < self.keys.len()
            invariant
                i <= self.keys.len(),
                keys@ == self.keys@.take(i as int),
            decreases self.keys.len() - i,
        {
            keys.push(self.keys[i]);
            i = i + 1;
            assert(keys@ =~= self.keys@.take(i as int));
        }
        assert(keys@ =~= self.keys@);
        Chord { keys }
    }
}

/// A copy of an optional chord.
pub fn copy_chord(chord: &Option<KeyChord>) -> (copy: Option<KeyChord>)
    ensures
        chord_of(copy) == chord_of(*chord),
{
    match chord {
        Some(chord) => Some(chord.copy()),
        None => None,
    }
}

/// Whether a chord is the default push-to-talk chord of the WeType input method.
/// Only with that chord is WeType activated and watched; another chord addresses
/// other software.
pub fn chord_is_wetype_default(chord: &KeyChord) -> (default: bool)
    ensures
        default == is_wetype_default(chord@),
{
    if chord.keys.len() != 2 {
        return false;
    }
    let first = chord.keys[0];
    let second = chord.keys[1];
    assert(chord.keys@ =~= seq![first, second]);
    let ordered = first == KeyCode::LeftControl && second == KeyCode::LeftWindows;
    let reversed = first == KeyCode::LeftWindows && second == KeyCode::LeftControl;
    proof {
        assert(ordered == (seq![first, second] =~= seq![
            KeyCode::LeftControl,
            KeyCode::LeftWindows,
        ])) by {
            assert(seq![first, second][0] == first && seq![first, second][1] == second);
        }
        assert(reversed == (seq![first, second] =~= seq![
            KeyCode::LeftWindows,
            KeyCode::LeftControl,
        ])) by {
            assert(seq![first, second][0] == first && seq![first, second][1] == second);
        }
    }
    ordered || reversed
}

} // verus!
