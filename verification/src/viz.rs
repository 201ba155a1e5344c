//! What the tool windows' plots show.

use vstd::prelude::*;

use crate::graph::{GraphStyle, LayerTone, SpectrumLayer};

verus! {

/// Pitch classes of an octave.
pub const PITCH_CLASSES: usize = 12;

/// Keys of the drawn keyboard, and the one in the middle.
pub const KEYBOARD_KEYS: usize = 25;

pub const KEYBOARD_CENTER: usize = 12;

// ------------------------------------------------------------------- hops

/// How many samples a bucket of an envelope covers.
pub open spec fn hop_size(len: nat, buckets: nat) -> nat {
    if len / buckets < 1 {
        1
    } else {
        len / buckets
    }
}

/// The samples that a bucket of an envelope covers, if any.
pub open spec fn hop_range(len: nat, buckets: nat, i: int) -> Option<(int, int)> {
    let start = i * hop_size(len, buckets);
    let end = if start + hop_size(len, buckets) < len {
        start + hop_size(len, buckets)
    } else {
        len as int
    };
    if start >= end {
        None
    } else {
        Some((start, end))
    }
}

/// The samples that each bucket of an envelope covers.
pub fn hop_ranges(len: usize, buckets: usize) -> (ranges: Vec<Option<(usize, usize)>>)
    ensures
        len == 0 || buckets == 0 ==> ranges@.len() == 0,
        len > 0 && buckets > 0 ==> {
            &&& ranges@.len() == buckets
            &&& forall|i: int|
                0 <= i < buckets ==> match #[trigger] ranges@[i] {
                    Some((start, end)) => hop_range(len as nat, buckets as nat, i) == Some(
                        (start as int, end as int),
                    ),
                    None => hop_range(len as nat, buckets as nat, i) is None,
                }
        },
{
    let mut ranges: Vec<Option<(usize, usize)>> = Vec::new();
    if len == 0 || buckets == 0 {
        return ranges;
    }
    let quotient: usize = len / buckets;
    let hop: usize = if quotient > 1 { quotient } else { 1 };
    let mut i: usize = 0;
    let mut start: usize = 0;
    while i < buckets
        invariant
            buckets > 0,
            len > 0,
            hop == hop_size(len as nat, buckets as nat),
            i <= buckets,
            start as int == if i * hop < len {
                i * hop
            } else {
                len as int
            },
            ranges@.len() == i,
            forall|j: int|
                0 <= j < i ==> match #[trigger] ranges@[j] {
                    Some((from, until)) => hop_range(len as nat, buckets as nat, j) == Some(
                        (from as int, until as int),
                    ),
                    None => hop_range(len as nat, buckets as nat, j) is None,
                },
        decreases buckets - i,
    {
        let end: usize = if hop < len - start { start + hop } else { len };
        ranges.push(
            if start >= end {
                None
            } else {
                Some((start, end))
            },
        );
        proof {
            assert((i + 1) * hop == i * hop + hop) by (nonlinear_arith);
            assert(hop_range(len as nat, buckets as nat, i as int) == if start >= end {
                None::<(int, int)>
            } else {
                Some((start as int, end as int))
            });
        }
        start = end;
        i += 1;
    }
    ranges
}

// ----------------------------------------------------------------- layers

/// The curves of the spectrum plot: the hold, the average when curves are
/// compared, and the input in front.
pub fn spectrum_layers<T>(
    style: GraphStyle,
    magnitudes: Vec<T>,
    averaged: Vec<T>,
    hold: Vec<T>,
) -> (layers: Vec<SpectrumLayer<T>>)
    ensures
        ({
            let held: Seq<SpectrumLayer<T>> = if hold@.len() > 0 {
                seq![SpectrumLayer { tone: LayerTone::Hold, db: hold, line: true, fill: false }]
            } else {
                Seq::empty()
            };
            let mean: Seq<SpectrumLayer<T>> = if style == GraphStyle::Overlay && averaged@.len()
                > 0 {
                seq![
                    SpectrumLayer { tone: LayerTone::Average, db: averaged, line: true, fill: true },
                ]
            } else {
                Seq::empty()
            };
            layers@ == (held + mean).push(
                SpectrumLayer { tone: LayerTone::Input, db: magnitudes, line: true, fill: true },
            )
        }),
{
    let mut layers: Vec<SpectrumLayer<T>> = Vec::new();
    if hold.len() > 0 {
        layers.push(SpectrumLayer { tone: LayerTone::Hold, db: hold, line: true, fill: false });
    }
    if style.overlay() && averaged.len() > 0 {
        layers.push(
            SpectrumLayer { tone: LayerTone::Average, db: averaged, line: true, fill: true },
        );
    }
    layers.push(
        SpectrumLayer { tone: LayerTone::Input, db: magnitudes, line: true, fill: true },
    );
    layers
}

/// The curves of the noise plot: the input, and the learned profile with the
/// floor that the reduction would leave.
pub fn noise_profile_layers<T>(magnitudes: Vec<T>, profile: Vec<T>, floor: Vec<T>) -> (layers: Vec<
    SpectrumLayer<T>,
>)
    ensures
        ({
            let input: Seq<SpectrumLayer<T>> = seq![
                SpectrumLayer { tone: LayerTone::Input, db: magnitudes, line: true, fill: true },
            ];
            layers@ == if profile@.len() > 0 {
                input + seq![
                    SpectrumLayer { tone: LayerTone::Profile, db: profile, line: true, fill: true },
                    SpectrumLayer { tone: LayerTone::Floor, db: floor, line: true, fill: false },
                ]
            } else {
                input
            }
        }),
{
    let mut layers: Vec<SpectrumLayer<T>> = Vec::new();
    layers.push(
        SpectrumLayer { tone: LayerTone::Input, db: magnitudes, line: true, fill: true },
    );
    if profile.len() > 0 {
        layers.push(
            SpectrumLayer { tone: LayerTone::Profile, db: profile, line: true, fill: true },
        );
        layers.push(SpectrumLayer { tone: LayerTone::Floor, db: floor, line: true, fill: false });
    }
    layers
}

/// The multiples of the base frequency that a hum filter notches.
pub fn harmonic_numbers(harmonics: u8) -> (numbers: Vec<u8>)
    ensures
        numbers@ == Seq::new(
            if harmonics < 1 { 1nat } else { harmonics as nat },
            |i: int| (i + 1) as u8,
        ),
{
    let count: u8 = if harmonics < 1 { 1 } else { harmonics };
    let mut numbers: Vec<u8> = Vec::new();
    let mut i: u8 = 0;
    while i < count
        invariant
            i <= count,
            numbers@ == Seq::new(i as nat, |j: int| (j + 1) as u8),
        decreases count - i,
    {
        i += 1;
        numbers.push(i);
    }
    numbers
}

// -------------------------------------------------------------------- keys

/// Whether a key of a keyboard is black.
pub open spec fn black_key(i: int) -> bool {
    let pitch = i % 12;
    pitch == 1 || pitch == 3 || pitch == 6 || pitch == 8 || pitch == 10
}

/// How a key is drawn.
#[derive(Clone, Copy, PartialEq, Eq, Structural, Debug)]
pub enum KeyTone {
    White,
    Black,
    Center,
    Accent,
}

/// How the bar of a pitch class is drawn: the tonic stands out.
pub fn pitch_tone(i: usize, tonic: u8) -> (tone: KeyTone)
    requires
        i < PITCH_CLASSES,
    ensures
        tone == if i == tonic {
            KeyTone::Accent
        } else if black_key(i as int) {
            KeyTone::Black
        } else {
            KeyTone::White
        },
{
    if i == tonic as usize {
        KeyTone::Accent
    } else if i == 1 || i == 3 || i == 6 || i == 8 || i == 10 {
        KeyTone::Black
    } else {
        KeyTone::White
    }
}

/// The confidence of each pitch class; classes without one have none.
pub fn pitch_bins<T: Copy>(confidences: &Vec<T>, zero: T) -> (bins: Vec<T>)
    ensures
        bins@ == Seq::new(
            PITCH_CLASSES as nat,
            |i: int|
                if i < confidences@.len() {
                    confidences@[i]
                } else {
                    zero
                },
        ),
{
    let mut bins: Vec<T> = Vec::new();
    let mut i: usize = 0;
    while i < PITCH_CLASSES
        invariant
            i <= PITCH_CLASSES,
            bins@ == Seq::new(
                i as nat,
                |j: int|
                    if j < confidences@.len() {
                        confidences@[j]
                    } else {
                        zero
                    },
            ),
        decreases PITCH_CLASSES - i,
    {
        bins.push(
            if i < confidences.len() {
                confidences[i]
            } else {
                zero
            },
        );
        i += 1;
    }
    bins
}

/// The key that a shift by semitones lands on, kept on the keyboard.
pub fn shifted_key(semitones: i32) -> (key: usize)
    ensures
        key == if semitones < -12 {
            0
        } else if semitones > 12 {
            24
        } else {
            semitones + 12
        },
        key < KEYBOARD_KEYS,
{
    if semitones < -12 {
        0
    } else if semitones > 12 {
        24
    } else {
        (semitones + 12) as usize
    }
}

/// How a key of the drawn keyboard looks: the key that the shift lands on
/// stands out most, then the one in the middle.
pub fn keyboard_tone(i: usize, shifted: usize) -> (tone: KeyTone)
    requires
        i < KEYBOARD_KEYS,
    ensures
        tone == if i == shifted {
            KeyTone::Accent
        } else if i == KEYBOARD_CENTER {
            KeyTone::Center
        } else if black_key(i as int) {
            KeyTone::Black
        } else {
            KeyTone::White
        },
{
    let pitch: usize = i % 12;
    if i == shifted {
        KeyTone::Accent
    } else if i == KEYBOARD_CENTER {
        KeyTone::Center
    } else if pitch == 1 || pitch == 3 || pitch == 6 || pitch == 8 || pitch == 10 {
        KeyTone::Black
    } else {
        KeyTone::White
    }
}

// ---------------------------------------------------------------- channels

/// The gains of a channel route, in halves: left to left, left to right, right
/// to left, right to right.
pub open spec fn route_halves(mode: int) -> Seq<i8> {
    if mode == 0 {
        seq![2i8, 0, 0, 2]
    } else if mode == 1 {
        seq![2i8, 2, 0, 0]
    } else if mode == 2 {
        seq![0i8, 0, 2, 2]
    } else if mode == 3 || mode == 8 {
        seq![1i8, 1, 1, 1]
    } else if mode == 4 {
        seq![0i8, 2, 2, 0]
    } else if mode == 5 {
        seq![-2i8, 0, 0, 2]
    } else if mode == 6 {
        seq![2i8, 0, 0, -2i8]
    } else if mode == 7 {
        seq![-2i8, 0, 0, -2i8]
    } else {
        seq![1i8, -1i8, -1i8, 1]
    }
}

/// The gains of a channel route, in halves; routes past the last are the last.
pub fn channel_route(mode_index: usize) -> (route: [i8; 4])
    ensures
        route@ == route_halves(mode_index as int),
{
    let route: [i8; 4] = if mode_index == 0 {
        [2, 0, 0, 2]
    } else if mode_index == 1 {
        [2, 2, 0, 0]
    } else if mode_index == 2 {
        [0, 0, 2, 2]
    } else if mode_index == 3 || mode_index == 8 {
        [1, 1, 1, 1]
    } else if mode_index == 4 {
        [0, 2, 2, 0]
    } else if mode_index == 5 {
        [-2, 0, 0, 2]
    } else if mode_index == 6 {
        [2, 0, 0, -2]
    } else if mode_index == 7 {
        [-2, 0, 0, -2]
    } else {
        [1, -1, -1, 1]
    };
    proof {
        assert(route@ =~= route_halves(mode_index as int));
    }
    route
}

// ------------------------------------------------------------------- laws

/// The buckets of an envelope follow each other without a gap, and stay inside
/// the samples.
pub proof fn law_hops_follow_each_other(len: nat, buckets: nat, i: int)
    requires
        len > 0,
        0 < i < buckets,
    ensures
        hop_range(len, buckets, i) matches Some((start, end)) ==> {
            &&& 0 <= start < end <= len
            &&& hop_range(len, buckets, i - 1) matches Some((_, before)) && before == start
        },
        hop_range(len, buckets, 0) matches Some((start, _)) && start == 0,
{
    let hop = hop_size(len, buckets) as int;
    assert(i * hop == (i - 1) * hop + hop) by (nonlinear_arith);
    assert((i - 1) * hop >= 0) by (nonlinear_arith)
        requires
            i >= 1,
            hop >= 1,
    ;
}

/// The buckets of a buffer that divides evenly cover all of it.
pub proof fn law_even_hops_cover_the_buffer(hop: nat, buckets: nat)
    requires
        hop > 0,
        buckets > 0,
    ensures
        hop_range(hop * buckets, buckets, buckets - 1) matches Some((_, end)) && end == hop
            * buckets,
{
    let len = hop * buckets;
    assert(len / buckets == hop) by (nonlinear_arith)
        requires
            len == hop * buckets,
            buckets > 0,
    ;
    assert((buckets - 1) * hop + hop == len) by (nonlinear_arith)
        requires
            len == hop * buckets,
    ;
}

/// Each bucket of an envelope covers as many samples as the next, the share of
/// the samples rounded down, but one at least; only the end of the samples cuts
/// one short.
pub proof fn law_hops_are_even(len: nat, buckets: nat, i: int)
    requires
        len > 0,
        buckets > 0,
        0 <= i < buckets,
    ensures
        hop_range(len, buckets, i) matches Some((start, end)) ==> {
            &&& end - start == len / buckets || (len < buckets && end - start == 1) || end == len
            &&& len >= buckets ==> start == i * (len / buckets)
            &&& len < buckets ==> start == i
        },
        len >= buckets ==> hop_range(len, buckets, i) is Some,
        i >= len ==> hop_range(len, buckets, i) is None,
{
    let n = len as int;
    let b = buckets as int;
    let q = n / b;
    vstd::arithmetic::div_mod::lemma_fundamental_div_mod(n, b);
    vstd::arithmetic::div_mod::lemma_mod_bound(n, b);
    if n >= b {
        assert(q >= 1) by (nonlinear_arith)
            requires
                n >= b,
                n == b * q + n % b,
                n % b < b,
                b > 0,
        ;
        assert(i * q + q <= b * q) by (nonlinear_arith)
            requires
                i + 1 <= b,
                q >= 1,
        ;
        assert(i < n) by (nonlinear_arith)
            requires
                i < b,
                n >= b,
        ;
    } else {
        assert(q == 0) by (nonlinear_arith)
            requires
                0 < n < b,
                q == n / b,
        ;
        assert(i * 1 == i);
    }
}

/// Black keys never touch, and two white ones touch only where no black one lies
/// between E and F or B and C; that is every keyboard.
pub proof fn law_the_keyboard_has_its_pattern(i: int)
    requires
        i >= 0,
    ensures
        black_key(i) ==> !black_key(i + 1),
        !black_key(i) && !black_key(i + 1) <==> i % 12 == 4 || i % 12 == 11,
        !black_key(0) && black_key(1),
        black_key(i + 12) == black_key(i),
{
}

/// What comes out on the left and on the right, in halves, of what goes in.
pub open spec fn routed(mode: int, left: int, right: int) -> (int, int) {
    let gains = route_halves(mode);
    (gains[0] * left + gains[2] * right, gains[1] * left + gains[3] * right)
}

/// The channel routes do what they are called: as it is, one side on both, the
/// mean on both, the sides exchanged, one or both sides turned over, and the
/// difference of the sides.
pub proof fn law_routes_do_what_they_are_called(left: int, right: int)
    ensures
        routed(0, left, right) == (2 * left, 2 * right),
        routed(1, left, right) == (2 * left, 2 * left),
        routed(2, left, right) == (2 * right, 2 * right),
        routed(3, left, right) == (left + right, left + right),
        routed(4, left, right) == (2 * right, 2 * left),
        routed(5, left, right) == (-2 * left, 2 * right),
        routed(6, left, right) == (2 * left, -2 * right),
        routed(7, left, right) == (-2 * left, -2 * right),
        routed(8, left, right) == (left + right, left + right),
        routed(9, left, right) == (left - right, right - left),
{
    assert forall|mode: int, i: int, x: int|
        0 <= mode <= 9 && 0 <= i < 4 implies #[trigger] (route_halves(mode)[i] * x) == (
    if route_halves(mode)[i] == 2 {
        2 * x
    } else if route_halves(mode)[i] == 1 {
        x
    } else if route_halves(mode)[i] == 0 {
        0
    } else if route_halves(mode)[i] == -1 {
        -x
    } else {
        -2 * x
    }) by {
        lemma_halves_of(route_halves(mode)[i] as int, x);
    }
}

/// A gain of so many halves, on any sample.
proof fn lemma_halves_of(gain: int, x: int)
    ensures
        gain == 2 ==> gain * x == 2 * x,
        gain == 1 ==> gain * x == x,
        gain == 0 ==> gain * x == 0,
        gain == -1 ==> gain * x == -x,
        gain == -2 ==> gain * x == -2 * x,
{
    if gain == 2 {
        assert(gain * x == 2 * x) by (nonlinear_arith)
            requires
                gain == 2,
        ;
    } else if gain == -2 {
        assert(gain * x == -2 * x) by (nonlinear_arith)
            requires
                gain == -2,
        ;
    } else if gain == -1 {
        assert(gain * x == -x) by (nonlinear_arith)
            requires
                gain == -1,
        ;
    }
}

/// Every route past the last is the last.
pub proof fn law_routes_past_the_last_are_the_last(mode: int)
    requires
        mode >= 9,
    ensures
        route_halves(mode) == route_halves(9),
        route_halves(mode).len() == 4,
{
}

/// The keyboard shows two octaves, with the note in the middle.
pub proof fn law_the_keyboard_shows_two_octaves()
    ensures
        PITCH_CLASSES == 12,
        KEYBOARD_KEYS == 2 * PITCH_CLASSES + 1,
        2 * KEYBOARD_CENTER + 1 == KEYBOARD_KEYS,
{
}

} // verus!
