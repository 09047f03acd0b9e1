use vstd::prelude::*;

verus! {

/// The coarse chord labels that the band table can produce.
#[derive(Clone, Copy, Debug, PartialEq, Eq, Structural)]
pub enum Chord {
    A,
    D,
    G,
    Unknown,
}

/// Lower and upper edges (in Hz, exclusive) of the band labelled "A".
pub const A_LOW: u64 = 110;
pub const A_HIGH: u64 = 130;
/// Edges of the band labelled "D".
pub const D_LOW: u64 = 145;
pub const D_HIGH: u64 = 165;
/// Edges of the band labelled "G".
pub const G_LOW: u64 = 195;
pub const G_HIGH: u64 = 215;

/// The frequency `num / den` Hz lies strictly between `lo` and `hi` Hz.
pub open spec fn in_band(num: int, den: int, lo: int, hi: int) -> bool {
    lo * den < num && num < hi * den
}

/// The chord label of the frequency `num / den` Hz (`den > 0`).
pub open spec fn chord_of(num: int, den: int) -> Chord {
    if in_band(num, den, A_LOW as int, A_HIGH as int) {
        Chord::A
    } else if in_band(num, den, D_LOW as int, D_HIGH as int) {
        Chord::D
    } else if in_band(num, den, G_LOW as int, G_HIGH as int) {
        Chord::G
    } else {
        Chord::Unknown
    }
}

impl Chord {
    /// The text of the label.
    pub open spec fn label_spec(self) -> Seq<char> {
        match self {
            Chord::A => "A"@,
            Chord::D => "D"@,
            Chord::G => "G"@,
            Chord::Unknown => "Unknown"@,
        }
    }

    /// The text of the label: "A", "D", "G" or "Unknown".
    pub fn label(&self) -> (r: &'static str)
        ensures
            r@ == self.label_spec(),
    {
        match self {
            Chord::A => "A",
            Chord::D => "D",
            Chord::G => "G",
            Chord::Unknown => "Unknown",
        }
    }
}

/// Whether `lo < num / den < hi`, computed without division or overflow.
fn band_contains(num: u128, den: u64, lo: u64, hi: u64) -> (r: bool)
    requires
        lo <= hi <= G_HIGH,
    ensures
        r == in_band(num as int, den as int, lo as int, hi as int),
{
    let n = num;
    let d = den as u128;
    assert(hi as int * den as int <= 215 * u64::MAX) by (nonlinear_arith)
        requires hi <= 215;
    assert(lo as int * den as int <= 215 * u64::MAX) by (nonlinear_arith)
        requires lo <= 215, hi <= 215;
    (lo as u128) * d < n && n < (hi as u128) * d
}

/// Maps the frequency `num / den` Hz to its chord label through the band
/// table; bands are open intervals, so a band edge maps to `Unknown`.
pub fn chord_for_frequency(num: u128, den: u64) -> (r: Chord)
    requires
        den > 0,
    ensures
        r == chord_of(num as int, den as int),
{
    if band_contains(num, den, A_LOW, A_HIGH) {
        Chord::A
    } else if band_contains(num, den, D_LOW, D_HIGH) {
        Chord::D
    } else if band_contains(num, den, G_LOW, G_HIGH) {
        Chord::G
    } else {
        Chord::Unknown
    }
}

/// Maps a whole number of Hz to its chord label.
pub fn chord_for_hz(hz: u64) -> (r: Chord)
    ensures
        r == chord_of(hz as int, 1),
{
    chord_for_frequency(hz as u128, 1)
}

/// The bands of the table are pairwise disjoint: no frequency lies in two.
pub proof fn lemma_bands_disjoint(num: int, den: int)
    requires
        den > 0,
    ensures
        !(in_band(num, den, A_LOW as int, A_HIGH as int) && in_band(num, den, D_LOW as int, D_HIGH as int)),
        !(in_band(num, den, A_LOW as int, A_HIGH as int) && in_band(num, den, G_LOW as int, G_HIGH as int)),
        !(in_band(num, den, D_LOW as int, D_HIGH as int) && in_band(num, den, G_LOW as int, G_HIGH as int)),
{
    assert(130 * den <= 145 * den) by (nonlinear_arith)
        requires den > 0;
    assert(165 * den <= 195 * den) by (nonlinear_arith)
        requires den > 0;
}

} // verus!
