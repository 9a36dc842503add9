//! Gamma lookup tables: a two-phase builder and a pass-through lookup.
use core::marker::PhantomData;
use vstd::arithmetic::power2::{lemma2_to64, lemma_pow2_strictly_increases, lemma_pow2_unfold, pow2};
use vstd::prelude::*;

use crate::color::{Rgb, RgbFormat};

verus! {

/// Turns a color into a corrected triplet of 16-bit channel values.
pub trait Lut {
    /// The colors that `lookup` can be asked about.
    spec fn accepts(&self, color: Rgb) -> bool;

    /// What `lookup` returns for `color`.
    spec fn corrected(&self, color: Rgb) -> (u16, u16, u16);

    fn lookup(&self, color: Rgb) -> (out: (u16, u16, u16))
        requires
            self.accepts(color),
        ensures
            out == self.corrected(color),
    ;
}

/// The build state of a `GammaLut`.
pub trait LutState {}

/// A table whose entries are still placeholder zeros.
pub struct Uninit;

/// A table whose entries are all computed.
pub struct Init;

impl LutState for Uninit {}

impl LutState for Init {}

/// A table length that is `2^B` for a channel width `B` whose levels fit in 16 bits.
pub open spec fn is_table_len(n: nat) -> bool {
    exists|bits: nat| bits <= 16 && n == pow2(bits)
}

/// The table entry that a computed curve level becomes: a level that does not
/// fit in 16 bits becomes zero.
pub open spec fn coerced(level: u32) -> u16 {
    if level <= u16::MAX {
        level as u16
    } else {
        0
    }
}

/// The entries of one channel built from its computed curve levels.
pub open spec fn built_channel(levels: Seq<u32>) -> Seq<u16> {
    levels.map_values(|v: u32| coerced(v))
}

/// The source ranges and the three channel tables of a `GammaLut`.
pub struct LutView {
    pub format: RgbFormat,
    pub r: Seq<u16>,
    pub g: Seq<u16>,
    pub b: Seq<u16>,
}

/// Three tables of `POWB` entries, one per channel, in build state `S`.
pub struct GammaLut<const POWB: usize, S> {
    r: [u16; POWB],
    g: [u16; POWB],
    b: [u16; POWB],
    format: RgbFormat,
    _state: PhantomData<S>,
}

impl<const POWB: usize, S> View for GammaLut<POWB, S> {
    type V = LutView;

    closed spec fn view(&self) -> LutView {
        LutView { format: self.format, r: self.r@, g: self.g@, b: self.b@ }
    }
}

proof fn lemma_table_len_bounds(n: nat)
    requires
        is_table_len(n),
    ensures
        1 <= n <= 65536,
{
    let bits = choose|bits: nat| bits <= 16 && n == pow2(bits);
    lemma2_to64();
    if bits < 16 {
        lemma_pow2_strictly_increases(bits, 16);
    }
    if bits > 0 {
        lemma_pow2_strictly_increases(0, bits);
    }
}

/// Whether a table of `n` entries per channel is supported.
pub fn table_len_supported(n: usize) -> (ok: bool)
    ensures
        ok == is_table_len(n as nat),
{
    let mut p: usize = 1;
    let mut bits: usize = 0;
    proof {
        lemma2_to64();
    }
    while bits <= 16
        invariant
            bits <= 17,
            p == pow2(bits as nat),
            p <= 131072,
            bits <= 16 ==> p <= 65536,
            forall|k: nat| k < bits ==> n != pow2(k),
        decreases 17 - bits,
    {
        if n == p {
            return true;
        }
        proof {
            lemma2_to64();
            lemma_pow2_unfold((bits + 1) as nat);
            if bits + 1 < 16 {
                lemma_pow2_strictly_increases((bits + 1) as nat, 16);
            }
        }
        p = p * 2;
        bits = bits + 1;
    }
    false
}

/// Converts a computed curve level to a table entry; a level above `u16::MAX` becomes zero.
pub fn coerce_level(level: u32) -> (entry: u16)
    ensures
        entry == coerced(level),
{
    if level <= u16::MAX as u32 {
        level as u16
    } else {
        0
    }
}

impl<const POWB: usize, S> GammaLut<POWB, S> {
    /// The table length is supported and every channel's levels index it.
    pub open spec fn wf(&self) -> bool {
        &&& is_table_len(POWB as nat)
        &&& self@.format.fits_table(POWB as nat)
        &&& self@.r.len() == POWB
        &&& self@.g.len() == POWB
        &&& self@.b.len() == POWB
    }

    /// The largest corrected level, `POWB - 1`.
    pub fn target_max(&self) -> (m: u16)
        requires
            self.wf(),
        ensures
            m == POWB - 1,
    {
        proof {
            lemma_table_len_bounds(POWB as nat);
        }
        (POWB - 1) as u16
    }

    pub fn format(&self) -> (f: RgbFormat)
        ensures
            f == self@.format,
    {
        self.format
    }
}

impl<const POWB: usize> GammaLut<POWB, Uninit> {
    /// An unbuilt table for colors of `format`, every entry zero.
    pub fn new(format: RgbFormat) -> (t: Self)
        requires
            is_table_len(POWB as nat),
            format.fits_table(POWB as nat),
        ensures
            t.wf(),
            t@.format == format,
            t@.r == Seq::new(POWB as nat, |i: int| 0u16),
            t@.g == Seq::new(POWB as nat, |i: int| 0u16),
            t@.b == Seq::new(POWB as nat, |i: int| 0u16),
    {
        let t = GammaLut { r: [0u16; POWB], g: [0u16; POWB], b: [0u16; POWB], format, _state: PhantomData };
        assert(t@.r =~= Seq::new(POWB as nat, |i: int| 0u16));
        assert(t@.g =~= Seq::new(POWB as nat, |i: int| 0u16));
        assert(t@.b =~= Seq::new(POWB as nat, |i: int| 0u16));
        t
    }

    /// Builds the table from each channel's computed curve levels, one per index:
    /// entry `i` of a channel is its level `i`, or zero where that level does not
    /// fit in 16 bits.
    pub fn init(self, r_levels: &[u32; POWB], g_levels: &[u32; POWB], b_levels: &[u32; POWB]) -> (t: GammaLut<POWB, Init>)
        requires
            self.wf(),
        ensures
            t.wf(),
            t.built_from(self@.format, r_levels@, g_levels@, b_levels@),
    {
        let mut r = self.r;
        let mut g = self.g;
        let mut b = self.b;
        let mut i: usize = 0;
        while i < POWB
            invariant
                i <= POWB,
                r@.len() == POWB,
                g@.len() == POWB,
                b@.len() == POWB,
                r_levels@.len() == POWB,
                g_levels@.len() == POWB,
                b_levels@.len() == POWB,
                forall|j: int| 0 <= j < i ==> r@[j] == coerced(r_levels@[j]),
                forall|j: int| 0 <= j < i ==> g@[j] == coerced(g_levels@[j]),
                forall|j: int| 0 <= j < i ==> b@[j] == coerced(b_levels@[j]),
            decreases POWB - i,
        {
            r[i] = coerce_level(r_levels[i]);
            g[i] = coerce_level(g_levels[i]);
            b[i] = coerce_level(b_levels[i]);
            i = i + 1;
        }
        let t = GammaLut { r, g, b, format: self.format, _state: PhantomData };
        assert(t@.r =~= built_channel(r_levels@));
        assert(t@.g =~= built_channel(g_levels@));
        assert(t@.b =~= built_channel(b_levels@));
        t
    }
}

impl<const POWB: usize> GammaLut<POWB, Init> {
    /// This table is the one built for `format` from these computed curve levels.
    pub open spec fn built_from(self, format: RgbFormat, r: Seq<u32>, g: Seq<u32>, b: Seq<u32>) -> bool {
        self@ == LutView { format, r: built_channel(r), g: built_channel(g), b: built_channel(b) }
    }
}

impl<const POWB: usize> Lut for GammaLut<POWB, Init> {
    open spec fn accepts(&self, color: Rgb) -> bool {
        self.wf() && self@.format.admits(color)
    }

    open spec fn corrected(&self, color: Rgb) -> (u16, u16, u16) {
        (self@.r[color.r as int], self@.g[color.g as int], self@.b[color.b as int])
    }

    /// Reads each channel's entry at that channel's level.
    fn lookup(&self, color: Rgb) -> (out: (u16, u16, u16)) {
        let r = self.r[color.r as usize];
        let g = self.g[color.g as usize];
        let b = self.b[color.b as usize];
        (r, g, b)
    }
}

/// A lookup that applies no correction.
pub struct Identity;

impl Lut for Identity {
    open spec fn accepts(&self, color: Rgb) -> bool {
        true
    }

    open spec fn corrected(&self, color: Rgb) -> (u16, u16, u16) {
        (color.r as u16, color.g as u16, color.b as u16)
    }

    /// Each channel's level, widened and unchanged.
    fn lookup(&self, color: Rgb) -> (out: (u16, u16, u16)) {
        (color.r as u16, color.g as u16, color.b as u16)
    }
}

/// Two tables built for the same format from the same curve levels are identical,
/// and so answer every lookup alike.
pub proof fn init_is_deterministic<const POWB: usize>(
    a: GammaLut<POWB, Init>,
    b: GammaLut<POWB, Init>,
    format: RgbFormat,
    r: Seq<u32>,
    g: Seq<u32>,
    bl: Seq<u32>,
)
    requires
        a.built_from(format, r, g, bl),
        b.built_from(format, r, g, bl),
    ensures
        a@ == b@,
        forall|c: Rgb| #[trigger] a.corrected(c) == b.corrected(c),
{
}

/// The curve levels never fall as the index rises, and all fit in 16 bits.
pub open spec fn rises_within_u16(levels: Seq<u32>) -> bool {
    &&& forall|k: int, l: int| 0 <= k <= l < levels.len() ==> levels[k] <= levels[l]
    &&& forall|k: int| 0 <= k < levels.len() ==> levels[k] <= u16::MAX
}

/// In a table built from curve levels that never fall and fit in 16 bits, a
/// channel's corrected value never falls as that channel's level rises.
pub proof fn lookup_keeps_order<const POWB: usize>(
    t: GammaLut<POWB, Init>,
    format: RgbFormat,
    r: Seq<u32>,
    g: Seq<u32>,
    b: Seq<u32>,
    c1: Rgb,
    c2: Rgb,
)
    requires
        t.wf(),
        t.built_from(format, r, g, b),
        t.accepts(c1),
        t.accepts(c2),
    ensures
        rises_within_u16(r) && c1.r <= c2.r ==> t.corrected(c1).0 <= t.corrected(c2).0,
        rises_within_u16(g) && c1.g <= c2.g ==> t.corrected(c1).1 <= t.corrected(c2).1,
        rises_within_u16(b) && c1.b <= c2.b ==> t.corrected(c1).2 <= t.corrected(c2).2,
{
}

} // verus!
