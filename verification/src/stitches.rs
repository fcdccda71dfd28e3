//! Holds the definition and details for the supported stitches

use vstd::prelude::*;

verus! {

/// The supported stitches
#[derive(Debug, PartialEq, Eq, Hash, Copy, Clone)]
pub enum Stitch {
    // Single
    K,
    P,
    K2Tog,
    P2Tog,
    Ssk,
    Ssp,
    SlKwise,
    SlPwise,
    Yo,
    Bo,
    Mr,
    Ml,
    MKwise,
    MPwise,
    Kfb,
    Kbf,
    Pfb,
    Pbf,
    Ktbl,
    Ptbl,
    NoStitch,
    Bobble,
    Bead,

    // Dual
    Lcf1,
    Rcb1,

    // Quad
    Lcf2,
    Rcb2,

    // Six
    Lcf3,
    Rcb3,

    // Eight
    Lcf4,
    Rcb4,
}

impl Stitch {
    /// The number of grid columns the stitch occupies. The match is total, so
    /// every stitch variant has a width by construction.
    pub open spec fn spec_width(&self) -> usize {
        match self {
            Stitch::K => 1,
            Stitch::P => 1,
            Stitch::K2Tog => 1,
            Stitch::P2Tog => 1,
            Stitch::Ssk => 1,
            Stitch::Ssp => 1,
            Stitch::SlKwise => 1,
            Stitch::SlPwise => 1,
            Stitch::Yo => 1,
            Stitch::Bo => 1,
            Stitch::Mr => 1,
            Stitch::Ml => 1,
            Stitch::MKwise => 1,
            Stitch::MPwise => 1,
            Stitch::Kfb => 1,
            Stitch::Kbf => 1,
            Stitch::Pfb => 1,
            Stitch::Pbf => 1,
            Stitch::Ktbl => 1,
            Stitch::Ptbl => 1,
            Stitch::NoStitch => 1,
            Stitch::Bobble => 1,
            Stitch::Bead => 1,
            Stitch::Lcf1 => 2,
            Stitch::Rcb1 => 2,
            Stitch::Lcf2 => 4,
            Stitch::Rcb2 => 4,
            Stitch::Lcf3 => 6,
            Stitch::Rcb3 => 6,
            Stitch::Lcf4 => 8,
            Stitch::Rcb4 => 8,
        }
    }

    /// Returns the width of the stitch.
    ///
    /// This is useful when trying to layout the stitches next to each other.
    #[verifier::when_used_as_spec(spec_width)]
    pub fn width(&self) -> (r: usize)
        ensures
            r == self.spec_width(),
    {
        match self {
            Stitch::K => 1,
            Stitch::P => 1,
            Stitch::K2Tog => 1,
            Stitch::P2Tog => 1,
            Stitch::Ssk => 1,
            Stitch::Ssp => 1,
            Stitch::SlKwise => 1,
            Stitch::SlPwise => 1,
            Stitch::Yo => 1,
            Stitch::Bo => 1,
            Stitch::Mr => 1,
            Stitch::Ml => 1,
            Stitch::MKwise => 1,
            Stitch::MPwise => 1,
            Stitch::Kfb => 1,
            Stitch::Kbf => 1,
            Stitch::Pfb => 1,
            Stitch::Pbf => 1,
            Stitch::Ktbl => 1,
            Stitch::Ptbl => 1,
            Stitch::NoStitch => 1,
            Stitch::Bobble => 1,
            Stitch::Bead => 1,
            Stitch::Lcf1 => 2,
            Stitch::Rcb1 => 2,
            Stitch::Lcf2 => 4,
            Stitch::Rcb2 => 4,
            Stitch::Lcf3 => 6,
            Stitch::Rcb3 => 6,
            Stitch::Lcf4 => 8,
            Stitch::Rcb4 => 8,
        }
    }

    /// The canonical shorthand name of the stitch, as a byte sequence.
    pub open spec fn spec_name(&self) -> Seq<u8> {
        match self {
            Stitch::K => seq!['k' as u8],
            Stitch::P => seq!['p' as u8],
            Stitch::K2Tog => seq!['k' as u8, '2' as u8, 't' as u8, 'o' as u8, 'g' as u8],
            Stitch::P2Tog => seq!['p' as u8, '2' as u8, 't' as u8, 'o' as u8, 'g' as u8],
            Stitch::Ssk => seq!['s' as u8, 's' as u8, 'k' as u8],
            Stitch::Ssp => seq!['s' as u8, 's' as u8, 'p' as u8],
            Stitch::SlKwise => seq!['s' as u8, 'l' as u8, ' ' as u8, 'k' as u8, 'w' as u8, 'i' as u8, 's' as u8, 'e' as u8],
            Stitch::SlPwise => seq!['s' as u8, 'l' as u8, ' ' as u8, 'p' as u8, 'w' as u8, 'i' as u8, 's' as u8, 'e' as u8],
            Stitch::Yo => seq!['y' as u8, 'o' as u8],
            Stitch::Bo => seq!['b' as u8, 'o' as u8],
            Stitch::Mr => seq!['m' as u8, 'r' as u8],
            Stitch::Ml => seq!['m' as u8, 'l' as u8],
            Stitch::MKwise => seq!['m' as u8, ' ' as u8, 'k' as u8, 'w' as u8, 'i' as u8, 's' as u8, 'e' as u8],
            Stitch::MPwise => seq!['m' as u8, ' ' as u8, 'p' as u8, 'w' as u8, 'i' as u8, 's' as u8, 'e' as u8],
            Stitch::Kfb => seq!['k' as u8, 'f' as u8, 'b' as u8],
            Stitch::Kbf => seq!['k' as u8, 'b' as u8, 'f' as u8],
            Stitch::Pfb => seq!['p' as u8, 'f' as u8, 'b' as u8],
            Stitch::Pbf => seq!['p' as u8, 'b' as u8, 'f' as u8],
            Stitch::Ktbl => seq!['k' as u8, 't' as u8, 'b' as u8, 'l' as u8],
            Stitch::Ptbl => seq!['p' as u8, 't' as u8, 'b' as u8, 'l' as u8],
            Stitch::NoStitch => seq!['n' as u8, 'o' as u8, 's' as u8, 't' as u8, 'i' as u8, 't' as u8, 'c' as u8, 'h' as u8],
            Stitch::Bobble => seq!['b' as u8, 'o' as u8, 'b' as u8, 'b' as u8, 'l' as u8, 'e' as u8],
            Stitch::Bead => seq!['b' as u8, 'e' as u8, 'a' as u8, 'd' as u8],
            Stitch::Lcf1 => seq!['1' as u8, 'l' as u8, 'c' as u8, 'f' as u8],
            Stitch::Rcb1 => seq!['1' as u8, 'r' as u8, 'c' as u8, 'b' as u8],
            Stitch::Lcf2 => seq!['2' as u8, 'l' as u8, 'c' as u8, 'f' as u8],
            Stitch::Rcb2 => seq!['2' as u8, 'r' as u8, 'c' as u8, 'b' as u8],
            Stitch::Lcf3 => seq!['3' as u8, 'l' as u8, 'c' as u8, 'f' as u8],
            Stitch::Rcb3 => seq!['3' as u8, 'r' as u8, 'c' as u8, 'b' as u8],
            Stitch::Lcf4 => seq!['4' as u8, 'l' as u8, 'c' as u8, 'f' as u8],
            Stitch::Rcb4 => seq!['4' as u8, 'r' as u8, 'c' as u8, 'b' as u8],
        }
    }

    /// The canonical shorthand name of the stitch, as the bytes of its text.
    pub fn name(&self) -> (r: Vec<u8>)
        ensures
            r@ == self.spec_name(),
    {
        let mut v: Vec<u8> = Vec::new();
        match self {
            Stitch::K => {
                v.push('k' as u8);
            },
            Stitch::P => {
                v.push('p' as u8);
            },
            Stitch::K2Tog => {
                v.push('k' as u8);
                v.push('2' as u8);
                v.push('t' as u8);
                v.push('o' as u8);
                v.push('g' as u8);
            },
            Stitch::P2Tog => {
                v.push('p' as u8);
                v.push('2' as u8);
                v.push('t' as u8);
                v.push('o' as u8);
                v.push('g' as u8);
            },
            Stitch::Ssk => {
                v.push('s' as u8);
                v.push('s' as u8);
                v.push('k' as u8);
            },
            Stitch::Ssp => {
                v.push('s' as u8);
                v.push('s' as u8);
                v.push('p' as u8);
            },
            Stitch::SlKwise => {
                v.push('s' as u8);
                v.push('l' as u8);
                v.push(' ' as u8);
                v.push('k' as u8);
                v.push('w' as u8);
                v.push('i' as u8);
                v.push('s' as u8);
                v.push('e' as u8);
            },
            Stitch::SlPwise => {
                v.push('s' as u8);
                v.push('l' as u8);
                v.push(' ' as u8);
                v.push('p' as u8);
                v.push('w' as u8);
                v.push('i' as u8);
                v.push('s' as u8);
                v.push('e' as u8);
            },
            Stitch::Yo => {
                v.push('y' as u8);
                v.push('o' as u8);
            },
            Stitch::Bo => {
                v.push('b' as u8);
                v.push('o' as u8);
            },
            Stitch::Mr => {
                v.push('m' as u8);
                v.push('r' as u8);
            },
            Stitch::Ml => {
                v.push('m' as u8);
                v.push('l' as u8);
            },
            Stitch::MKwise => {
                v.push('m' as u8);
                v.push(' ' as u8);
                v.push('k' as u8);
                v.push('w' as u8);
                v.push('i' as u8);
                v.push('s' as u8);
                v.push('e' as u8);
            },
            Stitch::MPwise => {
                v.push('m' as u8);
                v.push(' ' as u8);
                v.push('p' as u8);
                v.push('w' as u8);
                v.push('i' as u8);
                v.push('s' as u8);
                v.push('e' as u8);
            },
            Stitch::Kfb => {
                v.push('k' as u8);
                v.push('f' as u8);
                v.push('b' as u8);
            },
            Stitch::Kbf => {
                v.push('k' as u8);
                v.push('b' as u8);
                v.push('f' as u8);
            },
            Stitch::Pfb => {
                v.push('p' as u8);
                v.push('f' as u8);
                v.push('b' as u8);
            },
            Stitch::Pbf => {
                v.push('p' as u8);
                v.push('b' as u8);
                v.push('f' as u8);
            },
            Stitch::Ktbl => {
                v.push('k' as u8);
                v.push('t' as u8);
                v.push('b' as u8);
                v.push('l' as u8);
            },
            Stitch::Ptbl => {
                v.push('p' as u8);
                v.push('t' as u8);
                v.push('b' as u8);
                v.push('l' as u8);
            },
            Stitch::NoStitch => {
                v.push('n' as u8);
                v.push('o' as u8);
                v.push('s' as u8);
                v.push('t' as u8);
                v.push('i' as u8);
                v.push('t' as u8);
                v.push('c' as u8);
                v.push('h' as u8);
            },
            Stitch::Bobble => {
                v.push('b' as u8);
                v.push('o' as u8);
                v.push('b' as u8);
                v.push('b' as u8);
                v.push('l' as u8);
                v.push('e' as u8);
            },
            Stitch::Bead => {
                v.push('b' as u8);
                v.push('e' as u8);
                v.push('a' as u8);
                v.push('d' as u8);
            },
            Stitch::Lcf1 => {
                v.push('1' as u8);
                v.push('l' as u8);
                v.push('c' as u8);
                v.push('f' as u8);
            },
            Stitch::Rcb1 => {
                v.push('1' as u8);
                v.push('r' as u8);
                v.push('c' as u8);
                v.push('b' as u8);
            },
            Stitch::Lcf2 => {
                v.push('2' as u8);
                v.push('l' as u8);
                v.push('c' as u8);
                v.push('f' as u8);
            },
            Stitch::Rcb2 => {
                v.push('2' as u8);
                v.push('r' as u8);
                v.push('c' as u8);
                v.push('b' as u8);
            },
            Stitch::Lcf3 => {
                v.push('3' as u8);
                v.push('l' as u8);
                v.push('c' as u8);
                v.push('f' as u8);
            },
            Stitch::Rcb3 => {
                v.push('3' as u8);
                v.push('r' as u8);
                v.push('c' as u8);
                v.push('b' as u8);
            },
            Stitch::Lcf4 => {
                v.push('4' as u8);
                v.push('l' as u8);
                v.push('c' as u8);
                v.push('f' as u8);
            },
            Stitch::Rcb4 => {
                v.push('4' as u8);
                v.push('r' as u8);
                v.push('c' as u8);
                v.push('b' as u8);
            },
        }
        assert(v@ =~= self.spec_name());
        v
    }
}

} // verus!
