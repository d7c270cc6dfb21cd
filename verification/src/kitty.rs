//! The kitty itself: a sixteen-byte genome, its gender, and the rule by which
//! two genomes are mixed.

use crate::error::Error;
use vstd::prelude::*;

verus! {

/// Gender of a kitty, read off its genome.
#[derive(Clone, Copy, Debug, PartialEq, Eq, Structural)]
pub enum KittyGender {
    Male,
    Female,
}

/// A kitty is nothing but its genome.
#[derive(Clone, Copy, Debug, PartialEq, Eq)]
pub struct Kitty(pub [u8; 16]);

/// Gender that a genome starting with `first` carries: even is male, odd is
/// female.
pub open spec fn gender_of_byte(first: u8) -> KittyGender {
    if first % 2 == 0 {
        KittyGender::Male
    } else {
        KittyGender::Female
    }
}

impl Kitty {
    /// A kitty with the genome `dna`, which must be sixteen bytes long: any
    /// other length is refused.
    pub fn from_slice(dna: &[u8]) -> (kitty: Option<Kitty>)
        ensures
            match kitty {
                Some(Kitty(genome)) => genome@ == dna@,
                None => dna@.len() != 16,
            },
    {
        if dna.len() != 16 {
            return None;
        }
        let mut genome = [0u8; 16];
        for i in 0..16usize
            invariant
                dna@.len() == 16,
                forall|j: int| 0 <= j < i ==> genome[j] == dna@[j],
        {
            genome[i] = dna[i];
        }
        assert(genome@ =~= dna@);
        Some(Kitty(genome))
    }

    /// Gender of this kitty as a function of its genome.
    pub open spec fn spec_gender(&self) -> KittyGender {
        gender_of_byte(self.0[0])
    }

    /// Gender of this kitty: male when the first genome byte is even, female
    /// when it is odd.
    #[verifier::when_used_as_spec(spec_gender)]
    pub fn gender(&self) -> (g: KittyGender)
        ensures
            g == self.spec_gender(),
    {
        if self.0[0] % 2 == 0 {
            KittyGender::Male
        } else {
            KittyGender::Female
        }
    }
}

/// One byte of a child: each bit is taken from `dna1` where the selector bit
/// is 0 and from `dna2` where it is 1.
pub open spec fn spec_combine_dna(dna1: u8, dna2: u8, selector: u8) -> u8 {
    (!selector & dna1) | (selector & dna2)
}

/// Mixes two genome bytes under a selector byte.
#[verifier::when_used_as_spec(spec_combine_dna)]
pub fn combine_dna(dna1: u8, dna2: u8, selector: u8) -> (child: u8)
    ensures
        child == spec_combine_dna(dna1, dna2, selector),
{
    (!selector & dna1) | (selector & dna2)
}

/// The child genome: byte by byte, parent one where the selector holds a 0
/// bit and parent two where it holds a 1 bit.
pub open spec fn spec_combine_genomes(dna1: [u8; 16], dna2: [u8; 16], selector: [u8; 16]) -> [
    u8;
    16
] {
    [
        spec_combine_dna(dna1[0], dna2[0], selector[0]),
        spec_combine_dna(dna1[1], dna2[1], selector[1]),
        spec_combine_dna(dna1[2], dna2[2], selector[2]),
        spec_combine_dna(dna1[3], dna2[3], selector[3]),
        spec_combine_dna(dna1[4], dna2[4], selector[4]),
        spec_combine_dna(dna1[5], dna2[5], selector[5]),
        spec_combine_dna(dna1[6], dna2[6], selector[6]),
        spec_combine_dna(dna1[7], dna2[7], selector[7]),
        spec_combine_dna(dna1[8], dna2[8], selector[8]),
        spec_combine_dna(dna1[9], dna2[9], selector[9]),
        spec_combine_dna(dna1[10], dna2[10], selector[10]),
        spec_combine_dna(dna1[11], dna2[11], selector[11]),
        spec_combine_dna(dna1[12], dna2[12], selector[12]),
        spec_combine_dna(dna1[13], dna2[13], selector[13]),
        spec_combine_dna(dna1[14], dna2[14], selector[14]),
        spec_combine_dna(dna1[15], dna2[15], selector[15]),
    ]
}

/// Mixes two whole genomes under a sixteen-byte selector.
#[verifier::when_used_as_spec(spec_combine_genomes)]
pub fn combine_genomes(dna1: [u8; 16], dna2: [u8; 16], selector: [u8; 16]) -> (new_dna: [u8; 16])
    ensures
        new_dna == spec_combine_genomes(dna1, dna2, selector),
{
    let mut new_dna = [0u8; 16];
    for i in 0..16usize
        invariant
            forall|j: int| 0 <= j < i ==> new_dna[j] == spec_combine_dna(dna1[j], dna2[j], selector[j]),
    {
        new_dna[i] = combine_dna(dna1[i], dna2[i], selector[i]);
    }
    assert(new_dna =~= spec_combine_genomes(dna1, dna2, selector));
    new_dna
}

/// The parents of a breeding, given what the store holds under the two ids
/// named: both must be there, and their genders must differ.
pub open spec fn spec_breeding_pair(kitty1: Option<Kitty>, kitty2: Option<Kitty>) -> Result<
    (Kitty, Kitty),
    Error,
> {
    match (kitty1, kitty2) {
        (Some(kitty1), Some(kitty2)) => if kitty1.gender() == kitty2.gender() {
            Err(Error::SameGender)
        } else {
            Ok((kitty1, kitty2))
        },
        _ => Err(Error::InvalidKittyId),
    }
}

/// Decides whether two looked-up kitties may breed. A missing kitty is
/// reported before genders are compared.
#[verifier::when_used_as_spec(spec_breeding_pair)]
pub fn breeding_pair(kitty1: Option<Kitty>, kitty2: Option<Kitty>) -> (pair: Result<
    (Kitty, Kitty),
    Error,
>)
    ensures
        pair == spec_breeding_pair(kitty1, kitty2),
{
    match (kitty1, kitty2) {
        (Some(kitty1), Some(kitty2)) => {
            if kitty1.gender() == kitty2.gender() {
                Err(Error::SameGender)
            } else {
                Ok((kitty1, kitty2))
            }
        },
        _ => Err(Error::InvalidKittyId),
    }
}

} // verus!
