//! The [`MagnetAssembly`], which forms a magnetic rotor pole out of one or more
//! identical magnets packed next to each other.

use vstd::prelude::*;

verus! {

/// An assembly of one or more identical magnets which forms a magnetic rotor
/// pole.
///
/// The base magnet is repeated `number_axial` times along the axial air gap
/// direction and `number_tangential` times along the tangential air gap
/// direction, without gaps in between. Neither number may be zero.
#[derive(Debug)]
pub struct MagnetAssembly<M> {
    magnet: M,
    number_axial: usize,
    number_tangential: usize,
}

impl<M> MagnetAssembly<M> {
    /// The base magnet.
    pub closed spec fn base(self) -> M {
        self.magnet
    }

    /// The number of axial repetitions of the base magnet.
    pub closed spec fn axial(self) -> nat {
        self.number_axial as nat
    }

    /// The number of tangential repetitions of the base magnet.
    pub closed spec fn tangential(self) -> nat {
        self.number_tangential as nat
    }

    /// Every assembly holds at least one magnet in each direction.
    #[verifier::type_invariant]
    spec fn counts_nonzero(self) -> bool {
        &&& self.number_axial >= 1
        &&& self.number_tangential >= 1
    }

    /// Creates an assembly from the base `magnet` and the number of axial and
    /// tangential repetitions, both of which must not be zero.
    pub fn new(magnet: M, number_axial: usize, number_tangential: usize) -> (a: Self)
        requires
            number_axial >= 1,
            number_tangential >= 1,
        ensures
            a.base() == magnet,
            a.axial() == number_axial,
            a.tangential() == number_tangential,
    {
        MagnetAssembly { magnet, number_axial, number_tangential }
    }

    /// Creates an assembly from counts that may be zero, as a serialized
    /// assembly is read: a zero count in either direction is refused with
    /// `None`.
    pub fn try_new(magnet: M, number_axial: usize, number_tangential: usize) -> (r: Option<Self>)
        ensures
            r is None <==> (number_axial == 0 || number_tangential == 0),
            r matches Some(a) ==> {
                &&& a.base() == magnet
                &&& a.axial() == number_axial
                &&& a.tangential() == number_tangential
            },
    {
        if number_axial == 0 || number_tangential == 0 {
            None
        } else {
            Some(Self::new(magnet, number_axial, number_tangential))
        }
    }

    /// Returns a reference to the base magnet.
    pub fn magnet(&self) -> (m: &M)
        ensures
            *m == self.base(),
    {
        &self.magnet
    }

    /// Returns the number of times the base magnet is repeated axially.
    pub fn number_axial(&self) -> (n: usize)
        ensures
            n == self.axial(),
            n >= 1,
    {
        proof {
            use_type_invariant(self);
        }
        self.number_axial
    }

    /// Returns the number of times the base magnet is repeated tangentially.
    pub fn number_tangential(&self) -> (n: usize)
        ensures
            n == self.tangential(),
            n >= 1,
    {
        proof {
            use_type_invariant(self);
        }
        self.number_tangential
    }

    /// Returns how many individual magnets are used in `self`: the product of
    /// the axial and the tangential number of repetitions. It is at least one
    /// and at least the number of repetitions in either direction.
    pub fn number_magnets(&self) -> (n: usize)
        requires
            self.axial() * self.tangential() <= usize::MAX,
        ensures
            n == self.axial() * self.tangential(),
            n >= 1,
            n >= self.axial(),
            n >= self.tangential(),
    {
        proof {
            use_type_invariant(self);
            lemma_product_of_counts_bounds(self.axial(), self.tangential());
        }
        self.number_axial * self.number_tangential
    }
}

impl<M: Clone> Clone for MagnetAssembly<M> {
    /// Clones the base magnet and keeps the numbers of repetitions.
    fn clone(&self) -> (c: Self)
        ensures
            c.axial() == self.axial(),
            c.tangential() == self.tangential(),
            cloned(self.base(), c.base()),
    {
        proof {
            use_type_invariant(self);
        }
        MagnetAssembly {
            magnet: self.magnet.clone(),
            number_axial: self.number_axial,
            number_tangential: self.number_tangential,
        }
    }
}

/// A product of two counts that are at least one is at least one and at least
/// either count.
pub proof fn lemma_product_of_counts_bounds(axial: nat, tangential: nat)
    requires
        axial >= 1,
        tangential >= 1,
    ensures
        axial * tangential >= 1,
        axial * tangential >= axial,
        axial * tangential >= tangential,
{
    assert(axial * tangential >= axial && axial * tangential >= tangential) by (nonlinear_arith)
        requires
            axial >= 1,
            tangential >= 1,
    ;
}

} // verus!
