//! Groups of [`Option`]s with their discriminants packed into a single
//! flag word.
//!
//! A group of optional fields would ordinarily spend one discriminant per
//! field; packing the discriminants into one flag word shrinks the group to
//! the unwrapped fields plus a single byte or two. [`OptionGroup8`] packs up
//! to eight discriminants into a `u8`, [`OptionGroup16`] up to sixteen into
//! a `u16`. The field types of a group are described by a [`Compound8`] or
//! [`Compound16`] implementation, provided here for tuples.

use vstd::prelude::*;

verus! {

/// Types whose values are a fixed-arity product of fields, each of which a
/// group stores as present or absent.
pub trait Compound: Sized {
    /// The number of fields a value of this type has.
    spec fn field_count() -> nat;
}

/// Products of up to eight fields; their options can be packed into an
/// [`OptionGroup8`] or larger. Fields past the product's arity are `()`.
pub trait Compound8: Compound {
    /// The type of field 0.
    type T0;

    /// The type of field 1.
    type T1;

    /// The type of field 2.
    type T2;

    /// The type of field 3.
    type T3;

    /// The type of field 4.
    type T4;

    /// The type of field 5.
    type T5;

    /// The type of field 6.
    type T6;

    /// The type of field 7.
    type T7;
}

/// Products of up to sixteen fields; their options can be packed into an
/// [`OptionGroup16`] or larger. Fields past the product's arity are `()`.
pub trait Compound16: Compound {
    /// The type of field 0.
    type U0;

    /// The type of field 1.
    type U1;

    /// The type of field 2.
    type U2;

    /// The type of field 3.
    type U3;

    /// The type of field 4.
    type U4;

    /// The type of field 5.
    type U5;

    /// The type of field 6.
    type U6;

    /// The type of field 7.
    type U7;

    /// The type of field 8.
    type U8;

    /// The type of field 9.
    type U9;

    /// The type of field 10.
    type UA;

    /// The type of field 11.
    type UB;

    /// The type of field 12.
    type UC;

    /// The type of field 13.
    type UD;

    /// The type of field 14.
    type UE;

    /// The type of field 15.
    type UF;
}

impl<A, B> Compound for (A, B) {
    open spec fn field_count() -> nat {
        2
    }
}

impl<A, B> Compound8 for (A, B) {
    type T0 = A;

    type T1 = B;

    type T2 = ();

    type T3 = ();

    type T4 = ();

    type T5 = ();

    type T6 = ();

    type T7 = ();
}

impl<A, B, C> Compound for (A, B, C) {
    open spec fn field_count() -> nat {
        3
    }
}

impl<A, B, C> Compound8 for (A, B, C) {
    type T0 = A;

    type T1 = B;

    type T2 = C;

    type T3 = ();

    type T4 = ();

    type T5 = ();

    type T6 = ();

    type T7 = ();
}

impl<A, B, C, D> Compound for (A, B, C, D) {
    open spec fn field_count() -> nat {
        4
    }
}

impl<A, B, C, D> Compound8 for (A, B, C, D) {
    type T0 = A;

    type T1 = B;

    type T2 = C;

    type T3 = D;

    type T4 = ();

    type T5 = ();

    type T6 = ();

    type T7 = ();
}

impl<A, B, C, D, E> Compound for (A, B, C, D, E) {
    open spec fn field_count() -> nat {
        5
    }
}

impl<A, B, C, D, E> Compound8 for (A, B, C, D, E) {
    type T0 = A;

    type T1 = B;

    type T2 = C;

    type T3 = D;

    type T4 = E;

    type T5 = ();

    type T6 = ();

    type T7 = ();
}

impl<A, B, C, D, E, F> Compound for (A, B, C, D, E, F) {
    open spec fn field_count() -> nat {
        6
    }
}

impl<A, B, C, D, E, F> Compound8 for (A, B, C, D, E, F) {
    type T0 = A;

    type T1 = B;

    type T2 = C;

    type T3 = D;

    type T4 = E;

    type T5 = F;

    type T6 = ();

    type T7 = ();
}

impl<A, B, C, D, E, F, G> Compound for (A, B, C, D, E, F, G) {
    open spec fn field_count() -> nat {
        7
    }
}

impl<A, B, C, D, E, F, G> Compound8 for (A, B, C, D, E, F, G) {
    type T0 = A;

    type T1 = B;

    type T2 = C;

    type T3 = D;

    type T4 = E;

    type T5 = F;

    type T6 = G;

    type T7 = ();
}

impl<A, B, C, D, E, F, G, H> Compound for (A, B, C, D, E, F, G, H) {
    open spec fn field_count() -> nat {
        8
    }
}

impl<A, B, C, D, E, F, G, H> Compound8 for (A, B, C, D, E, F, G, H) {
    type T0 = A;

    type T1 = B;

    type T2 = C;

    type T3 = D;

    type T4 = E;

    type T5 = F;

    type T6 = G;

    type T7 = H;
}

impl<A, B, C, D, E, F, G, H, I> Compound for (A, B, C, D, E, F, G, H, I) {
    open spec fn field_count() -> nat {
        9
    }
}

impl<A, B, C, D, E, F, G, H, I> Compound16 for (A, B, C, D, E, F, G, H, I) {
    type U0 = A;

    type U1 = B;

    type U2 = C;

    type U3 = D;

    type U4 = E;

    type U5 = F;

    type U6 = G;

    type U7 = H;

    type U8 = I;

    type U9 = ();

    type UA = ();

    type UB = ();

    type UC = ();

    type UD = ();

    type UE = ();

    type UF = ();
}

impl<A, B, C, D, E, F, G, H, I, J> Compound for (A, B, C, D, E, F, G, H, I, J) {
    open spec fn field_count() -> nat {
        10
    }
}

impl<A, B, C, D, E, F, G, H, I, J> Compound16 for (A, B, C, D, E, F, G, H, I, J) {
    type U0 = A;

    type U1 = B;

    type U2 = C;

    type U3 = D;

    type U4 = E;

    type U5 = F;

    type U6 = G;

    type U7 = H;

    type U8 = I;

    type U9 = J;

    type UA = ();

    type UB = ();

    type UC = ();

    type UD = ();

    type UE = ();

    type UF = ();
}

impl<A, B, C, D, E, F, G, H, I, J, K> Compound for (A, B, C, D, E, F, G, H, I, J, K) {
    open spec fn field_count() -> nat {
        11
    }
}

impl<A, B, C, D, E, F, G, H, I, J, K> Compound16 for (A, B, C, D, E, F, G, H, I, J, K) {
    type U0 = A;

    type U1 = B;

    type U2 = C;

    type U3 = D;

    type U4 = E;

    type U5 = F;

    type U6 = G;

    type U7 = H;

    type U8 = I;

    type U9 = J;

    type UA = K;

    type UB = ();

    type UC = ();

    type UD = ();

    type UE = ();

    type UF = ();
}

impl<A, B, C, D, E, F, G, H, I, J, K, L> Compound for (A, B, C, D, E, F, G, H, I, J, K, L) {
    open spec fn field_count() -> nat {
        12
    }
}

impl<A, B, C, D, E, F, G, H, I, J, K, L> Compound16 for (A, B, C, D, E, F, G, H, I, J, K, L) {
    type U0 = A;

    type U1 = B;

    type U2 = C;

    type U3 = D;

    type U4 = E;

    type U5 = F;

    type U6 = G;

    type U7 = H;

    type U8 = I;

    type U9 = J;

    type UA = K;

    type UB = L;

    type UC = ();

    type UD = ();

    type UE = ();

    type UF = ();
}

/// Every product of up to eight fields is also a product of up to sixteen.
impl<C: Compound8> Compound16 for C {
    type U0 = C::T0;

    type U1 = C::T1;

    type U2 = C::T2;

    type U3 = C::T3;

    type U4 = C::T4;

    type U5 = C::T5;

    type U6 = C::T6;

    type U7 = C::T7;

    type U8 = ();

    type U9 = ();

    type UA = ();

    type UB = ();

    type UC = ();

    type UD = ();

    type UE = ();

    type UF = ();
}

/// Whether bit `n` of the flag word `flags` is set.
pub open spec fn bit8(flags: u8, n: u32) -> bool {
    flags & (1u8 << n) != 0
}

/// Setting bit `n` of a flag word sets exactly that bit and leaves every
/// other bit unchanged.
proof fn lemma_u8_set_bit(f: u8, n: u32, m: u32)
    by (bit_vector)
    requires
        n < 8,
        m < 8,
    ensures
        (f | (1u8 << n)) & (1u8 << n) != 0,
        m != n ==> ((f | (1u8 << n)) & (1u8 << m)) == (f & (1u8 << m)),
{
}

/// Clearing bit `n` of a flag word clears exactly that bit and leaves every
/// other bit unchanged.
proof fn lemma_u8_clear_bit(f: u8, n: u32, m: u32)
    by (bit_vector)
    requires
        n < 8,
        m < 8,
    ensures
        (f & !(1u8 << n)) & (1u8 << n) == 0,
        m != n ==> ((f & !(1u8 << n)) & (1u8 << m)) == (f & (1u8 << m)),
{
}

/// A zero flag word has no bit set, and a flag word with no bit set is
/// zero.
proof fn lemma_u8_zero_bits(f: u8)
    by (bit_vector)
    ensures
        forall|n: u32| n < 8 ==> ((0u8 & (1u8 << n)) == 0),
        f != 0 ==> f & (1u8 << 0u32) != 0 || f & (1u8 << 1u32) != 0 || f & (1u8 << 2u32) != 0 || f
            & (1u8 << 3u32) != 0 || f & (1u8 << 4u32) != 0 || f & (1u8 << 5u32) != 0 || f & (1u8
            << 6u32) != 0 || f & (1u8 << 7u32) != 0,
{
}

/// A group of up to eight [`Option`]s, with the discriminants packed into a
/// single `u8`.
pub struct OptionGroup8<T: Compound8> {
    t0: Option<T::T0>,
    t1: Option<T::T1>,
    t2: Option<T::T2>,
    t3: Option<T::T3>,
    t4: Option<T::T4>,
    t5: Option<T::T5>,
    t6: Option<T::T6>,
    t7: Option<T::T7>,
    flags: u8,
}

impl<T: Compound8> OptionGroup8<T> {
    /// Whether the `n`th option in the group holds a value.
    pub closed spec fn slot_is_some(&self, n: u32) -> bool {
        if n == 0 {
            self.t0 is Some
        } else if n == 1 {
            self.t1 is Some
        } else if n == 2 {
            self.t2 is Some
        } else if n == 3 {
            self.t3 is Some
        } else if n == 4 {
            self.t4 is Some
        } else if n == 5 {
            self.t5 is Some
        } else if n == 6 {
            self.t6 is Some
        } else if n == 7 {
            self.t7 is Some
        } else {
            false
        }
    }

    /// The group's internal invariant: each bit of the packed flag word is
    /// set exactly when the corresponding option holds a value.
    pub closed spec fn wf(&self) -> bool {
        forall|n: u32| n < 8 ==> bit8(self.flags, n) == self.slot_is_some(n)
    }

    /// Whether every option in the group is absent.
    pub open spec fn all_none(&self) -> bool {
        forall|n: u32| n < 8 ==> !self.slot_is_some(n)
    }

    /// Creates a new group with all options set to `None`.
    pub fn empty() -> (group: Self)
        ensures
            group.wf(),
            group.all_none(),
    {
        let group = OptionGroup8 {
            t0: None,
            t1: None,
            t2: None,
            t3: None,
            t4: None,
            t5: None,
            t6: None,
            t7: None,
            flags: 0,
        };
        proof {
            lemma_u8_zero_bits(0);
        }
        group
    }

    /// Sets flag bit `n`; the caller is responsible for storing a value in
    /// the matching slot.
    fn set_flag(&mut self, n: u32)
        requires
            n < 8,
        ensures
            final(self).flags == old(self).flags | (1u8 << n),
            final(self).t0 == old(self).t0,
            final(self).t1 == old(self).t1,
            final(self).t2 == old(self).t2,
            final(self).t3 == old(self).t3,
            final(self).t4 == old(self).t4,
            final(self).t5 == old(self).t5,
            final(self).t6 == old(self).t6,
            final(self).t7 == old(self).t7,
    {
        self.flags = self.flags | (1u8 << n);
    }

    /// Clears flag bit `n`; the caller is responsible for vacating the
    /// matching slot.
    fn clear_flag(&mut self, n: u32)
        requires
            n < 8,
        ensures
            final(self).flags == old(self).flags & !(1u8 << n),
            final(self).t0 == old(self).t0,
            final(self).t1 == old(self).t1,
            final(self).t2 == old(self).t2,
            final(self).t3 == old(self).t3,
            final(self).t4 == old(self).t4,
            final(self).t5 == old(self).t5,
            final(self).t6 == old(self).t6,
            final(self).t7 == old(self).t7,
    {
        self.flags = self.flags & !(1u8 << n);
    }

    /// Returns `true` if all options in the group are `None` values.
    pub fn is_empty(&self) -> (empty: bool)
        requires
            self.wf(),
        ensures
            empty == self.all_none(),
    {
        proof {
            lemma_u8_zero_bits(self.flags);
            if self.flags == 0 {
                assert forall|n: u32| n < 8 implies !self.slot_is_some(n) by {
                    assert(bit8(self.flags, n) == self.slot_is_some(n));
                    assert((0u8 & (1u8 << n)) == 0);
                }
            } else {
                assert(bit8(self.flags, 0) || bit8(self.flags, 1) || bit8(self.flags, 2) || bit8(self.flags, 3) || bit8(self.flags, 4)
                    || bit8(self.flags, 5) || bit8(self.flags, 6) || bit8(self.flags, 7));
                assert(bit8(self.flags, 0) == self.slot_is_some(0));
                assert(bit8(self.flags, 1) == self.slot_is_some(1));
                assert(bit8(self.flags, 2) == self.slot_is_some(2));
                assert(bit8(self.flags, 3) == self.slot_is_some(3));
                assert(bit8(self.flags, 4) == self.slot_is_some(4));
                assert(bit8(self.flags, 5) == self.slot_is_some(5));
                assert(bit8(self.flags, 6) == self.slot_is_some(6));
                assert(bit8(self.flags, 7) == self.slot_is_some(7));
                assert(!self.all_none());
            }
        }
        self.flags == 0
    }

    /// Returns `true` if the `n`th option in the group is a `Some` value.
    pub fn is_some(&self, n: u32) -> (present: bool)
        requires
            self.wf(),
            n < 8,
        ensures
            present == self.slot_is_some(n),
    {
        proof {
            assert(bit8(self.flags, n) == self.slot_is_some(n));
        }
        self.flags & (1u8 << n) != 0
    }

    /// Returns `true` if the `n`th option in the group is a `None` value.
    pub fn is_none(&self, n: u32) -> (absent: bool)
        requires
            self.wf(),
            n < 8,
        ensures
            absent == !self.slot_is_some(n),
    {
        proof {
            assert(bit8(self.flags, n) == self.slot_is_some(n));
        }
        self.flags & (1u8 << n) == 0
    }
}

impl<T0, T1> OptionGroup8<(T0, T1)> {
    /// The first option in the group.
    pub closed spec fn spec_0(&self) -> Option<T0> {
        self.t0
    }

    /// The second option in the group.
    pub closed spec fn spec_1(&self) -> Option<T1> {
        self.t1
    }

    /// Equivalent to `pair_of_options.0.as_ref()`.
    pub fn get_0(&self) -> (r: Option<&T0>)
        requires
            self.wf(),
        ensures
            r is Some <==> self.spec_0() is Some,
            r matches Some(v) ==> self.spec_0() == Some(*v),
    {
        if self.is_none(0) {
            None
        } else {
            self.t0.as_ref()
        }
    }

    /// Equivalent to `pair_of_options.1.as_ref()`.
    pub fn get_1(&self) -> (r: Option<&T1>)
        requires
            self.wf(),
        ensures
            r is Some <==> self.spec_1() is Some,
            r matches Some(v) ==> self.spec_1() == Some(*v),
    {
        if self.is_none(1) {
            None
        } else {
            self.t1.as_ref()
        }
    }

    /// Equivalent to `pair_of_options.0.as_mut()`.
    pub fn get_mut_0(&mut self) -> (r: Option<&mut T0>)
        requires
            old(self).wf(),
        ensures
            final(self).wf(),
            r is Some <==> old(self).spec_0() is Some,
            r matches Some(v) ==> old(self).spec_0() == Some(*v) && final(self).spec_0() == Some(
                *final(v),
            ),
            r is None ==> *final(self) == *old(self),
            final(self).spec_1() == old(self).spec_1(),
    {
        if self.is_none(0) {
            None
        } else {
            self.t0.as_mut()
        }
    }

    /// Equivalent to `pair_of_options.1.as_mut()`.
    pub fn get_mut_1(&mut self) -> (r: Option<&mut T1>)
        requires
            old(self).wf(),
        ensures
            final(self).wf(),
            r is Some <==> old(self).spec_1() is Some,
            r matches Some(v) ==> old(self).spec_1() == Some(*v) && final(self).spec_1() == Some(
                *final(v),
            ),
            r is None ==> *final(self) == *old(self),
            final(self).spec_0() == old(self).spec_0(),
    {
        if self.is_none(1) {
            None
        } else {
            self.t1.as_mut()
        }
    }

    /// Equivalent to `pair_of_options.0.take()`.
    pub fn take_0(&mut self) -> (r: Option<T0>)
        requires
            old(self).wf(),
        ensures
            final(self).wf(),
            r == old(self).spec_0(),
            final(self).spec_0() is None,
            final(self).spec_1() == old(self).spec_1(),
    {
        if self.is_none(0) {
            None
        } else {
            self.clear_flag(0);
            let r = self.t0.take();
            proof {
                assert forall|m: u32| m < 8 implies bit8(self.flags, m) == self.slot_is_some(m) by {
                    lemma_u8_clear_bit(old(self).flags, 0, m);
                    assert(bit8(old(self).flags, m) == old(self).slot_is_some(m));
                }
            }
            r
        }
    }

    /// Equivalent to `pair_of_options.1.take()`.
    pub fn take_1(&mut self) -> (r: Option<T1>)
        requires
            old(self).wf(),
        ensures
            final(self).wf(),
            r == old(self).spec_1(),
            final(self).spec_1() is None,
            final(self).spec_0() == old(self).spec_0(),
    {
        if self.is_none(1) {
            None
        } else {
            self.clear_flag(1);
            let r = self.t1.take();
            proof {
                assert forall|m: u32| m < 8 implies bit8(self.flags, m) == self.slot_is_some(m) by {
                    lemma_u8_clear_bit(old(self).flags, 1, m);
                    assert(bit8(old(self).flags, m) == old(self).slot_is_some(m));
                }
            }
            r
        }
    }

    /// Equivalent to `pair_of_options.0.replace(value)`.
    pub fn replace_0(&mut self, value: T0) -> (r: Option<T0>)
        requires
            old(self).wf(),
        ensures
            final(self).wf(),
            r == old(self).spec_0(),
            final(self).spec_0() == Some(value),
            final(self).spec_1() == old(self).spec_1(),
    {
        let previous = self.take_0();
        let ghost taken = *self;
        self.t0 = Some(value);
        self.set_flag(0);
        proof {
            assert forall|m: u32| m < 8 implies bit8(self.flags, m) == self.slot_is_some(m) by {
                lemma_u8_set_bit(taken.flags, 0, m);
                assert(bit8(taken.flags, m) == taken.slot_is_some(m));
            }
        }
        previous
    }

    /// Equivalent to `pair_of_options.1.replace(value)`.
    pub fn replace_1(&mut self, value: T1) -> (r: Option<T1>)
        requires
            old(self).wf(),
        ensures
            final(self).wf(),
            r == old(self).spec_1(),
            final(self).spec_1() == Some(value),
            final(self).spec_0() == old(self).spec_0(),
    {
        let previous = self.take_1();
        let ghost taken = *self;
        self.t1 = Some(value);
        self.set_flag(1);
        proof {
            assert forall|m: u32| m < 8 implies bit8(self.flags, m) == self.slot_is_some(m) by {
                lemma_u8_set_bit(taken.flags, 1, m);
                assert(bit8(taken.flags, m) == taken.slot_is_some(m));
            }
        }
        previous
    }
}

impl<T: Compound8> Default for OptionGroup8<T> {
    /// An empty group, with all options set to `None`.
    fn default() -> (group: Self)
        ensures
            group.wf(),
            group.all_none(),
    {
        Self::empty()
    }
}

/// Whether bit `n` of the flag word `flags` is set.
pub open spec fn bit16(flags: u16, n: u32) -> bool {
    flags & (1u16 << n) != 0
}

/// Setting bit `n` of a flag word sets exactly that bit and leaves every
/// other bit unchanged.
proof fn lemma_u16_set_bit(f: u16, n: u32, m: u32)
    by (bit_vector)
    requires
        n < 16,
        m < 16,
    ensures
        (f | (1u16 << n)) & (1u16 << n) != 0,
        m != n ==> ((f | (1u16 << n)) & (1u16 << m)) == (f & (1u16 << m)),
{
}

/// Clearing bit `n` of a flag word clears exactly that bit and leaves every
/// other bit unchanged.
proof fn lemma_u16_clear_bit(f: u16, n: u32, m: u32)
    by (bit_vector)
    requires
        n < 16,
        m < 16,
    ensures
        (f & !(1u16 << n)) & (1u16 << n) == 0,
        m != n ==> ((f & !(1u16 << n)) & (1u16 << m)) == (f & (1u16 << m)),
{
}

/// A zero flag word has no bit set, and a flag word with no bit set is
/// zero.
proof fn lemma_u16_zero_bits(f: u16)
    by (bit_vector)
    ensures
        forall|n: u32| n < 16 ==> ((0u16 & (1u16 << n)) == 0),
        f != 0 ==> f & (1u16 << 0u32) != 0 || f & (1u16 << 1u32) != 0 || f & (1u16 << 2u32) != 0
            || f & (1u16 << 3u32) != 0 || f & (1u16 << 4u32) != 0 || f & (1u16 << 5u32) != 0 || f
            & (1u16 << 6u32) != 0 || f & (1u16 << 7u32) != 0 || f & (1u16 << 8u32) != 0 || f
            & (1u16 << 9u32) != 0 || f & (1u16 << 10u32) != 0 || f & (1u16 << 11u32) != 0 || f
            & (1u16 << 12u32) != 0 || f & (1u16 << 13u32) != 0 || f & (1u16 << 14u32) != 0 || f
            & (1u16 << 15u32) != 0,
{
}

/// A group of up to sixteen [`Option`]s, with the discriminants packed into
/// a single `u16`.
pub struct OptionGroup16<T: Compound16> {
    v0: Option<T::U0>,
    v1: Option<T::U1>,
    v2: Option<T::U2>,
    v3: Option<T::U3>,
    v4: Option<T::U4>,
    v5: Option<T::U5>,
    v6: Option<T::U6>,
    v7: Option<T::U7>,
    v8: Option<T::U8>,
    v9: Option<T::U9>,
    va: Option<T::UA>,
    vb: Option<T::UB>,
    vc: Option<T::UC>,
    vd: Option<T::UD>,
    ve: Option<T::UE>,
    vf: Option<T::UF>,
    flags: u16,
}

impl<T: Compound16> OptionGroup16<T> {
    /// Whether the `n`th option in the group holds a value.
    pub closed spec fn slot_is_some(&self, n: u32) -> bool {
        if n == 0 {
            self.v0 is Some
        } else if n == 1 {
            self.v1 is Some
        } else if n == 2 {
            self.v2 is Some
        } else if n == 3 {
            self.v3 is Some
        } else if n == 4 {
            self.v4 is Some
        } else if n == 5 {
            self.v5 is Some
        } else if n == 6 {
            self.v6 is Some
        } else if n == 7 {
            self.v7 is Some
        } else if n == 8 {
            self.v8 is Some
        } else if n == 9 {
            self.v9 is Some
        } else if n == 10 {
            self.va is Some
        } else if n == 11 {
            self.vb is Some
        } else if n == 12 {
            self.vc is Some
        } else if n == 13 {
            self.vd is Some
        } else if n == 14 {
            self.ve is Some
        } else if n == 15 {
            self.vf is Some
        } else {
            false
        }
    }

    /// The group's internal invariant: each bit of the packed flag word is
    /// set exactly when the corresponding option holds a value.
    pub closed spec fn wf(&self) -> bool {
        forall|n: u32| n < 16 ==> bit16(self.flags, n) == self.slot_is_some(n)
    }

    /// Whether every option in the group is absent.
    pub open spec fn all_none(&self) -> bool {
        forall|n: u32| n < 16 ==> !self.slot_is_some(n)
    }

    /// Creates a new group with all options set to `None`.
    pub fn empty() -> (group: Self)
        ensures
            group.wf(),
            group.all_none(),
    {
        let group = OptionGroup16 {
            v0: None,
            v1: None,
            v2: None,
            v3: None,
            v4: None,
            v5: None,
            v6: None,
            v7: None,
            v8: None,
            v9: None,
            va: None,
            vb: None,
            vc: None,
            vd: None,
            ve: None,
            vf: None,
            flags: 0,
        };
        proof {
            lemma_u16_zero_bits(0);
        }
        group
    }

    /// Sets flag bit `n`; the caller is responsible for storing a value in
    /// the matching slot.
    fn set_flag(&mut self, n: u32)
        requires
            n < 16,
        ensures
            final(self).flags == old(self).flags | (1u16 << n),
            final(self).v0 == old(self).v0,
            final(self).v1 == old(self).v1,
            final(self).v2 == old(self).v2,
            final(self).v3 == old(self).v3,
            final(self).v4 == old(self).v4,
            final(self).v5 == old(self).v5,
            final(self).v6 == old(self).v6,
            final(self).v7 == old(self).v7,
            final(self).v8 == old(self).v8,
            final(self).v9 == old(self).v9,
            final(self).va == old(self).va,
            final(self).vb == old(self).vb,
            final(self).vc == old(self).vc,
            final(self).vd == old(self).vd,
            final(self).ve == old(self).ve,
            final(self).vf == old(self).vf,
    {
        self.flags = self.flags | (1u16 << n);
    }

    /// Clears flag bit `n`; the caller is responsible for vacating the
    /// matching slot.
    fn clear_flag(&mut self, n: u32)
        requires
            n < 16,
        ensures
            final(self).flags == old(self).flags & !(1u16 << n),
            final(self).v0 == old(self).v0,
            final(self).v1 == old(self).v1,
            final(self).v2 == old(self).v2,
            final(self).v3 == old(self).v3,
            final(self).v4 == old(self).v4,
            final(self).v5 == old(self).v5,
            final(self).v6 == old(self).v6,
            final(self).v7 == old(self).v7,
            final(self).v8 == old(self).v8,
            final(self).v9 == old(self).v9,
            final(self).va == old(self).va,
            final(self).vb == old(self).vb,
            final(self).vc == old(self).vc,
            final(self).vd == old(self).vd,
            final(self).ve == old(self).ve,
            final(self).vf == old(self).vf,
    {
        self.flags = self.flags & !(1u16 << n);
    }

    /// Returns `true` if all options in the group are `None` values.
    pub fn is_empty(&self) -> (empty: bool)
        requires
            self.wf(),
        ensures
            empty == self.all_none(),
    {
        proof {
            lemma_u16_zero_bits(self.flags);
            if self.flags == 0 {
                assert forall|n: u32| n < 16 implies !self.slot_is_some(n) by {
                    assert(bit16(self.flags, n) == self.slot_is_some(n));
                    assert((0u16 & (1u16 << n)) == 0);
                }
            } else {
                assert(bit16(self.flags, 0) || bit16(self.flags, 1) || bit16(self.flags, 2)
                    || bit16(self.flags, 3) || bit16(self.flags, 4) || bit16(self.flags, 5)
                    || bit16(self.flags, 6) || bit16(self.flags, 7) || bit16(self.flags, 8)
                    || bit16(self.flags, 9) || bit16(self.flags, 10) || bit16(self.flags, 11)
                    || bit16(self.flags, 12) || bit16(self.flags, 13) || bit16(self.flags, 14)
                    || bit16(self.flags, 15));
                assert(bit16(self.flags, 0) == self.slot_is_some(0));
                assert(bit16(self.flags, 1) == self.slot_is_some(1));
                assert(bit16(self.flags, 2) == self.slot_is_some(2));
                assert(bit16(self.flags, 3) == self.slot_is_some(3));
                assert(bit16(self.flags, 4) == self.slot_is_some(4));
                assert(bit16(self.flags, 5) == self.slot_is_some(5));
                assert(bit16(self.flags, 6) == self.slot_is_some(6));
                assert(bit16(self.flags, 7) == self.slot_is_some(7));
                assert(bit16(self.flags, 8) == self.slot_is_some(8));
                assert(bit16(self.flags, 9) == self.slot_is_some(9));
                assert(bit16(self.flags, 10) == self.slot_is_some(10));
                assert(bit16(self.flags, 11) == self.slot_is_some(11));
                assert(bit16(self.flags, 12) == self.slot_is_some(12));
                assert(bit16(self.flags, 13) == self.slot_is_some(13));
                assert(bit16(self.flags, 14) == self.slot_is_some(14));
                assert(bit16(self.flags, 15) == self.slot_is_some(15));
                assert(!self.all_none());
            }
        }
        self.flags == 0
    }

    /// Returns `true` if the `n`th option in the group is a `Some` value.
    pub fn is_some(&self, n: u32) -> (present: bool)
        requires
            self.wf(),
            n < 16,
        ensures
            present == self.slot_is_some(n),
    {
        proof {
            assert(bit16(self.flags, n) == self.slot_is_some(n));
        }
        self.flags & (1u16 << n) != 0
    }

    /// Returns `true` if the `n`th option in the group is a `None` value.
    pub fn is_none(&self, n: u32) -> (absent: bool)
        requires
            self.wf(),
            n < 16,
        ensures
            absent == !self.slot_is_some(n),
    {
        proof {
            assert(bit16(self.flags, n) == self.slot_is_some(n));
        }
        self.flags & (1u16 << n) == 0
    }
}

impl<T0, T1> OptionGroup16<(T0, T1)> {
    /// The first option in the group.
    pub closed spec fn spec_0(&self) -> Option<T0> {
        self.v0
    }

    /// The second option in the group.
    pub closed spec fn spec_1(&self) -> Option<T1> {
        self.v1
    }

    /// Equivalent to `pair_of_options.0.as_ref()`.
    pub fn get_0(&self) -> (r: Option<&T0>)
        requires
            self.wf(),
        ensures
            r is Some <==> self.spec_0() is Some,
            r matches Some(v) ==> self.spec_0() == Some(*v),
    {
        if self.is_none(0) {
            None
        } else {
            self.v0.as_ref()
        }
    }

    /// Equivalent to `pair_of_options.1.as_ref()`.
    pub fn get_1(&self) -> (r: Option<&T1>)
        requires
            self.wf(),
        ensures
            r is Some <==> self.spec_1() is Some,
            r matches Some(v) ==> self.spec_1() == Some(*v),
    {
        if self.is_none(1) {
            None
        } else {
            self.v1.as_ref()
        }
    }

    /// Equivalent to `pair_of_options.0.as_mut()`.
    pub fn get_mut_0(&mut self) -> (r: Option<&mut T0>)
        requires
            old(self).wf(),
        ensures
            final(self).wf(),
            r is Some <==> old(self).spec_0() is Some,
            r matches Some(v) ==> old(self).spec_0() == Some(*v) && final(self).spec_0() == Some(
                *final(v),
            ),
            r is None ==> *final(self) == *old(self),
            final(self).spec_1() == old(self).spec_1(),
    {
        if self.is_none(0) {
            None
        } else {
            self.v0.as_mut()
        }
    }

    /// Equivalent to `pair_of_options.1.as_mut()`.
    pub fn get_mut_1(&mut self) -> (r: Option<&mut T1>)
        requires
            old(self).wf(),
        ensures
            final(self).wf(),
            r is Some <==> old(self).spec_1() is Some,
            r matches Some(v) ==> old(self).spec_1() == Some(*v) && final(self).spec_1() == Some(
                *final(v),
            ),
            r is None ==> *final(self) == *old(self),
            final(self).spec_0() == old(self).spec_0(),
    {
        if self.is_none(1) {
            None
        } else {
            self.v1.as_mut()
        }
    }

    /// Equivalent to `pair_of_options.0.take()`.
    pub fn take_0(&mut self) -> (r: Option<T0>)
        requires
            old(self).wf(),
        ensures
            final(self).wf(),
            r == old(self).spec_0(),
            final(self).spec_0() is None,
            final(self).spec_1() == old(self).spec_1(),
    {
        if self.is_none(0) {
            None
        } else {
            self.clear_flag(0);
            let r = self.v0.take();
            proof {
                assert forall|m: u32| m < 16 implies bit16(self.flags, m) == self.slot_is_some(
                    m,
                ) by {
                    lemma_u16_clear_bit(old(self).flags, 0, m);
                    assert(bit16(old(self).flags, m) == old(self).slot_is_some(m));
                }
            }
            r
        }
    }

    /// Equivalent to `pair_of_options.1.take()`.
    pub fn take_1(&mut self) -> (r: Option<T1>)
        requires
            old(self).wf(),
        ensures
            final(self).wf(),
            r == old(self).spec_1(),
            final(self).spec_1() is None,
            final(self).spec_0() == old(self).spec_0(),
    {
        if self.is_none(1) {
            None
        } else {
            self.clear_flag(1);
            let r = self.v1.take();
            proof {
                assert forall|m: u32| m < 16 implies bit16(self.flags, m) == self.slot_is_some(
                    m,
                ) by {
                    lemma_u16_clear_bit(old(self).flags, 1, m);
                    assert(bit16(old(self).flags, m) == old(self).slot_is_some(m));
                }
            }
            r
        }
    }

    /// Equivalent to `pair_of_options.0.replace(value)`.
    pub fn replace_0(&mut self, value: T0) -> (r: Option<T0>)
        requires
            old(self).wf(),
        ensures
            final(self).wf(),
            r == old(self).spec_0(),
            final(self).spec_0() == Some(value),
            final(self).spec_1() == old(self).spec_1(),
    {
        let previous = self.take_0();
        let ghost taken = *self;
        self.v0 = Some(value);
        self.set_flag(0);
        proof {
            assert forall|m: u32| m < 16 implies bit16(self.flags, m) == self.slot_is_some(m) by {
                lemma_u16_set_bit(taken.flags, 0, m);
                assert(bit16(taken.flags, m) == taken.slot_is_some(m));
            }
        }
        previous
    }

    /// Equivalent to `pair_of_options.1.replace(value)`.
    pub fn replace_1(&mut self, value: T1) -> (r: Option<T1>)
        requires
            old(self).wf(),
        ensures
            final(self).wf(),
            r == old(self).spec_1(),
            final(self).spec_1() == Some(value),
            final(self).spec_0() == old(self).spec_0(),
    {
        let previous = self.take_1();
        let ghost taken = *self;
        self.v1 = Some(value);
        self.set_flag(1);
        proof {
            assert forall|m: u32| m < 16 implies bit16(self.flags, m) == self.slot_is_some(m) by {
                lemma_u16_set_bit(taken.flags, 1, m);
                assert(bit16(taken.flags, m) == taken.slot_is_some(m));
            }
        }
        previous
    }
}

impl<T: Compound16> Default for OptionGroup16<T> {
    /// An empty group, with all options set to `None`.
    fn default() -> (group: Self)
        ensures
            group.wf(),
            group.all_none(),
    {
        Self::empty()
    }
}

} // verus!
