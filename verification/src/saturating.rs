use std::ops::Add;
use vstd::prelude::*;
use vstd::std_specs::cmp::PartialEqSpecImpl;
use vstd::std_specs::convert::FromSpecImpl;
use vstd::std_specs::convert::FromSpec;
use vstd::std_specs::ops::{AddSpec, AddSpecImpl};

verus! {


/// A `u16` whose additions stop at `u16::MAX` instead of overflowing.
#[derive(Copy, Clone, Debug)]
pub struct SaturatingU16 {
    value: u16,
}

/// The sum of `a` and `b`, or `u16::MAX` where the sum does not fit in a `u16`.
pub open spec fn saturating_sum(a: u16, b: u16) -> u16 {
    if a + b > u16::MAX {
        u16::MAX
    } else {
        (a + b) as u16
    }
}

impl SaturatingU16 {
    /// The number held.
    pub closed spec fn value_view(&self) -> u16 {
        self.value
    }

    /// The saturating number that holds `v`.
    pub closed spec fn holding(v: u16) -> SaturatingU16 {
        SaturatingU16 { value: v }
    }

    /// `holding(v)` holds `v`, and a saturating number is determined by the
    /// number it holds.
    pub broadcast proof fn lemma_holding(v: u16, s: SaturatingU16)
        ensures
            #[trigger] Self::holding(v).value_view() == v,
            (#[trigger] s.value_view() == v) ==> s == Self::holding(v),
    {
    }

    /// The number held.
    pub fn value(&self) -> (v: u16)
        ensures
            v == self.value_view(),
    {
        self.value
    }
}

impl From<u16> for SaturatingU16 {
    fn from(num: u16) -> (s: Self)
        ensures
            s.value_view() == num,
    {
        Self { value: num }
    }
}

impl FromSpecImpl<u16> for SaturatingU16 {
    open spec fn obeys_from_spec() -> bool {
        true
    }

    open spec fn from_spec(v: u16) -> Self {
        SaturatingU16::holding(v)
    }
}

impl From<&u16> for SaturatingU16 {
    fn from(num: &u16) -> (s: Self)
        ensures
            s.value_view() == *num,
    {
        Self { value: *num }
    }
}

impl FromSpecImpl<&u16> for SaturatingU16 {
    open spec fn obeys_from_spec() -> bool {
        true
    }

    open spec fn from_spec(v: &u16) -> Self {
        SaturatingU16::holding(*v)
    }
}

impl From<u8> for SaturatingU16 {
    fn from(num: u8) -> (s: Self)
        ensures
            s.value_view() == num as u16,
    {
        Self { value: num as u16 }
    }
}

impl FromSpecImpl<u8> for SaturatingU16 {
    open spec fn obeys_from_spec() -> bool {
        true
    }

    open spec fn from_spec(v: u8) -> Self {
        SaturatingU16::holding(v as u16)
    }
}

impl From<&u8> for SaturatingU16 {
    fn from(num: &u8) -> (s: Self)
        ensures
            s.value_view() == *num as u16,
    {
        Self { value: *num as u16 }
    }
}

impl FromSpecImpl<&u8> for SaturatingU16 {
    open spec fn obeys_from_spec() -> bool {
        true
    }

    open spec fn from_spec(v: &u8) -> Self {
        SaturatingU16::holding(*v as u16)
    }
}

impl Add for SaturatingU16 {
    type Output = SaturatingU16;

    fn add(self, num: Self) -> (s: Self)
        ensures
            s.value_view() == saturating_sum(self.value_view(), num.value_view()),
    {
        Self { value: self.value.saturating_add(num.value) }
    }
}

impl AddSpecImpl for SaturatingU16 {
    open spec fn obeys_add_spec() -> bool {
        true
    }

    open spec fn add_req(self, rhs: SaturatingU16) -> bool {
        true
    }

    open spec fn add_spec(self, rhs: SaturatingU16) -> SaturatingU16 {
        SaturatingU16::holding(saturating_sum(self.value_view(), rhs.value_view()))
    }
}

impl Add<&SaturatingU16> for SaturatingU16 {
    type Output = SaturatingU16;

    fn add(self, other: &Self) -> (s: Self)
        ensures
            s.value_view() == saturating_sum(self.value_view(), other.value_view()),
    {
        Self { value: self.value.saturating_add((*other).value) }
    }
}

impl AddSpecImpl<&SaturatingU16> for SaturatingU16 {
    open spec fn obeys_add_spec() -> bool {
        true
    }

    open spec fn add_req(self, rhs: &SaturatingU16) -> bool {
        true
    }

    open spec fn add_spec(self, rhs: &SaturatingU16) -> SaturatingU16 {
        SaturatingU16::holding(saturating_sum(self.value_view(), rhs.value_view()))
    }
}

impl Add<u16> for SaturatingU16 {
    type Output = u16;

    fn add(self, num: u16) -> (r: u16)
        ensures
            r == saturating_sum(self.value_view(), num),
    {
        self.value.saturating_add(num)
    }
}

impl AddSpecImpl<u16> for SaturatingU16 {
    open spec fn obeys_add_spec() -> bool {
        true
    }

    open spec fn add_req(self, rhs: u16) -> bool {
        true
    }

    open spec fn add_spec(self, rhs: u16) -> u16 {
        saturating_sum(self.value_view(), rhs)
    }
}

impl Add<&u16> for SaturatingU16 {
    type Output = u16;

    fn add(self, num: &u16) -> (r: u16)
        ensures
            r == saturating_sum(self.value_view(), *num),
    {
        self.value.saturating_add(*num)
    }
}

impl AddSpecImpl<&u16> for SaturatingU16 {
    open spec fn obeys_add_spec() -> bool {
        true
    }

    open spec fn add_req(self, rhs: &u16) -> bool {
        true
    }

    open spec fn add_spec(self, rhs: &u16) -> u16 {
        saturating_sum(self.value_view(), *rhs)
    }
}

impl PartialEq for SaturatingU16 {
    fn eq(&self, other: &Self) -> (r: bool)
        ensures
            r == (self.value_view() == other.value_view()),
    {
        self.value == other.value
    }
}

impl PartialEqSpecImpl for SaturatingU16 {
    open spec fn obeys_eq_spec() -> bool {
        true
    }

    open spec fn eq_spec(&self, other: &SaturatingU16) -> bool {
        self.value_view() == other.value_view()
    }
}

impl PartialEq<u16> for SaturatingU16 {
    fn eq(&self, other: &u16) -> (r: bool)
        ensures
            r == (self.value_view() == *other),
    {
        self.value == *other
    }
}

impl PartialEqSpecImpl<u16> for SaturatingU16 {
    open spec fn obeys_eq_spec() -> bool {
        true
    }

    open spec fn eq_spec(&self, other: &u16) -> bool {
        self.value_view() == *other
    }
}

/// Adding two saturating numbers, or a saturating number and a `u16` (owned
/// or borrowed), gives their sum, or `u16::MAX` where the sum does not fit;
/// the sum does not depend on the order of the operands nor on whether the
/// right operand is borrowed or a plain `u16`.
pub proof fn law_saturating_add(a: SaturatingU16, b: SaturatingU16, n: u16)
    ensures
        <SaturatingU16 as AddSpec<u16>>::add_spec(a, n) == saturating_sum(a.value_view(), n),
        <SaturatingU16 as AddSpec<&u16>>::add_spec(a, &n) == saturating_sum(a.value_view(), n),
        <SaturatingU16 as AddSpec<u16>>::add_spec(a, b.value_view()) == <SaturatingU16 as AddSpec<
            SaturatingU16,
        >>::add_spec(a, b).value_view(),
        <SaturatingU16 as AddSpec<SaturatingU16>>::add_spec(a, b).value_view() == saturating_sum(
            a.value_view(),
            b.value_view(),
        ),
        <SaturatingU16 as AddSpec<SaturatingU16>>::add_spec(a, b) == <SaturatingU16 as AddSpec<
            SaturatingU16,
        >>::add_spec(b, a),
        <SaturatingU16 as AddSpec<SaturatingU16>>::add_spec(a, b) == <SaturatingU16 as AddSpec<
            &SaturatingU16,
        >>::add_spec(a, &b),
        a.value_view() + b.value_view() >= u16::MAX ==> <SaturatingU16 as AddSpec<
            SaturatingU16,
        >>::add_spec(a, b).value_view() == u16::MAX,
{
}

/// A saturating number made from a `u8`, a `&u8`, a `u16` or a `&u16` holds
/// that number.
pub proof fn law_from_keeps_value(x: u8, y: u16)
    ensures
        <SaturatingU16 as FromSpec<u8>>::from_spec(x).value_view() == x as u16,
        <SaturatingU16 as FromSpec<&u8>>::from_spec(&x).value_view() == x as u16,
        <SaturatingU16 as FromSpec<u16>>::from_spec(y).value_view() == y,
        <SaturatingU16 as FromSpec<&u16>>::from_spec(&y).value_view() == y,
        <SaturatingU16 as FromSpec<u8>>::from_spec(x) == <SaturatingU16 as FromSpec<u16>>::from_spec(
            x as u16,
        ),
{
}

/// Saturating addition is ordinary addition as long as the sum fits in a
/// `u16`, and `u16::MAX` otherwise, whichever form the right operand takes.
pub proof fn law_sum_is_exact_below_max(a: SaturatingU16, b: SaturatingU16, n: u16)
    ensures
        a.value_view() + b.value_view() <= u16::MAX ==> <SaturatingU16 as AddSpec<
            SaturatingU16,
        >>::add_spec(a, b).value_view() == a.value_view() + b.value_view(),
        a.value_view() + b.value_view() <= u16::MAX ==> <SaturatingU16 as AddSpec<
            &SaturatingU16,
        >>::add_spec(a, &b).value_view() == a.value_view() + b.value_view(),
        a.value_view() + b.value_view() > u16::MAX ==> <SaturatingU16 as AddSpec<
            SaturatingU16,
        >>::add_spec(a, b).value_view() == u16::MAX,
        a.value_view() + n <= u16::MAX ==> <SaturatingU16 as AddSpec<u16>>::add_spec(a, n)
            == a.value_view() + n,
        a.value_view() + n <= u16::MAX ==> <SaturatingU16 as AddSpec<&u16>>::add_spec(a, &n)
            == a.value_view() + n,
        a.value_view() + n > u16::MAX ==> <SaturatingU16 as AddSpec<u16>>::add_spec(a, n)
            == u16::MAX,
        a.value_view() + n > u16::MAX ==> <SaturatingU16 as AddSpec<&u16>>::add_spec(a, &n)
            == u16::MAX,
        forall|x: u16, y: u16|
            #[trigger] saturating_sum(x, y) == if x + y <= u16::MAX {
                x + y
            } else {
                u16::MAX as int
            },
{
}

/// What the contracts of the conversions and additions say through
/// `holding`, made visible wherever this group is used.
pub broadcast group group_saturating {
    SaturatingU16::lemma_holding,
}

} // verus!
