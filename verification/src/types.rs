//! The five fixed-point quantities that the pool works with.
//!
//! Every quantity is a decimal value carried as an unsigned integer scaled
//! by [`SCALE`]. The five kinds share one representation and one arithmetic,
//! yet each is a type of its own, so that a staked amount is never taken for
//! a token amount without a conversion through a price.
//!
//! The view of a quantity is its raw scaled integer as a natural number.

use core::cmp::Ordering;
use core::ops::{Add, Div, Mul, Sub};
use vstd::prelude::*;
use vstd::std_specs::cmp::PartialOrdSpecImpl;
use vstd::std_specs::ops::{AddSpecImpl, DivSpecImpl, MulSpecImpl, SubSpecImpl};

use crate::fixed_point::{
    div_scaled, lemma_less_fee_bounded, lemma_product_fits, less_fee, mul_scaled, scaled_div,
    scaled_mul, Uint, SCALE,
};

verus! {

/// Token amount in fixed-point decimal format.
#[derive(Debug, Clone, Copy, PartialEq, Eq, Structural)]
pub struct TokenAmount(Uint);

impl View for TokenAmount {
    type V = nat;

    closed spec fn view(&self) -> nat {
        self.0 as nat
    }
}

impl TokenAmount {
    /// The token amount of raw value `raw`, which is to fit the integer width.
    pub closed spec fn of_raw(raw: nat) -> Self {
        TokenAmount(raw as Uint)
    }

    /// A token amount is known by its raw value, which fits the integer width.
    pub broadcast proof fn lemma_view(self)
        ensures
            #[trigger] self@ <= Uint::MAX,
            Self::of_raw(self@) == self,
    {
    }

    /// `of_raw` builds the token amount with the given raw value.
    pub broadcast proof fn lemma_of_raw(raw: nat)
        requires
            raw <= Uint::MAX,
        ensures
            #[trigger] Self::of_raw(raw)@ == raw,
    {
    }

    /// Wraps a value given in minimal precision units.
    pub fn from_raw_amount(value: Uint) -> (r: Self)
        ensures
            r@ == value,
            r == Self::of_raw(value as nat),
    {
        Self(value)
    }

    /// Returns the raw fixed-point value.
    pub fn raw(&self) -> (r: Uint)
        ensures
            r == self@,
    {
        self.0
    }

    /// Converts a count of whole units, which must fit once scaled.
    pub fn from(value: Uint) -> (r: Self)
        requires
            value * SCALE <= Uint::MAX,
        ensures
            r@ == value * SCALE,
    {
        Self(value * SCALE)
    }

    /// Subtracts `rhs`, or returns `None` where `rhs` is the larger.
    pub fn checked_sub(self, rhs: Self) -> (r: Option<Self>)
        ensures
            match r {
                Some(d) => rhs@ <= self@ && d@ == self@ - rhs@,
                None => rhs@ > self@,
            },
    {
        if rhs.0 <= self.0 {
            Some(Self(self.0 - rhs.0))
        } else {
            None
        }
    }

    /// Takes the percentage `fee` off this amount, truncating.
    pub fn apply_fee(&self, fee: Percentage) -> (r: TokenAmount)
        requires
            fee@ <= SCALE,
        ensures
            r@ == less_fee(self@, fee@),
            r@ <= self@,
    {
        proof {
            lemma_less_fee_bounded(self@, fee@);
        }
        TokenAmount(mul_scaled(self.0, SCALE - fee.raw()))
    }
}

impl SubSpecImpl for TokenAmount {
    open spec fn obeys_sub_spec() -> bool {
        true
    }

    open spec fn sub_req(self, rhs: Self) -> bool {
        rhs@ <= self@
    }

    open spec fn sub_spec(self, rhs: Self) -> Self {
        Self::of_raw((self@ - rhs@) as nat)
    }
}

impl Sub for TokenAmount {
    type Output = Self;

    /// Difference of the raw values; the subtrahend may not be the larger.
    fn sub(self, rhs: Self) -> (r: Self)
        ensures
            r@ == self@ - rhs@,
    {
        Self(self.0 - rhs.0)
    }
}

impl AddSpecImpl for TokenAmount {
    open spec fn obeys_add_spec() -> bool {
        true
    }

    open spec fn add_req(self, rhs: Self) -> bool {
        self@ + rhs@ <= Uint::MAX
    }

    open spec fn add_spec(self, rhs: Self) -> Self {
        Self::of_raw(self@ + rhs@)
    }
}

impl Add for TokenAmount {
    type Output = Self;

    /// Sum of the raw values, which must fit the integer width.
    fn add(self, rhs: Self) -> (r: Self)
        ensures
            r@ == self@ + rhs@,
    {
        Self(self.0 + rhs.0)
    }
}

impl DivSpecImpl for TokenAmount {
    open spec fn obeys_div_spec() -> bool {
        true
    }

    open spec fn div_req(self, rhs: Self) -> bool {
        rhs@ > 0 && scaled_div(self@, rhs@) <= Uint::MAX
    }

    open spec fn div_spec(self, rhs: Self) -> Self {
        Self::of_raw(scaled_div(self@, rhs@))
    }
}

impl Div for TokenAmount {
    type Output = Self;

    /// Fixed-point quotient, truncated; the divisor may not be zero and the
    /// quotient must fit the integer width.
    fn div(self, rhs: Self) -> (r: Self)
        ensures
            r@ == scaled_div(self@, rhs@),
    {
        Self(div_scaled(self.0, rhs.0))
    }
}

impl MulSpecImpl for TokenAmount {
    open spec fn obeys_mul_spec() -> bool {
        true
    }

    open spec fn mul_req(self, rhs: Self) -> bool {
        scaled_mul(self@, rhs@) <= Uint::MAX
    }

    open spec fn mul_spec(self, rhs: Self) -> Self {
        Self::of_raw(scaled_mul(self@, rhs@))
    }
}

impl Mul for TokenAmount {
    type Output = Self;

    /// Fixed-point product, truncated, which must fit the integer width.
    fn mul(self, rhs: Self) -> (r: Self)
        ensures
            r@ == scaled_mul(self@, rhs@),
    {
        Self(mul_scaled(self.0, rhs.0))
    }
}

impl PartialOrdSpecImpl for TokenAmount {
    open spec fn obeys_partial_cmp_spec() -> bool {
        true
    }

    open spec fn partial_cmp_spec(&self, other: &Self) -> Option<Ordering> {
        if self@ < other@ {
            Some(Ordering::Less)
        } else if self@ == other@ {
            Some(Ordering::Equal)
        } else {
            Some(Ordering::Greater)
        }
    }
}

impl PartialOrd for TokenAmount {
    /// Orders two quantities of this kind by their raw values.
    fn partial_cmp(&self, other: &Self) -> (r: Option<Ordering>) {
        if self.0 < other.0 {
            Some(Ordering::Less)
        } else if self.0 == other.0 {
            Some(Ordering::Equal)
        } else {
            Some(Ordering::Greater)
        }
    }
}

/// Staked token amount in fixed-point decimal format.
#[derive(Debug, Clone, Copy, PartialEq, Eq, Structural)]
pub struct StakedTokenAmount(Uint);

impl View for StakedTokenAmount {
    type V = nat;

    closed spec fn view(&self) -> nat {
        self.0 as nat
    }
}

impl StakedTokenAmount {
    /// The staked token amount of raw value `raw`, which is to fit the integer width.
    pub closed spec fn of_raw(raw: nat) -> Self {
        StakedTokenAmount(raw as Uint)
    }

    /// A staked token amount is known by its raw value, which fits the integer width.
    pub broadcast proof fn lemma_view(self)
        ensures
            #[trigger] self@ <= Uint::MAX,
            Self::of_raw(self@) == self,
    {
    }

    /// `of_raw` builds the staked token amount with the given raw value.
    pub broadcast proof fn lemma_of_raw(raw: nat)
        requires
            raw <= Uint::MAX,
        ensures
            #[trigger] Self::of_raw(raw)@ == raw,
    {
    }

    /// Wraps a value given in minimal precision units.
    pub fn from_raw_amount(value: Uint) -> (r: Self)
        ensures
            r@ == value,
            r == Self::of_raw(value as nat),
    {
        Self(value)
    }

    /// Returns the raw fixed-point value.
    pub fn raw(&self) -> (r: Uint)
        ensures
            r == self@,
    {
        self.0
    }

    /// Converts a count of whole units, which must fit once scaled.
    pub fn from(value: Uint) -> (r: Self)
        requires
            value * SCALE <= Uint::MAX,
        ensures
            r@ == value * SCALE,
    {
        Self(value * SCALE)
    }

    /// Subtracts `rhs`, or returns `None` where `rhs` is the larger.
    pub fn checked_sub(self, rhs: Self) -> (r: Option<Self>)
        ensures
            match r {
                Some(d) => rhs@ <= self@ && d@ == self@ - rhs@,
                None => rhs@ > self@,
            },
    {
        if rhs.0 <= self.0 {
            Some(Self(self.0 - rhs.0))
        } else {
            None
        }
    }

    /// Values this staked amount in tokens at `price`, truncating. The value
    /// must fit the integer width.
    pub fn into_token_amount(self, price: Price) -> (r: TokenAmount)
        requires
            scaled_mul(self@, price@) <= Uint::MAX,
        ensures
            r@ == scaled_mul(self@, price@),
    {
        TokenAmount::from_raw_amount(mul_scaled(self.0, price.raw()))
    }
}

impl SubSpecImpl for StakedTokenAmount {
    open spec fn obeys_sub_spec() -> bool {
        true
    }

    open spec fn sub_req(self, rhs: Self) -> bool {
        rhs@ <= self@
    }

    open spec fn sub_spec(self, rhs: Self) -> Self {
        Self::of_raw((self@ - rhs@) as nat)
    }
}

impl Sub for StakedTokenAmount {
    type Output = Self;

    /// Difference of the raw values; the subtrahend may not be the larger.
    fn sub(self, rhs: Self) -> (r: Self)
        ensures
            r@ == self@ - rhs@,
    {
        Self(self.0 - rhs.0)
    }
}

impl AddSpecImpl for StakedTokenAmount {
    open spec fn obeys_add_spec() -> bool {
        true
    }

    open spec fn add_req(self, rhs: Self) -> bool {
        self@ + rhs@ <= Uint::MAX
    }

    open spec fn add_spec(self, rhs: Self) -> Self {
        Self::of_raw(self@ + rhs@)
    }
}

impl Add for StakedTokenAmount {
    type Output = Self;

    /// Sum of the raw values, which must fit the integer width.
    fn add(self, rhs: Self) -> (r: Self)
        ensures
            r@ == self@ + rhs@,
    {
        Self(self.0 + rhs.0)
    }
}

impl DivSpecImpl for StakedTokenAmount {
    open spec fn obeys_div_spec() -> bool {
        true
    }

    open spec fn div_req(self, rhs: Self) -> bool {
        rhs@ > 0 && scaled_div(self@, rhs@) <= Uint::MAX
    }

    open spec fn div_spec(self, rhs: Self) -> Self {
        Self::of_raw(scaled_div(self@, rhs@))
    }
}

impl Div for StakedTokenAmount {
    type Output = Self;

    /// Fixed-point quotient, truncated; the divisor may not be zero and the
    /// quotient must fit the integer width.
    fn div(self, rhs: Self) -> (r: Self)
        ensures
            r@ == scaled_div(self@, rhs@),
    {
        Self(div_scaled(self.0, rhs.0))
    }
}

impl MulSpecImpl for StakedTokenAmount {
    open spec fn obeys_mul_spec() -> bool {
        true
    }

    open spec fn mul_req(self, rhs: Self) -> bool {
        scaled_mul(self@, rhs@) <= Uint::MAX
    }

    open spec fn mul_spec(self, rhs: Self) -> Self {
        Self::of_raw(scaled_mul(self@, rhs@))
    }
}

impl Mul for StakedTokenAmount {
    type Output = Self;

    /// Fixed-point product, truncated, which must fit the integer width.
    fn mul(self, rhs: Self) -> (r: Self)
        ensures
            r@ == scaled_mul(self@, rhs@),
    {
        Self(mul_scaled(self.0, rhs.0))
    }
}

impl PartialOrdSpecImpl for StakedTokenAmount {
    open spec fn obeys_partial_cmp_spec() -> bool {
        true
    }

    open spec fn partial_cmp_spec(&self, other: &Self) -> Option<Ordering> {
        if self@ < other@ {
            Some(Ordering::Less)
        } else if self@ == other@ {
            Some(Ordering::Equal)
        } else {
            Some(Ordering::Greater)
        }
    }
}

impl PartialOrd for StakedTokenAmount {
    /// Orders two quantities of this kind by their raw values.
    fn partial_cmp(&self, other: &Self) -> (r: Option<Ordering>) {
        if self.0 < other.0 {
            Some(Ordering::Less)
        } else if self.0 == other.0 {
            Some(Ordering::Equal)
        } else {
            Some(Ordering::Greater)
        }
    }
}

/// LP token amount in fixed-point decimal format.
#[derive(Debug, Clone, Copy, PartialEq, Eq, Structural)]
pub struct LpTokenAmount(Uint);

impl View for LpTokenAmount {
    type V = nat;

    closed spec fn view(&self) -> nat {
        self.0 as nat
    }
}

impl LpTokenAmount {
    /// The LP token amount of raw value `raw`, which is to fit the integer width.
    pub closed spec fn of_raw(raw: nat) -> Self {
        LpTokenAmount(raw as Uint)
    }

    /// A LP token amount is known by its raw value, which fits the integer width.
    pub broadcast proof fn lemma_view(self)
        ensures
            #[trigger] self@ <= Uint::MAX,
            Self::of_raw(self@) == self,
    {
    }

    /// `of_raw` builds the LP token amount with the given raw value.
    pub broadcast proof fn lemma_of_raw(raw: nat)
        requires
            raw <= Uint::MAX,
        ensures
            #[trigger] Self::of_raw(raw)@ == raw,
    {
    }

    /// Wraps a value given in minimal precision units.
    pub fn from_raw_amount(value: Uint) -> (r: Self)
        ensures
            r@ == value,
            r == Self::of_raw(value as nat),
    {
        Self(value)
    }

    /// Returns the raw fixed-point value.
    pub fn raw(&self) -> (r: Uint)
        ensures
            r == self@,
    {
        self.0
    }

    /// Converts a count of whole units, which must fit once scaled.
    pub fn from(value: Uint) -> (r: Self)
        requires
            value * SCALE <= Uint::MAX,
        ensures
            r@ == value * SCALE,
    {
        Self(value * SCALE)
    }

    /// Subtracts `rhs`, or returns `None` where `rhs` is the larger.
    pub fn checked_sub(self, rhs: Self) -> (r: Option<Self>)
        ensures
            match r {
                Some(d) => rhs@ <= self@ && d@ == self@ - rhs@,
                None => rhs@ > self@,
            },
    {
        if rhs.0 <= self.0 {
            Some(Self(self.0 - rhs.0))
        } else {
            None
        }
    }

    /// The part of `lp_tokens_total` that `token_amount` is of `token_total`:
    /// the total times the fixed-point ratio of the two, each step truncated.
    /// `token_total` may not be zero and the result must fit the integer width.
    pub fn from_token_amount(
        token_amount: TokenAmount,
        token_total: TokenAmount,
        lp_tokens_total: LpTokenAmount,
    ) -> (r: Self)
        requires
            token_total@ > 0,
            scaled_mul(lp_tokens_total@, scaled_div(token_amount@, token_total@)) <= Uint::MAX,
        ensures
            r@ == scaled_mul(lp_tokens_total@, scaled_div(token_amount@, token_total@)),
    {
        let total = token_total.raw();
        let ratio: u128 = (token_amount.raw() as u128) * (SCALE as u128) / (total as u128);
        proof {
            lemma_product_fits(lp_tokens_total@, ratio as nat);
        }
        let scaled: u128 = (lp_tokens_total.0 as u128) * ratio / (SCALE as u128);
        Self(scaled as Uint)
    }
}

impl SubSpecImpl for LpTokenAmount {
    open spec fn obeys_sub_spec() -> bool {
        true
    }

    open spec fn sub_req(self, rhs: Self) -> bool {
        rhs@ <= self@
    }

    open spec fn sub_spec(self, rhs: Self) -> Self {
        Self::of_raw((self@ - rhs@) as nat)
    }
}

impl Sub for LpTokenAmount {
    type Output = Self;

    /// Difference of the raw values; the subtrahend may not be the larger.
    fn sub(self, rhs: Self) -> (r: Self)
        ensures
            r@ == self@ - rhs@,
    {
        Self(self.0 - rhs.0)
    }
}

impl AddSpecImpl for LpTokenAmount {
    open spec fn obeys_add_spec() -> bool {
        true
    }

    open spec fn add_req(self, rhs: Self) -> bool {
        self@ + rhs@ <= Uint::MAX
    }

    open spec fn add_spec(self, rhs: Self) -> Self {
        Self::of_raw(self@ + rhs@)
    }
}

impl Add for LpTokenAmount {
    type Output = Self;

    /// Sum of the raw values, which must fit the integer width.
    fn add(self, rhs: Self) -> (r: Self)
        ensures
            r@ == self@ + rhs@,
    {
        Self(self.0 + rhs.0)
    }
}

impl DivSpecImpl for LpTokenAmount {
    open spec fn obeys_div_spec() -> bool {
        true
    }

    open spec fn div_req(self, rhs: Self) -> bool {
        rhs@ > 0 && scaled_div(self@, rhs@) <= Uint::MAX
    }

    open spec fn div_spec(self, rhs: Self) -> Self {
        Self::of_raw(scaled_div(self@, rhs@))
    }
}

impl Div for LpTokenAmount {
    type Output = Self;

    /// Fixed-point quotient, truncated; the divisor may not be zero and the
    /// quotient must fit the integer width.
    fn div(self, rhs: Self) -> (r: Self)
        ensures
            r@ == scaled_div(self@, rhs@),
    {
        Self(div_scaled(self.0, rhs.0))
    }
}

impl MulSpecImpl for LpTokenAmount {
    open spec fn obeys_mul_spec() -> bool {
        true
    }

    open spec fn mul_req(self, rhs: Self) -> bool {
        scaled_mul(self@, rhs@) <= Uint::MAX
    }

    open spec fn mul_spec(self, rhs: Self) -> Self {
        Self::of_raw(scaled_mul(self@, rhs@))
    }
}

impl Mul for LpTokenAmount {
    type Output = Self;

    /// Fixed-point product, truncated, which must fit the integer width.
    fn mul(self, rhs: Self) -> (r: Self)
        ensures
            r@ == scaled_mul(self@, rhs@),
    {
        Self(mul_scaled(self.0, rhs.0))
    }
}

impl PartialOrdSpecImpl for LpTokenAmount {
    open spec fn obeys_partial_cmp_spec() -> bool {
        true
    }

    open spec fn partial_cmp_spec(&self, other: &Self) -> Option<Ordering> {
        if self@ < other@ {
            Some(Ordering::Less)
        } else if self@ == other@ {
            Some(Ordering::Equal)
        } else {
            Some(Ordering::Greater)
        }
    }
}

impl PartialOrd for LpTokenAmount {
    /// Orders two quantities of this kind by their raw values.
    fn partial_cmp(&self, other: &Self) -> (r: Option<Ordering>) {
        if self.0 < other.0 {
            Some(Ordering::Less)
        } else if self.0 == other.0 {
            Some(Ordering::Equal)
        } else {
            Some(Ordering::Greater)
        }
    }
}

/// Price of a staked token in tokens, in fixed-point decimal format.
#[derive(Debug, Clone, Copy, PartialEq, Eq, Structural)]
pub struct Price(Uint);

impl View for Price {
    type V = nat;

    closed spec fn view(&self) -> nat {
        self.0 as nat
    }
}

impl Price {
    /// The price of raw value `raw`, which is to fit the integer width.
    pub closed spec fn of_raw(raw: nat) -> Self {
        Price(raw as Uint)
    }

    /// A price is known by its raw value, which fits the integer width.
    pub broadcast proof fn lemma_view(self)
        ensures
            #[trigger] self@ <= Uint::MAX,
            Self::of_raw(self@) == self,
    {
    }

    /// `of_raw` builds the price with the given raw value.
    pub broadcast proof fn lemma_of_raw(raw: nat)
        requires
            raw <= Uint::MAX,
        ensures
            #[trigger] Self::of_raw(raw)@ == raw,
    {
    }

    /// Wraps a value given in minimal precision units.
    pub fn from_raw_amount(value: Uint) -> (r: Self)
        ensures
            r@ == value,
            r == Self::of_raw(value as nat),
    {
        Self(value)
    }

    /// Returns the raw fixed-point value.
    pub fn raw(&self) -> (r: Uint)
        ensures
            r == self@,
    {
        self.0
    }

    /// Converts a count of whole units, which must fit once scaled.
    pub fn from(value: Uint) -> (r: Self)
        requires
            value * SCALE <= Uint::MAX,
        ensures
            r@ == value * SCALE,
    {
        Self(value * SCALE)
    }

    /// Subtracts `rhs`, or returns `None` where `rhs` is the larger.
    pub fn checked_sub(self, rhs: Self) -> (r: Option<Self>)
        ensures
            match r {
                Some(d) => rhs@ <= self@ && d@ == self@ - rhs@,
                None => rhs@ > self@,
            },
    {
        if rhs.0 <= self.0 {
            Some(Self(self.0 - rhs.0))
        } else {
            None
        }
    }
}

impl SubSpecImpl for Price {
    open spec fn obeys_sub_spec() -> bool {
        true
    }

    open spec fn sub_req(self, rhs: Self) -> bool {
        rhs@ <= self@
    }

    open spec fn sub_spec(self, rhs: Self) -> Self {
        Self::of_raw((self@ - rhs@) as nat)
    }
}

impl Sub for Price {
    type Output = Self;

    /// Difference of the raw values; the subtrahend may not be the larger.
    fn sub(self, rhs: Self) -> (r: Self)
        ensures
            r@ == self@ - rhs@,
    {
        Self(self.0 - rhs.0)
    }
}

impl AddSpecImpl for Price {
    open spec fn obeys_add_spec() -> bool {
        true
    }

    open spec fn add_req(self, rhs: Self) -> bool {
        self@ + rhs@ <= Uint::MAX
    }

    open spec fn add_spec(self, rhs: Self) -> Self {
        Self::of_raw(self@ + rhs@)
    }
}

impl Add for Price {
    type Output = Self;

    /// Sum of the raw values, which must fit the integer width.
    fn add(self, rhs: Self) -> (r: Self)
        ensures
            r@ == self@ + rhs@,
    {
        Self(self.0 + rhs.0)
    }
}

impl DivSpecImpl for Price {
    open spec fn obeys_div_spec() -> bool {
        true
    }

    open spec fn div_req(self, rhs: Self) -> bool {
        rhs@ > 0 && scaled_div(self@, rhs@) <= Uint::MAX
    }

    open spec fn div_spec(self, rhs: Self) -> Self {
        Self::of_raw(scaled_div(self@, rhs@))
    }
}

impl Div for Price {
    type Output = Self;

    /// Fixed-point quotient, truncated; the divisor may not be zero and the
    /// quotient must fit the integer width.
    fn div(self, rhs: Self) -> (r: Self)
        ensures
            r@ == scaled_div(self@, rhs@),
    {
        Self(div_scaled(self.0, rhs.0))
    }
}

impl MulSpecImpl for Price {
    open spec fn obeys_mul_spec() -> bool {
        true
    }

    open spec fn mul_req(self, rhs: Self) -> bool {
        scaled_mul(self@, rhs@) <= Uint::MAX
    }

    open spec fn mul_spec(self, rhs: Self) -> Self {
        Self::of_raw(scaled_mul(self@, rhs@))
    }
}

impl Mul for Price {
    type Output = Self;

    /// Fixed-point product, truncated, which must fit the integer width.
    fn mul(self, rhs: Self) -> (r: Self)
        ensures
            r@ == scaled_mul(self@, rhs@),
    {
        Self(mul_scaled(self.0, rhs.0))
    }
}

impl PartialOrdSpecImpl for Price {
    open spec fn obeys_partial_cmp_spec() -> bool {
        true
    }

    open spec fn partial_cmp_spec(&self, other: &Self) -> Option<Ordering> {
        if self@ < other@ {
            Some(Ordering::Less)
        } else if self@ == other@ {
            Some(Ordering::Equal)
        } else {
            Some(Ordering::Greater)
        }
    }
}

impl PartialOrd for Price {
    /// Orders two quantities of this kind by their raw values.
    fn partial_cmp(&self, other: &Self) -> (r: Option<Ordering>) {
        if self.0 < other.0 {
            Some(Ordering::Less)
        } else if self.0 == other.0 {
            Some(Ordering::Equal)
        } else {
            Some(Ordering::Greater)
        }
    }
}

/// Percentage in fixed-point decimal format: `SCALE` stands for the whole.
#[derive(Debug, Clone, Copy, PartialEq, Eq, Structural)]
pub struct Percentage(Uint);

impl View for Percentage {
    type V = nat;

    closed spec fn view(&self) -> nat {
        self.0 as nat
    }
}

impl Percentage {
    /// The percentage of raw value `raw`, which is to fit the integer width.
    pub closed spec fn of_raw(raw: nat) -> Self {
        Percentage(raw as Uint)
    }

    /// A percentage is known by its raw value, which fits the integer width.
    pub broadcast proof fn lemma_view(self)
        ensures
            #[trigger] self@ <= Uint::MAX,
            Self::of_raw(self@) == self,
    {
    }

    /// `of_raw` builds the percentage with the given raw value.
    pub broadcast proof fn lemma_of_raw(raw: nat)
        requires
            raw <= Uint::MAX,
        ensures
            #[trigger] Self::of_raw(raw)@ == raw,
    {
    }

    /// Wraps a value given in minimal precision units.
    pub fn from_raw_amount(value: Uint) -> (r: Self)
        ensures
            r@ == value,
            r == Self::of_raw(value as nat),
    {
        Self(value)
    }

    /// Returns the raw fixed-point value.
    pub fn raw(&self) -> (r: Uint)
        ensures
            r == self@,
    {
        self.0
    }

    /// Converts a count of whole units, which must fit once scaled.
    pub fn from(value: Uint) -> (r: Self)
        requires
            value * SCALE <= Uint::MAX,
        ensures
            r@ == value * SCALE,
    {
        Self(value * SCALE)
    }

    /// Subtracts `rhs`, or returns `None` where `rhs` is the larger.
    pub fn checked_sub(self, rhs: Self) -> (r: Option<Self>)
        ensures
            match r {
                Some(d) => rhs@ <= self@ && d@ == self@ - rhs@,
                None => rhs@ > self@,
            },
    {
        if rhs.0 <= self.0 {
            Some(Self(self.0 - rhs.0))
        } else {
            None
        }
    }
}

impl SubSpecImpl for Percentage {
    open spec fn obeys_sub_spec() -> bool {
        true
    }

    open spec fn sub_req(self, rhs: Self) -> bool {
        rhs@ <= self@
    }

    open spec fn sub_spec(self, rhs: Self) -> Self {
        Self::of_raw((self@ - rhs@) as nat)
    }
}

impl Sub for Percentage {
    type Output = Self;

    /// Difference of the raw values; the subtrahend may not be the larger.
    fn sub(self, rhs: Self) -> (r: Self)
        ensures
            r@ == self@ - rhs@,
    {
        Self(self.0 - rhs.0)
    }
}

impl AddSpecImpl for Percentage {
    open spec fn obeys_add_spec() -> bool {
        true
    }

    open spec fn add_req(self, rhs: Self) -> bool {
        self@ + rhs@ <= Uint::MAX
    }

    open spec fn add_spec(self, rhs: Self) -> Self {
        Self::of_raw(self@ + rhs@)
    }
}

impl Add for Percentage {
    type Output = Self;

    /// Sum of the raw values, which must fit the integer width.
    fn add(self, rhs: Self) -> (r: Self)
        ensures
            r@ == self@ + rhs@,
    {
        Self(self.0 + rhs.0)
    }
}

impl DivSpecImpl for Percentage {
    open spec fn obeys_div_spec() -> bool {
        true
    }

    open spec fn div_req(self, rhs: Self) -> bool {
        rhs@ > 0 && scaled_div(self@, rhs@) <= Uint::MAX
    }

    open spec fn div_spec(self, rhs: Self) -> Self {
        Self::of_raw(scaled_div(self@, rhs@))
    }
}

impl Div for Percentage {
    type Output = Self;

    /// Fixed-point quotient, truncated; the divisor may not be zero and the
    /// quotient must fit the integer width.
    fn div(self, rhs: Self) -> (r: Self)
        ensures
            r@ == scaled_div(self@, rhs@),
    {
        Self(div_scaled(self.0, rhs.0))
    }
}

impl MulSpecImpl for Percentage {
    open spec fn obeys_mul_spec() -> bool {
        true
    }

    open spec fn mul_req(self, rhs: Self) -> bool {
        scaled_mul(self@, rhs@) <= Uint::MAX
    }

    open spec fn mul_spec(self, rhs: Self) -> Self {
        Self::of_raw(scaled_mul(self@, rhs@))
    }
}

impl Mul for Percentage {
    type Output = Self;

    /// Fixed-point product, truncated, which must fit the integer width.
    fn mul(self, rhs: Self) -> (r: Self)
        ensures
            r@ == scaled_mul(self@, rhs@),
    {
        Self(mul_scaled(self.0, rhs.0))
    }
}

impl PartialOrdSpecImpl for Percentage {
    open spec fn obeys_partial_cmp_spec() -> bool {
        true
    }

    open spec fn partial_cmp_spec(&self, other: &Self) -> Option<Ordering> {
        if self@ < other@ {
            Some(Ordering::Less)
        } else if self@ == other@ {
            Some(Ordering::Equal)
        } else {
            Some(Ordering::Greater)
        }
    }
}

impl PartialOrd for Percentage {
    /// Orders two quantities of this kind by their raw values.
    fn partial_cmp(&self, other: &Self) -> (r: Option<Ordering>) {
        if self.0 < other.0 {
            Some(Ordering::Less)
        } else if self.0 == other.0 {
            Some(Ordering::Equal)
        } else {
            Some(Ordering::Greater)
        }
    }
}

} // verus!
