use vstd::prelude::*;
use vstd::std_specs::ops::MulSpec;

verus! {

/// A conversion rate from one currency to another.
///
/// The rate type `R` is whatever number type the caller prices in; the
/// library stores and hands back rates without looking inside them.
#[derive(Debug, PartialEq, Clone)]
pub struct Converter<R> {
    pub base: String,
    pub target: String,
    pub rate: R,
}

impl<R> Converter<R> {
    pub fn new(base: String, target: String, rate: R) -> (converter: Self)
        ensures
            converter.base == base,
            converter.target == target,
            converter.rate == rate,
    {
        Converter { base, target, rate }
    }
}

impl<R: Copy + core::ops::Mul<Output = R>> Converter<R> {
    /// Converts `amount` of the base currency: the product `amount * rate`
    /// in the arithmetic of `R`, with no rounding.
    pub fn convert(&self, amount: R) -> (converted: R)
        requires
            amount.mul_req(self.rate),
        ensures
            R::obeys_mul_spec() ==> converted == amount.mul_spec(self.rate),
    {
        amount * self.rate
    }
}

} // verus!
