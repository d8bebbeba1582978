//! The constant-sum pricing engine and the curve interface it implements.

use vstd::prelude::*;

use crate::primitives::Currency;
use alloy_primitives::U256;

verus! {

/// A pricing computation failure.
///
/// No pricing rule of the constant-sum curve can currently fail, but the
/// interface keeps a generic failure marker so that richer curves (for
/// example ones that reject unsupported pairs or overflowing amounts) can
/// signal one.
#[derive(Debug, PartialEq, Eq)]
pub enum Error {
    /// Indicates a custom error.
    CustomError,
}

/// The notification record a pricing call produces.
///
/// A host is expected to append exactly this record to its event log; the
/// engine itself keeps no history. Each record carries the call's input
/// parameters, in call order.
#[derive(Debug, PartialEq, Eq)]
pub enum Notification {
    /// The amount of input tokens for an exact-output swap was calculated.
    AmountInCalculated {
        /// The amount of output tokens the caller expects to receive.
        amount_out: U256,
        /// The input token.
        input: Currency,
        /// The output token.
        output: Currency,
        /// True if the input token is `token_0`.
        zero_for_one: bool,
    },
    /// The amount of output tokens for an exact-input swap was calculated.
    AmountOutCalculated {
        /// The amount of input tokens.
        amount_in: U256,
        /// The input token.
        input: Currency,
        /// The output token.
        output: Currency,
        /// True if the input token is `token_0`.
        zero_for_one: bool,
    },
}

/// Interface of a curve contract.
///
/// A curve is a pricing strategy: it consumes an amount, the pair of
/// currencies and the swap direction, and produces the reciprocal amount
/// together with the notification record describing the computation. The
/// three spec functions pin each implementor's pricing policy, so that a
/// caller can reason about any curve through this one interface.
pub trait IUniswapV4Curve: Sized {
    /// The error type associated to the trait implementation.
    type Error;

    /// The version identifier the curve reports.
    spec fn spec_version(&self) -> Seq<char>;

    /// The input amount the curve charges for an exact-output swap.
    spec fn spec_amount_in(
        &self,
        amount_out: U256,
        input: Currency,
        output: Currency,
        zero_for_one: bool,
    ) -> U256;

    /// The output amount the curve yields for an exact-input swap.
    spec fn spec_amount_out(
        &self,
        amount_in: U256,
        input: Currency,
        output: Currency,
        zero_for_one: bool,
    ) -> U256;

    /// Whether every pricing request on this curve succeeds.
    spec fn infallible(&self) -> bool;

    /// Returns the version of the curve.
    fn version(&self) -> (version: String)
        ensures
            version@ == self.spec_version(),
    ;

    /// Returns the amount of input tokens for an exact-output swap, together
    /// with the notification record of the computation.
    ///
    /// A pricing call never changes the version a curve reports, and on a
    /// curve that cannot fail it always succeeds.
    fn get_amount_in_for_exact_output(
        &mut self,
        amount_out: U256,
        input: Currency,
        output: Currency,
        zero_for_one: bool,
    ) -> (result: Result<(U256, Notification), Self::Error>)
        ensures
            final(self).spec_version() == old(self).spec_version(),
            result matches Ok(priced) ==> priced.0 == old(self).spec_amount_in(
                amount_out,
                input,
                output,
                zero_for_one,
            ),
            result matches Ok(priced) ==> priced.1 == (Notification::AmountInCalculated {
                amount_out,
                input,
                output,
                zero_for_one,
            }),
            old(self).infallible() ==> result is Ok,
    ;

    /// Returns the amount of output tokens for an exact-input swap, together
    /// with the notification record of the computation.
    ///
    /// A pricing call never changes the version a curve reports, and on a
    /// curve that cannot fail it always succeeds.
    fn get_amount_out_from_exact_input(
        &mut self,
        amount_in: U256,
        input: Currency,
        output: Currency,
        zero_for_one: bool,
    ) -> (result: Result<(U256, Notification), Self::Error>)
        ensures
            final(self).spec_version() == old(self).spec_version(),
            result matches Ok(priced) ==> priced.0 == old(self).spec_amount_out(
                amount_in,
                input,
                output,
                zero_for_one,
            ),
            result matches Ok(priced) ==> priced.1 == (Notification::AmountOutCalculated {
                amount_in,
                input,
                output,
                zero_for_one,
            }),
            old(self).infallible() ==> result is Ok,
    ;
}

/// A constant-sum pricing engine: tokens trade exactly 1:1, whatever the
/// direction and whatever the pair. Its only state is the version string,
/// set once at construction and never changed by a pricing call.
pub struct ConstantSumCurve {
    version: String,
}

impl ConstantSumCurve {
    /// Sets the version identifier. Called once, right after the state is
    /// created; nothing mutates the state afterwards.
    pub fn constructor(&mut self, version: String)
        ensures
            final(self).spec_version() == version@,
    {
        self.version = version;
    }

    /// Calculates the amount of input tokens for an exact-output swap.
    ///
    /// On a constant-sum curve tokens trade exactly 1:1, so the required
    /// input amount equals the requested output amount; the currencies and
    /// the direction are accepted for interface completeness only.
    pub fn calculate_amount_in(
        &self,
        amount_out: U256,
        _input: Currency,
        _output: Currency,
        _zero_for_one: bool,
    ) -> (amount_in: U256)
        ensures
            amount_in == amount_out,
    {
        amount_out
    }

    /// Calculates the amount of output tokens for an exact-input swap.
    ///
    /// On a constant-sum curve tokens trade exactly 1:1, so the yielded
    /// output amount equals the supplied input amount; the currencies and
    /// the direction are accepted for interface completeness only.
    pub fn calculate_amount_out(
        &self,
        amount_in: U256,
        _input: Currency,
        _output: Currency,
        _zero_for_one: bool,
    ) -> (amount_out: U256)
        ensures
            amount_out == amount_in,
    {
        amount_in
    }
}

impl Default for ConstantSumCurve {
    /// A freshly created engine, with the version identifier still empty:
    /// the state a host hands to `constructor`.
    fn default() -> (curve: Self)
        ensures
            curve.spec_version() == Seq::<char>::empty(),
    {
        ConstantSumCurve { version: String::new() }
    }
}

impl IUniswapV4Curve for ConstantSumCurve {
    type Error = Error;

    closed spec fn spec_version(&self) -> Seq<char> {
        self.version@
    }

    open spec fn spec_amount_in(
        &self,
        amount_out: U256,
        input: Currency,
        output: Currency,
        zero_for_one: bool,
    ) -> U256 {
        amount_out
    }

    open spec fn spec_amount_out(
        &self,
        amount_in: U256,
        input: Currency,
        output: Currency,
        zero_for_one: bool,
    ) -> U256 {
        amount_in
    }

    open spec fn infallible(&self) -> bool {
        true
    }

    fn version(&self) -> (version: String) {
        self.version.clone()
    }

    fn get_amount_in_for_exact_output(
        &mut self,
        amount_out: U256,
        input: Currency,
        output: Currency,
        zero_for_one: bool,
    ) -> (result: Result<(U256, Notification), Error>) {
        // Calculate `amount_in` based on swap params.
        let amount_in = self.calculate_amount_in(amount_out, input, output, zero_for_one);

        Ok((amount_in, Notification::AmountInCalculated { amount_out, input, output, zero_for_one }))
    }

    fn get_amount_out_from_exact_input(
        &mut self,
        amount_in: U256,
        input: Currency,
        output: Currency,
        zero_for_one: bool,
    ) -> (result: Result<(U256, Notification), Error>) {
        let amount_out = self.calculate_amount_out(amount_in, input, output, zero_for_one);

        Ok((amount_out, Notification::AmountOutCalculated { amount_in, input, output, zero_for_one }))
    }
}

/// Composition law of the constant-sum policy: pricing an exact-output swap
/// and feeding the charged input amount back through an exact-input swap in
/// the opposite direction returns the original amount, for any amount, any
/// pair of currencies and either direction.
pub proof fn lemma_round_trip(
    curve: ConstantSumCurve,
    amount: U256,
    first: Currency,
    second: Currency,
    zero_for_one: bool,
)
    ensures
        curve.spec_amount_out(
            curve.spec_amount_in(amount, first, second, zero_for_one),
            second,
            first,
            !zero_for_one,
        ) == amount,
{
}

} // verus!
