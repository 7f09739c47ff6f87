//! What the relay receives from its backend, turned into what it works
//! with: fee estimates, gas estimates and bytecode.
//!
//! The backend itself (a remote provider, or a node in the same process) is
//! driven by the service; the functions here take its answers as values.

use vstd::prelude::*;
use core::marker::PhantomData;
use crate::error::TraverseWalletError;
use crate::primitives::{u256_modulus, U256};

verus! {

/// The ceiling on the gas that a sponsored request may be estimated to use.
/// An estimate that reaches it is turned down.
pub const GAS_ESTIMATE_CEILING: u64 = 350_000;

/// The fees of a fee-market transaction, as estimated for the next blocks.
#[derive(Clone, Copy, Debug, PartialEq, Eq)]
pub struct Eip1559Estimation {
    /// The most to pay per unit of gas: base fee and priority fee together.
    pub max_fee_per_gas: u128,
    /// The most to pay the block producer per unit of gas.
    pub max_priority_fee_per_gas: u128,
}

impl Eip1559Estimation {
    /// The estimation that a base fee and a priority fee amount to, as a
    /// node reports them: the fee cap is their sum in 256-bit arithmetic,
    /// the priority fee stands as it is.
    ///
    /// There is none where either number exceeds 128 bits.
    pub fn from_fees(base_fee: U256, priority_fee: U256) -> (estimation: Option<Eip1559Estimation>)
        ensures
            estimation is Some <==> (base_fee@ + priority_fee@) % u256_modulus() <= u128::MAX
                && priority_fee@ <= u128::MAX,
            estimation is Some ==> estimation.unwrap().max_fee_per_gas == (base_fee@
                + priority_fee@) % u256_modulus(),
            estimation is Some ==> estimation.unwrap().max_priority_fee_per_gas == priority_fee@,
    {
        let cap = base_fee.wrapping_add(priority_fee).to_u128();
        let tip = priority_fee.to_u128();
        match (cap, tip) {
            (Some(max_fee_per_gas), Some(max_priority_fee_per_gas)) => Some(
                Eip1559Estimation { max_fee_per_gas, max_priority_fee_per_gas },
            ),
            _ => None,
        }
    }
}

/// Holds a gas estimate against the ceiling.
///
/// An estimate below the ceiling passes. One that reaches it is turned down,
/// and the error carries the estimate.
pub fn check_gas_estimate(estimate: u64) -> (checked: Result<(), TraverseWalletError>)
    ensures
        checked is Ok <==> estimate < GAS_ESTIMATE_CEILING,
        checked is Err ==> checked.unwrap_err() == (TraverseWalletError::GasEstimateTooHigh {
            estimate,
        }),
{
    if estimate >= GAS_ESTIMATE_CEILING {
        Err(TraverseWalletError::GasEstimateTooHigh { estimate })
    } else {
        Ok(())
    }
}

/// What a gas estimate and a fee estimate that were asked for side by side
/// amount to.
pub open spec fn joined(
    gas: Result<u64, TraverseWalletError>,
    fees: Result<Eip1559Estimation, TraverseWalletError>,
) -> Result<(u64, Eip1559Estimation), TraverseWalletError> {
    match gas {
        Err(error) => Err(error),
        Ok(estimate) => match fees {
            Err(error) => Err(error),
            Ok(fee_estimate) => Ok((estimate, fee_estimate)),
        },
    }
}

/// Joins a gas estimate and a fee estimate that were asked for side by
/// side: both must have succeeded, or the estimation fails as a unit, with
/// the gas estimate's error where both failed.
pub fn join_estimates(
    gas: Result<u64, TraverseWalletError>,
    fees: Result<Eip1559Estimation, TraverseWalletError>,
) -> (estimate: Result<(u64, Eip1559Estimation), TraverseWalletError>)
    ensures
        estimate == joined(gas, fees),
{
    match gas {
        Err(error) => Err(error),
        Ok(estimate) => match fees {
            Err(error) => Err(error),
            Ok(fee_estimate) => Ok((estimate, fee_estimate)),
        },
    }
}

/// The bytecode of an account, from what a state lookup found: an account
/// without code has the empty bytecode, and a lookup that failed is an
/// error, never an empty bytecode.
pub fn account_code(lookup: Result<Option<Vec<u8>>, TraverseWalletError>) -> (code: Result<
    Vec<u8>,
    TraverseWalletError,
>)
    ensures
        match lookup {
            Err(error) => code == Err::<Vec<u8>, TraverseWalletError>(error),
            Ok(None) => code is Ok && code.unwrap()@ == Seq::<u8>::empty(),
            Ok(Some(found)) => code == Ok::<Vec<u8>, TraverseWalletError>(found),
        },
{
    match lookup {
        Err(error) => Err(error),
        Ok(None) => Ok(Vec::new()),
        Ok(Some(found)) => Ok(found),
    }
}

/// A backend that reaches the chain through a remote provider.
///
/// The provider is whatever the service uses to talk to the remote node; the
/// second parameter names the transport that the provider runs over.
#[derive(Debug)]
pub struct AlloyUpstream<P, T> {
    provider: P,
    _transport: PhantomData<T>,
}

impl<P, T> AlloyUpstream<P, T> {
    /// The provider that the backend was made with.
    pub closed spec fn inner(&self) -> P {
        self.provider
    }

    /// Create a new [`AlloyUpstream`].
    pub fn new(provider: P) -> (upstream: Self)
        ensures
            upstream.inner() == provider,
    {
        Self { provider, _transport: PhantomData }
    }

    /// The provider that the backend was made with.
    pub fn provider(&self) -> (provider: &P)
        ensures
            *provider == self.inner(),
    {
        &self.provider
    }
}

} // verus!
