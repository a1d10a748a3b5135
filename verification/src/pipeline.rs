use vstd::prelude::*;

use crate::address::Address;
use crate::balance::check_balance;
use crate::error::{RpcOperation, TransferError, ValidationError};
use crate::gas::{
    buffered_gas_limit, buffered_limit, fallback_gas_limit, gas_price_with_premium, premium_price,
    total_cost_of,
};
use crate::signing::{ecdsa_sig_of, sign_transfer, signing_digest_of, SignedTransaction,
    TransactionRequest};

verus! {

/// The chain identifier the client is built for; binding a transaction to
/// it prevents replay on any network that shares the signing scheme.
pub const ARBITRUM_SEPOLIA_CHAIN_ID: u64 = 421614;

/// The post-inclusion record of a transaction: in which block it landed (if
/// the node reported one), what it consumed, and whether it succeeded.
#[derive(Clone, Copy, Debug, PartialEq, Eq, Structural)]
pub struct TransactionReceipt {
    pub block_number: Option<u64>,
    pub gas_used: u128,
    pub status_success: bool,
}

/// How the wait for a receipt ended: with a receipt, with the node
/// answering but reporting none, or with the wait mechanism itself failing.
#[derive(Clone, Copy, Debug, PartialEq, Eq, Structural)]
pub enum ConfirmationWait {
    Receipt(TransactionReceipt),
    NoReceipt,
    WaitFailed,
}

/// The terminal, observable end of a submission: included and succeeded,
/// included but reverted, or broadcast with inclusion unknown.
#[derive(Clone, Copy, Debug, PartialEq, Eq, Structural)]
pub enum Outcome {
    Confirmed(TransactionReceipt),
    Failed(TransactionReceipt),
    Unconfirmed,
}

/// Where one submission stands. Transitions are strictly sequential; any
/// failure before `Signed` aborts with no on-chain effect.
#[derive(Debug)]
pub enum PipelineState {
    Unbuilt,
    Priced { gas_price: u128 },
    LimitEstimated { gas_price: u128, gas_limit: u64 },
    NonceAssigned { gas_price: u128, gas_limit: u64, nonce: u64 },
    BalanceVerified { gas_price: u128, gas_limit: u64, nonce: u64 },
    Signed { tx: SignedTransaction },
    Broadcast { tx: SignedTransaction },
    Confirmed { receipt: TransactionReceipt },
    Failed { receipt: TransactionReceipt },
    Unconfirmed,
}

/// One native-currency transfer being driven to the network: the fixed
/// parameters and the stage reached so far. The caller performs each remote
/// call and feeds the answer in; the pipeline decides everything else.
#[derive(Debug)]
pub struct TransferPipeline {
    pub from: Address,
    pub to: Address,
    pub value: u128,
    pub chain_id: u64,
    pub state: PipelineState,
}

/// Two pipeline values drive the same transfer.
pub open spec fn same_params(a: TransferPipeline, b: TransferPipeline) -> bool {
    &&& a.from@ == b.from@
    &&& a.to@ == b.to@
    &&& a.value == b.value
    &&& a.chain_id == b.chain_id
}

/// What the whole query phase decides, given the transfer value and the
/// four fetched answers in pipeline order: either the premium gas price,
/// the buffered gas limit, the nonce and the total cost, or the error the
/// pipeline stops with. A missing gas price, nonce or balance is a network
/// failure; a missing gas estimate falls back silently; a balance below the
/// total cost is the terminal insufficient-funds failure.
pub open spec fn query_phase(
    value: u128,
    base_price: Option<u128>,
    estimate: Option<u64>,
    nonce: Option<u64>,
    balance: Option<u128>,
) -> Result<(u128, u64, u64, u128), TransferError> {
    if base_price is None {
        Err(TransferError::Network(RpcOperation::GetGasPrice))
    } else if base_price->0 * 110 > u128::MAX {
        Err(TransferError::Validation(ValidationError::Overflow))
    } else {
        let gas_price = premium_price(base_price->0) as u128;
        if estimate is Some && estimate->0 * 120 > u64::MAX {
            Err(TransferError::Validation(ValidationError::Overflow))
        } else {
            let gas_limit = if estimate is Some {
                buffered_limit(estimate->0) as u64
            } else {
                fallback_gas_limit() as u64
            };
            if nonce is None {
                Err(TransferError::Network(RpcOperation::GetTransactionCount))
            } else if total_cost_of(value, gas_price, gas_limit) > u128::MAX {
                Err(TransferError::Validation(ValidationError::Overflow))
            } else if balance is None {
                Err(TransferError::Network(RpcOperation::GetBalance))
            } else if balance->0 < total_cost_of(value, gas_price, gas_limit) {
                Err(
                    TransferError::InsufficientFunds {
                        balance: balance->0,
                        total_cost: total_cost_of(value, gas_price, gas_limit) as u128,
                        shortfall: (total_cost_of(value, gas_price, gas_limit) - balance->0) as u128,
                    },
                )
            } else {
                Ok(
                    (
                        gas_price,
                        gas_limit,
                        nonce->0,
                        total_cost_of(value, gas_price, gas_limit) as u128,
                    ),
                )
            }
        }
    }
}

impl TransferPipeline {
    /// The addresses have their width, the destination is not the zero
    /// address, the chain identifier leaves room for the recovery value,
    /// and whatever was signed encodes exactly this transfer.
    pub open spec fn wf(&self) -> bool {
        &&& self.from.wf()
        &&& self.to.wf()
        &&& !self.to.is_zero_spec()
        &&& 2 * self.chain_id + 38 <= u64::MAX
        &&& (self.state matches PipelineState::Signed { tx } ==> tx.wf() && tx.request.to@
            == self.to@ && tx.request.value == self.value && tx.request.chain_id == self.chain_id)
        &&& (self.state matches PipelineState::Broadcast { tx } ==> tx.wf() && tx.request.to@
            == self.to@ && tx.request.value == self.value && tx.request.chain_id == self.chain_id)
    }

    /// Starts a submission for one transfer. The zero destination is
    /// rejected here, whatever the balance or amount; nothing else is.
    pub fn new(from: Address, to: Address, value: u128, chain_id: u64) -> (r: Result<
        TransferPipeline,
        TransferError,
    >)
        requires
            from.wf(),
            to.wf(),
            2 * chain_id + 38 <= u64::MAX,
        ensures
            (r matches Ok(p)) <==> !to.is_zero_spec(),
            to.is_zero_spec() ==> r == Err::<TransferPipeline, TransferError>(
                TransferError::Validation(ValidationError::ZeroAddress),
            ),
            r matches Ok(p) ==> {
                &&& p.wf()
                &&& p.from@ == from@
                &&& p.to@ == to@
                &&& p.value == value
                &&& p.chain_id == chain_id
                &&& p.state is Unbuilt
            },
    {
        if to.is_zero() {
            return Err(TransferError::Validation(ValidationError::ZeroAddress));
        }
        Ok(TransferPipeline { from, to, value, chain_id, state: PipelineState::Unbuilt })
    }

    /// Feeds in the network's base gas price, or `None` for a failed
    /// query. On success the pipeline holds the premium price.
    pub fn on_gas_price(&mut self, fetched: Option<u128>) -> (r: Result<u128, TransferError>)
        requires
            old(self).wf(),
            old(self).state is Unbuilt,
        ensures
            final(self).wf(),
            same_params(*final(self), *old(self)),
            fetched is None ==> r == Err::<u128, TransferError>(
                TransferError::Network(RpcOperation::GetGasPrice),
            ) && *final(self) == *old(self),
            fetched matches Some(base) ==> (if base * 110 <= u128::MAX {
                r == Ok::<u128, TransferError>((premium_price(base) as u128)) && final(self).state
                    == (PipelineState::Priced { gas_price: (premium_price(base) as u128) })
            } else {
                r == Err::<u128, TransferError>(
                    TransferError::Validation(ValidationError::Overflow),
                ) && *final(self) == *old(self)
            }),
    {
        let base = match fetched {
            Some(b) => b,
            None => {
                return Err(TransferError::Network(RpcOperation::GetGasPrice));
            },
        };
        match gas_price_with_premium(base) {
            Some(p) => {
                self.state = PipelineState::Priced { gas_price: p };
                Ok(p)
            },
            None => Err(TransferError::Validation(ValidationError::Overflow)),
        }
    }

    /// Feeds in the gas simulation's answer, or `None` for a failed
    /// simulation, which falls back to the intrinsic transfer cost; either
    /// way the buffered limit is kept.
    pub fn on_gas_estimate(&mut self, estimate: Option<u64>) -> (r: Result<u64, TransferError>)
        requires
            old(self).wf(),
            old(self).state is Priced,
        ensures
            final(self).wf(),
            same_params(*final(self), *old(self)),
            estimate is None ==> r == Ok::<u64, TransferError>((fallback_gas_limit() as u64))
                && final(self).state == (PipelineState::LimitEstimated {
                gas_price: old(self).state->Priced_gas_price,
                gas_limit: (fallback_gas_limit() as u64),
            }),
            estimate matches Some(e) ==> (if e * 120 <= u64::MAX {
                r == Ok::<u64, TransferError>((buffered_limit(e) as u64)) && final(self).state == (
                PipelineState::LimitEstimated {
                    gas_price: old(self).state->Priced_gas_price,
                    gas_limit: (buffered_limit(e) as u64),
                })
            } else {
                r == Err::<u64, TransferError>(
                    TransferError::Validation(ValidationError::Overflow),
                ) && *final(self) == *old(self)
            }),
    {
        let gas_price = match &self.state {
            PipelineState::Priced { gas_price } => *gas_price,
            _ => {
                return Err(TransferError::Submission);
            },
        };
        match buffered_gas_limit(estimate) {
            Some(l) => {
                self.state = PipelineState::LimitEstimated { gas_price, gas_limit: l };
                Ok(l)
            },
            None => Err(TransferError::Validation(ValidationError::Overflow)),
        }
    }

    /// Feeds in the sender's transaction count, the next nonce, or `None`
    /// for a failed query.
    pub fn on_nonce(&mut self, fetched: Option<u64>) -> (r: Result<u64, TransferError>)
        requires
            old(self).wf(),
            old(self).state is LimitEstimated,
        ensures
            final(self).wf(),
            same_params(*final(self), *old(self)),
            fetched is None ==> r == Err::<u64, TransferError>(
                TransferError::Network(RpcOperation::GetTransactionCount),
            ) && *final(self) == *old(self),
            fetched matches Some(n) ==> r == Ok::<u64, TransferError>(n) && final(self).state == (
            PipelineState::NonceAssigned {
                gas_price: old(self).state->LimitEstimated_gas_price,
                gas_limit: old(self).state->LimitEstimated_gas_limit,
                nonce: n,
            }),
    {
        let (gas_price, gas_limit) = match &self.state {
            PipelineState::LimitEstimated { gas_price, gas_limit } => (*gas_price, *gas_limit),
            _ => {
                return Err(TransferError::Submission);
            },
        };
        match fetched {
            Some(n) => {
                self.state = PipelineState::NonceAssigned { gas_price, gas_limit, nonce: n };
                Ok(n)
            },
            None => Err(TransferError::Network(RpcOperation::GetTransactionCount)),
        }
    }

    /// Feeds in the sender's balance, or `None` for a failed query, and
    /// decides sufficiency: the pipeline proceeds exactly when the balance
    /// covers value plus maximum fee, and otherwise halts with the
    /// shortfall, before anything is signed or broadcast.
    pub fn on_balance(&mut self, fetched: Option<u128>) -> (r: Result<u128, TransferError>)
        requires
            old(self).wf(),
            old(self).state is NonceAssigned,
        ensures
            final(self).wf(),
            same_params(*final(self), *old(self)),
            ({
                let total = total_cost_of(
                    old(self).value,
                    old(self).state->NonceAssigned_gas_price,
                    old(self).state->NonceAssigned_gas_limit,
                );
                if total > u128::MAX {
                    r == Err::<u128, TransferError>(
                        TransferError::Validation(ValidationError::Overflow),
                    ) && *final(self) == *old(self)
                } else if fetched is None {
                    r == Err::<u128, TransferError>(
                        TransferError::Network(RpcOperation::GetBalance),
                    ) && *final(self) == *old(self)
                } else if fetched->0 < total {
                    r == Err::<u128, TransferError>(
                        TransferError::InsufficientFunds {
                            balance: fetched->0,
                            total_cost: total as u128,
                            shortfall: (total - fetched->0) as u128,
                        },
                    ) && *final(self) == *old(self)
                } else {
                    r == Ok::<u128, TransferError>((total as u128)) && final(self).state == (
                    PipelineState::BalanceVerified {
                        gas_price: old(self).state->NonceAssigned_gas_price,
                        gas_limit: old(self).state->NonceAssigned_gas_limit,
                        nonce: old(self).state->NonceAssigned_nonce,
                    })
                }
            }),
    {
        let (gas_price, gas_limit, nonce) = match &self.state {
            PipelineState::NonceAssigned { gas_price, gas_limit, nonce } => (
                *gas_price,
                *gas_limit,
                *nonce,
            ),
            _ => {
                return Err(TransferError::Submission);
            },
        };
        let fee = match crate::gas::transfer_fee(gas_price, gas_limit) {
            Some(f) => f,
            None => {
                return Err(TransferError::Validation(ValidationError::Overflow));
            },
        };
        let total = match self.value.checked_add(fee) {
            Some(t) => t,
            None => {
                return Err(TransferError::Validation(ValidationError::Overflow));
            },
        };
        let balance = match fetched {
            Some(b) => b,
            None => {
                return Err(TransferError::Network(RpcOperation::GetBalance));
            },
        };
        match check_balance(balance, self.value, gas_price, gas_limit) {
            Ok(_) => {
                self.state = PipelineState::BalanceVerified { gas_price, gas_limit, nonce };
                Ok(total)
            },
            Err(e) => Err(e),
        }
    }

    /// Assembles the transaction request from the verified quantities and
    /// signs it with the caller's key, borrowed only for this signature.
    /// Signing succeeds exactly when the curve library signs this key over
    /// this transfer's digest; the signed transaction carries destination,
    /// value and nonce exactly as verified — signing alters no field.
    pub fn sign(&mut self, key: &Vec<u8>) -> (r: Result<(), TransferError>)
        requires
            key@.len() == 32,
            old(self).wf(),
            old(self).state is BalanceVerified,
        ensures
            final(self).wf(),
            same_params(*final(self), *old(self)),
            (r is Ok) <==> ecdsa_sig_of(
                key@,
                signing_digest_of(
                    old(self).state->BalanceVerified_nonce,
                    old(self).state->BalanceVerified_gas_price,
                    old(self).state->BalanceVerified_gas_limit,
                    old(self).to@,
                    old(self).value,
                    old(self).chain_id,
                ),
            ) is Some,
            r matches Err(e) ==> e == TransferError::Submission && *final(self) == *old(self),
            r is Ok ==> (final(self).state matches PipelineState::Signed { tx } && {
                &&& tx.wf()
                &&& tx.request.from@ == old(self).from@
                &&& tx.request.to@ == old(self).to@
                &&& tx.request.value == old(self).value
                &&& tx.request.chain_id == old(self).chain_id
                &&& tx.request.gas_price == old(self).state->BalanceVerified_gas_price
                &&& tx.request.gas_limit == old(self).state->BalanceVerified_gas_limit
                &&& tx.request.nonce == old(self).state->BalanceVerified_nonce
            }),
    {
        let (gas_price, gas_limit, nonce) = match &self.state {
            PipelineState::BalanceVerified { gas_price, gas_limit, nonce } => (
                *gas_price,
                *gas_limit,
                *nonce,
            ),
            _ => {
                return Err(TransferError::Submission);
            },
        };
        let request = TransactionRequest::new(
            Address::from_bytes(self.from.as_bytes().clone()),
            Address::from_bytes(self.to.as_bytes().clone()),
            self.value,
            gas_price,
            gas_limit,
            nonce,
            self.chain_id,
        );
        match sign_transfer(key, &request) {
            Ok(tx) => {
                self.state = PipelineState::Signed { tx };
                Ok(())
            },
            Err(_) => Err(TransferError::Submission),
        }
    }

    /// Records whether the endpoint accepted the raw broadcast; acceptance
    /// hands back the transaction hash the pipeline derived at signing
    /// time, a rejection is the terminal submission failure.
    pub fn on_broadcast(&mut self, accepted: bool) -> (r: Result<Vec<u8>, TransferError>)
        requires
            old(self).wf(),
            old(self).state is Signed,
        ensures
            final(self).wf(),
            same_params(*final(self), *old(self)),
            !accepted ==> r == Err::<Vec<u8>, TransferError>(TransferError::Submission) && *final(self) == *old(self),
            accepted ==> final(self).state is Broadcast && (r matches Ok(h) && h@ == old(self).state->Signed_tx.hash@),
    {
        if !accepted {
            return Err(TransferError::Submission);
        }
        let mut taken = PipelineState::Unbuilt;
        core::mem::swap(&mut taken, &mut self.state);
        let tx = match taken {
            PipelineState::Signed { tx } => tx,
            _ => {
                return Err(TransferError::Submission);
            },
        };
        let hash = tx.hash.clone();
        self.state = PipelineState::Broadcast { tx };
        Ok(hash)
    }

    /// Settles the submission from the outcome of the confirmation wait: a
    /// successful receipt confirms, a failed receipt reports an on-chain
    /// failure, and a receipt that could not be obtained leaves the
    /// transaction's fate open — never a crash.
    pub fn on_confirmation(&mut self, wait: ConfirmationWait) -> (r: Result<
        Outcome,
        TransferError,
    >)
        requires
            old(self).wf(),
            old(self).state is Broadcast,
        ensures
            final(self).wf(),
            same_params(*final(self), *old(self)),
            wait matches ConfirmationWait::Receipt(rc) ==> (if rc.status_success {
                r == Ok::<Outcome, TransferError>(Outcome::Confirmed(rc)) && final(self).state
                    == (PipelineState::Confirmed { receipt: rc })
            } else {
                r == Ok::<Outcome, TransferError>(Outcome::Failed(rc)) && final(self).state == (
                PipelineState::Failed { receipt: rc })
            }),
            wait is NoReceipt ==> r == Ok::<Outcome, TransferError>(Outcome::Unconfirmed) && final(self).state is Unconfirmed,
            wait is WaitFailed ==> r == Err::<Outcome, TransferError>(
                TransferError::ConfirmationIndeterminate,
            ) && final(self).state is Unconfirmed,
    {
        match wait {
            ConfirmationWait::Receipt(receipt) => {
                if receipt.status_success {
                    self.state = PipelineState::Confirmed { receipt };
                    Ok(Outcome::Confirmed(receipt))
                } else {
                    self.state = PipelineState::Failed { receipt };
                    Ok(Outcome::Failed(receipt))
                }
            },
            ConfirmationWait::NoReceipt => {
                self.state = PipelineState::Unconfirmed;
                Ok(Outcome::Unconfirmed)
            },
            ConfirmationWait::WaitFailed => {
                self.state = PipelineState::Unconfirmed;
                Err(TransferError::ConfirmationIndeterminate)
            },
        }
    }

    /// Runs the whole query phase in pipeline order on already fetched
    /// answers: pricing, limit estimation, nonce, sufficiency. Exactly the
    /// decision the spec-level `query_phase` describes; on any failure no
    /// signed transaction exists and no broadcast can follow.
    pub fn run_query_phase(
        &mut self,
        base_price: Option<u128>,
        estimate: Option<u64>,
        nonce: Option<u64>,
        balance: Option<u128>,
    ) -> (r: Result<u128, TransferError>)
        requires
            old(self).wf(),
            old(self).state is Unbuilt,
        ensures
            final(self).wf(),
            same_params(*final(self), *old(self)),
            query_phase(old(self).value, base_price, estimate, nonce, balance) matches Ok(q) ==> r
                == Ok::<u128, TransferError>(q.3) && final(self).state == (
            PipelineState::BalanceVerified { gas_price: q.0, gas_limit: q.1, nonce: q.2 }),
            query_phase(old(self).value, base_price, estimate, nonce, balance) matches Err(e) ==> r
                == Err::<u128, TransferError>(e) && !(final(self).state is Signed) && !(final(self).state is Broadcast),
    {
        if let Err(e) = self.on_gas_price(base_price) {
            return Err(e);
        }
        if let Err(e) = self.on_gas_estimate(estimate) {
            return Err(e);
        }
        if let Err(e) = self.on_nonce(nonce) {
            return Err(e);
        }
        match self.on_balance(balance) {
            Ok(total) => Ok(total),
            Err(e) => Err(e),
        }
    }
}

/// With the endpoint answering and every quantity in machine range, a
/// balance that covers value plus gasPrice·gasLimit lets the query phase
/// succeed: the insufficient-funds failure cannot arise, and signing and
/// broadcast stand open.
pub proof fn lemma_sufficient_balance_admits_transfer(
    value: u128,
    base_price: u128,
    estimate: Option<u64>,
    nonce: u64,
    balance: u128,
)
    requires
        base_price * 110 <= u128::MAX,
        estimate matches Some(e) ==> e * 120 <= u64::MAX,
        total_cost_of(
            value,
            (premium_price(base_price) as u128),
            (if estimate is Some {
                buffered_limit(estimate->0) as u64
            } else {
                fallback_gas_limit() as u64
            }),
        ) <= u128::MAX,
        balance >= total_cost_of(
            value,
            (premium_price(base_price) as u128),
            (if estimate is Some {
                buffered_limit(estimate->0) as u64
            } else {
                fallback_gas_limit() as u64
            }),
        ),
    ensures
        query_phase(value, Some(base_price), estimate, Some(nonce), Some(balance)) matches Ok(q)
            && q.0 == premium_price(base_price) && q.2 == nonce,
        !(query_phase(value, Some(base_price), estimate, Some(nonce), Some(balance)) matches Err(e)
            && e is InsufficientFunds),
{
}

/// With the endpoint answering and every quantity in machine range, a
/// balance below value plus gasPrice·gasLimit makes the query phase halt
/// with exactly the insufficient-funds failure, reporting the shortfall;
/// nothing is signed and no broadcast happens.
pub proof fn lemma_insufficient_balance_halts_transfer(
    value: u128,
    base_price: u128,
    estimate: Option<u64>,
    nonce: u64,
    balance: u128,
)
    requires
        base_price * 110 <= u128::MAX,
        estimate matches Some(e) ==> e * 120 <= u64::MAX,
        total_cost_of(
            value,
            (premium_price(base_price) as u128),
            (if estimate is Some {
                buffered_limit(estimate->0) as u64
            } else {
                fallback_gas_limit() as u64
            }),
        ) <= u128::MAX,
        balance < total_cost_of(
            value,
            (premium_price(base_price) as u128),
            (if estimate is Some {
                buffered_limit(estimate->0) as u64
            } else {
                fallback_gas_limit() as u64
            }),
        ),
    ensures
        ({
            let total = total_cost_of(
                value,
                (premium_price(base_price) as u128),
                (if estimate is Some {
                    buffered_limit(estimate->0) as u64
                } else {
                    fallback_gas_limit() as u64
                }),
            );
            query_phase(value, Some(base_price), estimate, Some(nonce), Some(balance)) == Err::<
                (u128, u64, u64, u128),
                TransferError,
            >(
                TransferError::InsufficientFunds {
                    balance,
                    total_cost: total as u128,
                    shortfall: (total - balance) as u128,
                },
            )
        }),
{
}

} // verus!
