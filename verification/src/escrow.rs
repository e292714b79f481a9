//! The purchase escrow: one record per purchase attempt, with a three-state
//! lifecycle. `Initialized` may step to `Completed` (the buyer pays and is
//! issued a credential) or to `Cancelled` (the buyer backs out and any
//! deposit is refunded); both are terminal, and an attempt to step out of a
//! terminal state fails without mutating anything.
//!
//! Each operation here is one indivisible unit of work of the surrounding
//! ledger: the runtime hands in the balances the operation may touch, and
//! either every effect below commits or none does.

use vstd::prelude::*;
use crate::errors::ProtocolError;
use crate::types::{Id32, PaymentMedium, Vault};

verus! {

/// The lifecycle state of an escrow record. Transitions are monotonic:
/// `Initialized` is the only state with outgoing steps.
#[derive(Clone, Copy, Debug, PartialEq, Eq, Structural)]
pub enum EscrowStatus {
    Initialized,
    Completed,
    Cancelled,
}

/// One purchase escrow: a buyer, a creator, the content bought, the agreed
/// price, and the custodial vault the deposit sits in.
#[derive(Clone, Copy, Debug, PartialEq, Eq, Structural)]
pub struct EscrowRecord {
    pub buyer: Id32,
    pub creator: Id32,
    /// The fixed-size opaque identifier of the content being bought.
    pub content_id: Id32,
    /// The agreed price, in the smallest unit of the payment medium.
    pub price: u64,
    pub payment_medium: PaymentMedium,
    /// 0 until funded; exactly `price` once Completed.
    pub payment_amount: u64,
    /// The credential the issuer minted to the buyer, once Completed.
    pub access_mint_address: Option<Id32>,
    pub created_ts: i64,
    /// Caller-supplied disambiguator: allows several concurrent escrows for
    /// the same buyer and content.
    pub seed: u64,
    pub status: EscrowStatus,
    /// The uniqueness nonce of the record's derived address, assigned by the
    /// surrounding ledger.
    pub derivation_nonce: u8,
    /// The custodial vault bound to this record.
    pub vault: Vault,
}

impl EscrowRecord {
    /// The record's invariant: the price is positive, the recorded deposit
    /// matches the lifecycle state, and the vault holds exactly the recorded
    /// deposit.
    pub open spec fn wf(&self) -> bool {
        &&& self.price > 0
        &&& (self.status == EscrowStatus::Initialized ==> self.payment_amount == 0)
        &&& (self.status == EscrowStatus::Completed ==> self.payment_amount == self.price)
        &&& (self.status == EscrowStatus::Cancelled ==> self.payment_amount == 0)
        &&& self.vault.balance == self.payment_amount
    }
}

/// The first precondition of a purchase that fails, if any, checked in the
/// declared order: status, then amount, then buyer, then token accounts.
pub open spec fn buy_reject(
    record: EscrowRecord,
    caller: Id32,
    payment_amount: u64,
    supplied_mint: Option<Id32>,
) -> Option<ProtocolError> {
    if record.status != EscrowStatus::Initialized {
        Some(ProtocolError::InvalidEscrowStatus)
    } else if payment_amount != record.price {
        Some(ProtocolError::InvalidPaymentAmount)
    } else if caller != record.buyer {
        Some(ProtocolError::InvalidBuyer)
    } else if !record.payment_medium.accounts_ok_spec(supplied_mint) {
        Some(ProtocolError::InvalidVault)
    } else {
        None
    }
}

/// The first precondition of a cancellation that fails, if any: terminal
/// states first, then the caller, then — only when there is a deposit to
/// refund — the token accounts.
pub open spec fn cancel_reject(
    record: EscrowRecord,
    caller: Id32,
    supplied_mint: Option<Id32>,
) -> Option<ProtocolError> {
    if record.status == EscrowStatus::Completed {
        Some(ProtocolError::EscrowAlreadyCompleted)
    } else if record.status == EscrowStatus::Cancelled {
        Some(ProtocolError::EscrowAlreadyCancelled)
    } else if caller != record.buyer {
        Some(ProtocolError::InvalidBuyer)
    } else if record.payment_amount > 0 && !record.payment_medium.accounts_ok_spec(supplied_mint) {
        Some(ProtocolError::InvalidVault)
    } else {
        None
    }
}

/// Creates a new escrow record with an empty vault.
///
/// Fails with `InvalidPrice` exactly when `price` is zero; otherwise returns
/// the freshly initialized record, unfunded and awaiting the buyer.
pub fn initialize_escrow(
    buyer: Id32,
    creator: Id32,
    content_id: Id32,
    price: u64,
    payment_medium: PaymentMedium,
    seed: u64,
    created_ts: i64,
    derivation_nonce: u8,
) -> (r: Result<EscrowRecord, ProtocolError>)
    ensures
        price == 0 ==> r == Err::<EscrowRecord, ProtocolError>(ProtocolError::InvalidPrice),
        price > 0 ==> (r == Ok::<EscrowRecord, ProtocolError>(EscrowRecord {
            buyer,
            creator,
            content_id,
            price,
            payment_medium,
            payment_amount: 0,
            access_mint_address: None,
            created_ts,
            seed,
            status: EscrowStatus::Initialized,
            derivation_nonce,
            vault: Vault { balance: 0 },
        })),
        r matches Ok(record) ==> record.wf(),
{
    if price == 0 {
        return Err(ProtocolError::InvalidPrice);
    }
    Ok(EscrowRecord {
        buyer,
        creator,
        content_id,
        price,
        payment_medium,
        payment_amount: 0,
        access_mint_address: None,
        created_ts,
        seed,
        status: EscrowStatus::Initialized,
        derivation_nonce,
        vault: Vault::new(),
    })
}

/// The purchase step: moves the payment from the buyer's balance into the
/// escrow vault, records the credential the issuer minted to the buyer, and
/// marks the record Completed — or rejects the call, mutating nothing.
///
/// The runtime invokes the credential issuer inside the same atomic boundary
/// and hands its result in as `credential_id`; if the issuer fails, the
/// runtime never commits this operation, so its effects are discarded whole.
///
/// Returns the amount received and the credential on success. The rejected
/// inputs and their errors are exactly those of `buy_reject`.
pub fn buy_and_mint(
    record: &mut EscrowRecord,
    caller: Id32,
    payment_amount: u64,
    supplied_mint: Option<Id32>,
    buyer_balance: &mut u64,
    credential_id: Id32,
) -> (r: Result<(u64, Id32), ProtocolError>)
    requires
        buy_reject(*old(record), caller, payment_amount, supplied_mint) is None ==> {
            &&& payment_amount <= *old(buyer_balance)
            &&& old(record).vault.balance + payment_amount <= u64::MAX
        },
    ensures
        match buy_reject(*old(record), caller, payment_amount, supplied_mint) {
            Some(e) => {
                &&& r == Err::<(u64, Id32), ProtocolError>(e)
                &&& *final(record) == *old(record)
                &&& *final(buyer_balance) == *old(buyer_balance)
            },
            None => {
                &&& r == Ok::<(u64, Id32), ProtocolError>((payment_amount, credential_id))
                &&& *final(buyer_balance) == *old(buyer_balance) - payment_amount
                &&& (*final(record) == EscrowRecord {
                    payment_amount: payment_amount,
                    access_mint_address: Some(credential_id),
                    status: EscrowStatus::Completed,
                    vault: Vault {
                        balance: (old(record).vault.balance + payment_amount) as u64,
                    },
                    ..*old(record)
                })
            },
        },
        old(record).wf() ==> final(record).wf(),
{
    if record.status != EscrowStatus::Initialized {
        return Err(ProtocolError::InvalidEscrowStatus);
    }
    if payment_amount != record.price {
        return Err(ProtocolError::InvalidPaymentAmount);
    }
    if caller != record.buyer {
        return Err(ProtocolError::InvalidBuyer);
    }
    if !record.payment_medium.accounts_ok(&supplied_mint) {
        return Err(ProtocolError::InvalidVault);
    }
    *buyer_balance = *buyer_balance - payment_amount;
    record.vault.deposit(payment_amount);
    record.payment_amount = payment_amount;
    record.access_mint_address = Some(credential_id);
    record.status = EscrowStatus::Completed;
    Ok((payment_amount, credential_id))
}

/// The cancellation step: refunds any recorded deposit from the vault back
/// to the buyer and marks the record Cancelled — or rejects the call,
/// mutating nothing. The runtime then releases the record and its vault.
///
/// Returns the refunded amount on success (zero when the escrow was never
/// funded, in which case no transfer occurs). The rejected inputs and their
/// errors are exactly those of `cancel_reject`.
pub fn cancel_escrow(
    record: &mut EscrowRecord,
    caller: Id32,
    supplied_mint: Option<Id32>,
    buyer_balance: &mut u64,
) -> (r: Result<u64, ProtocolError>)
    requires
        old(record).vault.balance == old(record).payment_amount,
        *old(buyer_balance) + old(record).payment_amount <= u64::MAX,
    ensures
        match cancel_reject(*old(record), caller, supplied_mint) {
            Some(e) => {
                &&& r == Err::<u64, ProtocolError>(e)
                &&& *final(record) == *old(record)
                &&& *final(buyer_balance) == *old(buyer_balance)
            },
            None => {
                &&& r == Ok::<u64, ProtocolError>(old(record).payment_amount)
                &&& *final(buyer_balance) == *old(buyer_balance) + old(record).payment_amount
                &&& (*final(record) == EscrowRecord {
                    payment_amount: 0,
                    status: EscrowStatus::Cancelled,
                    vault: Vault { balance: 0 },
                    ..*old(record)
                })
            },
        },
        old(record).wf() ==> final(record).wf(),
{
    if record.status == EscrowStatus::Completed {
        return Err(ProtocolError::EscrowAlreadyCompleted);
    }
    if record.status == EscrowStatus::Cancelled {
        return Err(ProtocolError::EscrowAlreadyCancelled);
    }
    if caller != record.buyer {
        return Err(ProtocolError::InvalidBuyer);
    }
    let refund: u64 = record.payment_amount;
    if refund > 0 {
        if !record.payment_medium.accounts_ok(&supplied_mint) {
            return Err(ProtocolError::InvalidVault);
        }
        record.vault.withdraw(refund);
        *buyer_balance = *buyer_balance + refund;
    }
    record.payment_amount = 0;
    record.status = EscrowStatus::Cancelled;
    Ok(refund)
}

/// A purchase attempted on an escrow in a terminal state — Completed or
/// Cancelled — is rejected with `InvalidEscrowStatus`, whatever the other
/// inputs; by the contract of `buy_and_mint`, the record, its vault balance
/// and the buyer's balance are then left unchanged.
pub proof fn lemma_buy_rejected_when_terminal(
    record: EscrowRecord,
    caller: Id32,
    payment_amount: u64,
    supplied_mint: Option<Id32>,
)
    requires
        record.status == EscrowStatus::Completed || record.status == EscrowStatus::Cancelled,
    ensures
        buy_reject(record, caller, payment_amount, supplied_mint)
            == Some(ProtocolError::InvalidEscrowStatus),
{
}

/// A cancellation of an already Cancelled escrow is rejected with
/// `EscrowAlreadyCancelled`, whatever the other inputs; by the contract of
/// `cancel_escrow`, nothing is mutated and nothing is refunded twice. A
/// first, successful cancellation leaves the vault empty — every deposited
/// unit went back to the buyer.
pub proof fn lemma_cancel_rejected_when_cancelled(
    record: EscrowRecord,
    caller: Id32,
    supplied_mint: Option<Id32>,
)
    requires
        record.status == EscrowStatus::Cancelled,
    ensures
        cancel_reject(record, caller, supplied_mint)
            == Some(ProtocolError::EscrowAlreadyCancelled),
{
}

/// A cancellation of a Completed escrow is rejected with
/// `EscrowAlreadyCompleted`, whatever the other inputs; by the contract of
/// `cancel_escrow`, no refund occurs.
pub proof fn lemma_cancel_rejected_when_completed(
    record: EscrowRecord,
    caller: Id32,
    supplied_mint: Option<Id32>,
)
    requires
        record.status == EscrowStatus::Completed,
    ensures
        cancel_reject(record, caller, supplied_mint)
            == Some(ProtocolError::EscrowAlreadyCompleted),
{
}

} // verus!
