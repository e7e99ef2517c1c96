use soroban_sdk::{Address, ConversionError, Env, InvokeError};
use vstd::prelude::*;

use crate::error::EscrowError;

verus! {

#[verifier::external_type_specification]
#[verifier::external_body]
pub struct ExEnv(Env);

#[verifier::external_type_specification]
#[verifier::external_body]
pub struct ExAddress(Address);

#[verifier::external_type_specification]
#[verifier::external_body]
pub struct ExConversionError(ConversionError);

#[verifier::external_type_specification]
#[verifier::external_body]
pub struct ExHostError(soroban_sdk::Error);

#[verifier::external_type_specification]
#[verifier::external_body]
pub struct ExInvokeError(InvokeError);

/// Why a transfer must not start, judged on the sender's balance before it.
pub open spec fn transfer_preflight_error(amount: int, sender_before: int) -> Option<EscrowError> {
    if amount <= 0 {
        Some(EscrowError::TransferAmountNotPositive)
    } else if sender_before < amount {
        Some(EscrowError::InsufficientTokenBalanceBeforeTransfer)
    } else {
        None
    }
}

pub open spec fn fits_i128(x: int) -> bool {
    i128::MIN <= x <= i128::MAX
}

/// Why a completed transfer is rejected, judged on the balances observed
/// around it: each side must have moved by exactly `amount`.
pub open spec fn transfer_delta_error(
    amount: int,
    sender_before: int,
    recipient_before: int,
    sender_after: int,
    recipient_after: int,
) -> Option<EscrowError> {
    if !fits_i128(sender_before - sender_after) {
        Some(EscrowError::SenderBalanceUnderflow)
    } else if !fits_i128(recipient_after - recipient_before) {
        Some(EscrowError::RecipientBalanceUnderflow)
    } else if sender_before - sender_after != amount {
        Some(EscrowError::SenderBalanceDeltaMismatch)
    } else if recipient_after - recipient_before != amount {
        Some(EscrowError::RecipientBalanceDeltaMismatch)
    } else {
        None
    }
}

/// The errors a checked transfer can end in.
pub open spec fn is_transfer_error(e: EscrowError) -> bool {
    ||| e == EscrowError::TransferAmountNotPositive
    ||| e == EscrowError::InsufficientTokenBalanceBeforeTransfer
    ||| e == EscrowError::SenderBalanceUnderflow
    ||| e == EscrowError::RecipientBalanceUnderflow
    ||| e == EscrowError::SenderBalanceDeltaMismatch
    ||| e == EscrowError::RecipientBalanceDeltaMismatch
    ||| e == EscrowError::TokenBalanceReadFailed
    ||| e == EscrowError::TokenTransferFailed
    ||| e == EscrowError::TokenNotContract
}

/// The Stellar strkey of an address, as `soroban_sdk::Address::to_string`
/// gives it: `G...` for an account, `C...` for a contract.
pub uninterp spec fn address_strkey(a: Address) -> Seq<u8>;

/// Whether a strkey names a contract: its first character is `C`.
pub open spec fn is_contract_strkey(k: Seq<u8>) -> bool {
    k.len() > 0 && k[0] == 0x43u8
}

/// Balances observed around a checked transfer.
#[derive(Clone, Copy, Debug, PartialEq, Eq, Structural)]
pub struct TransferReceipt {
    pub amount: i128,
    pub sender_before: i128,
    pub recipient_before: i128,
    pub sender_after: i128,
    pub recipient_after: i128,
}

/// Decides whether a transfer of `amount` may start.
pub fn check_transfer_preflight(amount: i128, sender_before: i128) -> (r: Result<(), EscrowError>)
    ensures
        match transfer_preflight_error(amount as int, sender_before as int) {
            Some(e) => r == Err::<(), EscrowError>(e),
            None => r is Ok,
        },
{
    if amount <= 0 {
        return Err(EscrowError::TransferAmountNotPositive);
    }
    if sender_before < amount {
        return Err(EscrowError::InsufficientTokenBalanceBeforeTransfer);
    }
    Ok(())
}

/// Decides whether the observed balance movements match `amount` exactly
/// (rejecting, for instance, fee-on-transfer tokens).
pub fn check_transfer_deltas(
    amount: i128,
    sender_before: i128,
    recipient_before: i128,
    sender_after: i128,
    recipient_after: i128,
) -> (r: Result<(), EscrowError>)
    ensures
        match transfer_delta_error(
            amount as int,
            sender_before as int,
            recipient_before as int,
            sender_after as int,
            recipient_after as int,
        ) {
            Some(e) => r == Err::<(), EscrowError>(e),
            None => r is Ok,
        },
{
    let spent = match sender_before.checked_sub(sender_after) {
        Some(v) => v,
        None => return Err(EscrowError::SenderBalanceUnderflow),
    };
    let received = match recipient_after.checked_sub(recipient_before) {
        Some(v) => v,
        None => return Err(EscrowError::RecipientBalanceUnderflow),
    };
    if spent != amount {
        return Err(EscrowError::SenderBalanceDeltaMismatch);
    }
    if received != amount {
        return Err(EscrowError::RecipientBalanceDeltaMismatch);
    }
    Ok(())
}

/// `soroban_sdk::Address::to_string`: the address's Stellar strkey, as
/// bytes. The host encodes the address it holds and reads no ledger entry;
/// an address object is always an account or a contract, so the encoding
/// does not fail. The contract claims that the bytes are the address's
/// strkey, whatever that is, and no more.
#[verifier::external_body]
fn strkey_bytes(a: &Address) -> (k: Vec<u8>)
    ensures
        k@ == address_strkey(*a),
{
    let s = a.to_string();
    let mut k = vec![0u8; s.len() as usize];
    s.copy_into_slice(&mut k);
    k
}

/// `soroban_sdk::token::TokenClient::try_balance`: asks the token contract
/// for the balance of `id` and hands back what the host returned; a failed
/// invocation (no contract deployed there, a trap or error in the token)
/// comes back as an error instead of trapping. The host refuses to recover
/// only from a token address that is not a contract address, which
/// `requires` leaves out, and from failures of the host's own limits (an
/// exhausted budget, a ledger entry outside the transaction's footprint),
/// which no argument decides. The balance depends on ledger state and on
/// the token's own code, so nothing is claimed of it.
#[verifier::external_body]
fn token_balance(env: &Env, token: &Address, id: &Address) -> (r: Result<
    Result<i128, soroban_sdk::Error>,
    Result<soroban_sdk::Error, InvokeError>,
>)
    requires
        is_contract_strkey(address_strkey(*token)),
{
    soroban_sdk::token::TokenClient::new(env, token).try_balance(id)
}

/// `soroban_sdk::token::TokenClient::try_transfer`: asks the token contract
/// to move `amount` from `from` to `to` and hands back what the host
/// returned; a refused transfer (too small a balance, missing authorization,
/// no contract deployed there) comes back as an error and its effects are
/// rolled back. As for the balance read, `requires` leaves out a token
/// address that is not a contract address, and failures of the host's own
/// limits still abort the invocation. Whether the transfer succeeds depends
/// on ledger state, so nothing is claimed of it.
#[verifier::external_body]
fn token_transfer(env: &Env, token: &Address, from: &Address, to: &Address, amount: i128) -> (r:
    Result<Result<(), ConversionError>, Result<soroban_sdk::Error, InvokeError>>)
    requires
        is_contract_strkey(address_strkey(*token)),
{
    soroban_sdk::token::TokenClient::new(env, token).try_transfer(from, to, &amount)
}

/// Whether `token` is a contract address.
fn is_contract_address(token: &Address) -> (b: bool)
    ensures
        b == is_contract_strkey(address_strkey(*token)),
{
    let k = strkey_bytes(token);
    k.len() > 0 && k[0] == 0x43u8
}

/// Reads the token balance of `id`, turning a failed read into an error.
fn read_balance(env: &Env, token: &Address, id: &Address) -> (r: Result<i128, EscrowError>)
    requires
        is_contract_strkey(address_strkey(*token)),
    ensures
        r matches Err(e) ==> e == EscrowError::TokenBalanceReadFailed,
{
    match token_balance(env, token, id) {
        Ok(Ok(b)) => Ok(b),
        _ => Err(EscrowError::TokenBalanceReadFailed),
    }
}

/// Moves `amount` of the funding token from `from` to `to` and verifies,
/// from balances read before and after, that exactly `amount` left the
/// sender and arrived at the recipient. A non-positive amount is refused
/// first, then a token address that is not a contract address, both before
/// the token is consulted; a failed balance read or transfer is reported as
/// an error rather than trapping.
pub fn transfer_funding_token_with_balance_checks(
    env: &Env,
    token: &Address,
    from: &Address,
    to: &Address,
    amount: i128,
) -> (r: Result<TransferReceipt, EscrowError>)
    ensures
        r == Err::<TransferReceipt, EscrowError>(EscrowError::TransferAmountNotPositive) <==> amount
            <= 0,
        r == Err::<TransferReceipt, EscrowError>(EscrowError::TokenNotContract) <==> (amount > 0
            && !is_contract_strkey(address_strkey(*token))),
        r matches Ok(rc) ==> {
            &&& rc.amount == amount
            &&& transfer_preflight_error(amount as int, rc.sender_before as int) is None
            &&& transfer_delta_error(
                amount as int,
                rc.sender_before as int,
                rc.recipient_before as int,
                rc.sender_after as int,
                rc.recipient_after as int,
            ) is None
            &&& amount > 0
            &&& rc.sender_before >= amount
            &&& rc.sender_before - rc.sender_after == amount
            &&& rc.recipient_after - rc.recipient_before == amount
        },
        r matches Err(e) ==> is_transfer_error(e),
{
    if amount <= 0 {
        return Err(EscrowError::TransferAmountNotPositive);
    }
    if !is_contract_address(token) {
        return Err(EscrowError::TokenNotContract);
    }
    let sender_before = read_balance(env, token, from)?;
    let recipient_before = read_balance(env, token, to)?;
    check_transfer_preflight(amount, sender_before)?;
    match token_transfer(env, token, from, to, amount) {
        Ok(Ok(())) => {},
        _ => return Err(EscrowError::TokenTransferFailed),
    }
    let sender_after = read_balance(env, token, from)?;
    let recipient_after = read_balance(env, token, to)?;
    check_transfer_deltas(amount, sender_before, recipient_before, sender_after, recipient_after)?;
    Ok(
        TransferReceipt {
            amount,
            sender_before,
            recipient_before,
            sender_after,
            recipient_after,
        },
    )
}

} // verus!
