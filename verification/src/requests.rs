//! Requests as clients send them, with accounts as text, and their
//! validation. Amounts are in the smallest unit of the currency.

use crate::cell::hash_bytes;
use crate::spread::SpreadWallet;
use tonlib_core::TonAddress;
use vstd::prelude::*;
use vstd::string::StringExecFns;

verus! {

/// What a text is as an address: its workchain and hash, or the words that
/// say why it is none.
pub uninterp spec fn parsed_address(text: Seq<char>) -> Result<(i32, Seq<u8>), Seq<char>>;

/// Whether `text` is a valid address.
pub open spec fn is_address(text: Seq<char>) -> bool {
    parsed_address(text) is Ok
}

/// Whether `address` is the address that `text` spells.
pub open spec fn spells_address(text: Seq<char>, address: TonAddress) -> bool {
    parsed_address(text) == Ok::<(i32, Seq<u8>), Seq<char>>(
        (address.workchain, hash_bytes(address.hash_part)),
    )
}

/// `TonAddress::from_str`, reached through `str::parse`: the address that a
/// text spells, in hexadecimal form or in one of the two base64 forms, with
/// its hash of thirty-two bytes, or the words of the error.
#[verifier::external_body]
pub(crate) fn parse_address(text: &str) -> (r: Result<TonAddress, String>)
    ensures
        match r {
            Ok(address) => parsed_address(text@) == Ok::<(i32, Seq<u8>), Seq<char>>(
                (address.workchain, hash_bytes(address.hash_part)),
            ) && hash_bytes(address.hash_part).len() == 32,
            Err(reason) => parsed_address(text@) == Err::<(i32, Seq<u8>), Seq<char>>(reason@),
        },
{
    text.parse::<TonAddress>().map_err(|e| e.to_string())
}

/// Why a request is refused before anything is built.
#[derive(Debug)]
pub enum ValidationError {
    /// The collect mode is none of 0, 1, 2 and 3.
    UnsupportedMode,
    /// The collect mode is 3 and no jetton wallet is given.
    MissingJettonWallet,
    /// The collect mode is 3 and no amount is given.
    MissingAmount,
    /// An account is no valid address; the words say why.
    InvalidAddress(String),
}

impl ValidationError {
    /// The words that a client is told.
    pub fn message(&self) -> (text: String)
        ensures
            text@ == match *self {
                ValidationError::UnsupportedMode => "collection mode must be 0, 1, 2 or 3"@,
                ValidationError::MissingJettonWallet =>
                    "in collection mode 3 field `jetton_wallet` is required"@,
                ValidationError::MissingAmount =>
                    "in collection mode 3 field `amount` is required"@,
                ValidationError::InvalidAddress(reason) => reason@,
            },
    {
        match self {
            ValidationError::UnsupportedMode => String::from_str(
                "collection mode must be 0, 1, 2 or 3",
            ),
            ValidationError::MissingJettonWallet => String::from_str(
                "in collection mode 3 field `jetton_wallet` is required",
            ),
            ValidationError::MissingAmount => String::from_str(
                "in collection mode 3 field `amount` is required",
            ),
            ValidationError::InvalidAddress(reason) => reason.clone(),
        }
    }
}

/// A collect request as a client sends it, with the amount in the smallest
/// unit of the currency.
#[derive(Debug, Clone)]
pub struct CollectPayload {
    pub mode: u8,
    pub jetton_wallet: Option<String>,
    pub amount: Option<u64>,
}

/// What a collect message is built from.
pub struct CollectMessageData {
    pub mode: u8,
    pub jetton_wallet: Option<TonAddress>,
    pub amount: Option<u64>,
}

/// One recipient of a spread as a client names it, with the amount in the
/// smallest unit of the currency.
#[derive(Debug, Clone)]
pub struct SpreadWalletPayload {
    pub account: String,
    pub amount: u64,
}

/// Whether a collect request passes the checks made on arrival: its mode is
/// one of 0, 1, 2 and 3, and in mode 3 it has a jetton wallet that is a valid
/// address, and an amount.
pub open spec fn collect_is_valid(request: CollectPayload) -> bool {
    &&& request.mode <= 3
    &&& request.mode == 3 ==> {
        &&& request.jetton_wallet matches Some(wallet)
        &&& is_address(wallet@)
        &&& request.amount is Some
    }
}

/// Whether `error` is what a collect request that does not pass the checks
/// is refused with: the first of the checks that it fails, in their order.
pub open spec fn is_collect_refusal(request: CollectPayload, error: ValidationError) -> bool {
    if request.mode > 3 {
        error is UnsupportedMode
    } else {
        match request.jetton_wallet {
            None => error is MissingJettonWallet,
            Some(wallet) => if is_address(wallet@) {
                error is MissingAmount
            } else {
                refuses(wallet@, error)
            },
        }
    }
}

/// Whether a collect message can be encoded from `data`: the mode is one of
/// 0, 1, 2 and 3, and in mode 3 the jetton wallet and the amount are there.
pub open spec fn can_be_encoded(data: CollectMessageData) -> bool {
    &&& data.mode <= 3
    &&& data.mode == 3 ==> data.jetton_wallet is Some && data.amount is Some
}

/// Whether the reading of a jetton wallet gave an address.
pub open spec fn gave_address(wallet: Option<Result<TonAddress, String>>) -> bool {
    wallet matches Some(Ok(_))
}

/// Whether the reading of a jetton wallet failed with the words `text`.
pub open spec fn failed_with(wallet: Option<Result<TonAddress, String>>, text: Seq<char>) -> bool {
    wallet matches Some(Err(reason)) && reason@ == text
}

/// The checks made on a collect request once its jetton wallet was read as
/// an address, in their order. `wallet` is what the reading gave: nothing
/// where no wallet was given, else the address or the words of the error.
/// The mode must be one of 0, 1, 2 and 3. In mode 3 the wallet must be
/// there, then it must be an address, then the amount must be there; in the
/// other modes neither is looked at.
pub fn check_collect_fields(
    mode: u8,
    wallet: &Option<Result<TonAddress, String>>,
    amount_given: bool,
) -> (r: Result<(), ValidationError>)
    ensures
        match r {
            Ok(_) => mode <= 3 && (mode == 3 ==> gave_address(*wallet) && amount_given),
            Err(ValidationError::UnsupportedMode) => mode > 3,
            Err(ValidationError::MissingJettonWallet) => mode == 3 && *wallet is None,
            Err(ValidationError::InvalidAddress(text)) => mode == 3 && failed_with(*wallet, text@),
            Err(ValidationError::MissingAmount) => mode == 3 && gave_address(*wallet)
                && !amount_given,
        },
{
    if mode > 3 {
        return Err(ValidationError::UnsupportedMode);
    }
    if mode == 3 {
        match wallet {
            None => {
                return Err(ValidationError::MissingJettonWallet);
            },
            Some(Err(reason)) => {
                return Err(ValidationError::InvalidAddress(reason.clone()));
            },
            Some(Ok(_)) => {},
        }
        if !amount_given {
            return Err(ValidationError::MissingAmount);
        }
    }
    Ok(())
}

/// What a collect message is built from, once the jetton wallet of the
/// request was read as an address. `wallet` is what the reading gave. A
/// request that fails the checks on its fields is refused with the first
/// that it fails; one of another mode than 3 whose wallet is no address is
/// refused for the wallet; any other gives the mode and the amount as they
/// are and the wallet as an address, and a message can be encoded from it.
pub fn collect_data_from(
    mode: u8,
    wallet: Option<Result<TonAddress, String>>,
    amount: Option<u64>,
) -> (r: Result<CollectMessageData, ValidationError>)
    ensures
        match r {
            Ok(data) => {
                &&& mode <= 3
                &&& data.mode == mode
                &&& data.amount == amount
                &&& match wallet {
                    None => data.jetton_wallet is None,
                    Some(Ok(address)) => data.jetton_wallet == Some(address),
                    Some(Err(_)) => false,
                }
                &&& can_be_encoded(data)
            },
            Err(ValidationError::UnsupportedMode) => mode > 3,
            Err(ValidationError::MissingJettonWallet) => mode == 3 && wallet is None,
            Err(ValidationError::InvalidAddress(text)) => mode <= 3 && failed_with(wallet, text@),
            Err(ValidationError::MissingAmount) => mode == 3 && gave_address(wallet)
                && amount is None,
        },
{
    match check_collect_fields(mode, &wallet, amount.is_some()) {
        Ok(_) => {},
        Err(e) => {
            return Err(e);
        },
    }
    let jetton_wallet = match wallet {
        None => None,
        Some(Ok(address)) => Some(address),
        Some(Err(reason)) => {
            return Err(ValidationError::InvalidAddress(reason));
        },
    };
    Ok(CollectMessageData { mode, jetton_wallet, amount })
}

/// The checks made on the arrival of a collect request, in their order: the
/// mode must be one of 0, 1, 2 and 3; in mode 3 the jetton wallet must be
/// there, then it must be a valid address, then the amount must be there.
pub fn validate_collect(request: &CollectPayload) -> (r: Result<(), ValidationError>)
    ensures
        r is Ok <==> collect_is_valid(*request),
        r matches Err(e) ==> is_collect_refusal(*request, e),
{
    let wallet = if request.mode == 3 {
        match &request.jetton_wallet {
            Some(text) => Some(parse_address(text.as_str())),
            None => None,
        }
    } else {
        None
    };
    check_collect_fields(request.mode, &wallet, request.amount.is_some())
}

/// What a collect message is built from, for a request that passes the
/// checks made on arrival and whose jetton wallet, where one is given, is a
/// valid address: the mode and the amount as they are, and the jetton wallet
/// as an address. A message can be encoded from it. Any other request is
/// refused: with the first check that it fails, or for its jetton wallet.
pub fn collect_message_data(request: &CollectPayload) -> (r: Result<
    CollectMessageData,
    ValidationError,
>)
    ensures
        r is Ok <==> collect_is_valid(*request) && (request.jetton_wallet matches Some(wallet)
            ==> is_address(wallet@)),
        r matches Ok(data) ==> {
            &&& data.mode == request.mode
            &&& data.amount == request.amount
            &&& match request.jetton_wallet {
                None => data.jetton_wallet is None,
                Some(wallet) => data.jetton_wallet matches Some(address) && spells_address(
                    wallet@,
                    address,
                ),
            }
            &&& can_be_encoded(data)
        },
        r matches Err(e) ==> if collect_is_valid(*request) {
            request.jetton_wallet matches Some(wallet) && refuses(wallet@, e)
        } else {
            is_collect_refusal(*request, e)
        },
{
    let wallet = match &request.jetton_wallet {
        Some(text) => Some(parse_address(text.as_str())),
        None => None,
    };
    collect_data_from(request.mode, wallet, request.amount)
}

/// Whether `error` is the refusal of `text`, which is no valid address, with
/// the words that say why.
pub open spec fn refuses(text: Seq<char>, error: ValidationError) -> bool {
    error matches ValidationError::InvalidAddress(reason) && parsed_address(text) == Err::<
        (i32, Seq<u8>),
        Seq<char>,
    >(reason@)
}

/// Whether the entry at `index` is the first whose account is no valid address.
pub open spec fn is_first_invalid(entries: Seq<SpreadWalletPayload>, index: int) -> bool {
    &&& 0 <= index < entries.len()
    &&& !is_address(entries[index].account@)
    &&& forall|j: int| 0 <= j < index ==> is_address(#[trigger] entries[j].account@)
}

/// Whether `wallets` are the recipients that `entries` name, one for one.
pub open spec fn names_wallets(
    entries: Seq<SpreadWalletPayload>,
    wallets: Seq<SpreadWallet>,
) -> bool {
    &&& wallets.len() == entries.len()
    &&& forall|i: int|
        0 <= i < entries.len() ==> (#[trigger] wallets[i]).amount == entries[i].amount
            && spells_address(entries[i].account@, wallets[i].account)
}

/// The recipients of a spread with their accounts as addresses, in the order
/// given, or the error of the first account that is no valid address.
pub fn spread_wallets(entries: &Vec<SpreadWalletPayload>) -> (r: Result<
    Vec<SpreadWallet>,
    ValidationError,
>)
    ensures
        r is Ok <==> forall|i: int|
            0 <= i < entries.len() ==> is_address(#[trigger] entries[i].account@),
        r matches Ok(wallets) ==> names_wallets(entries@, wallets@),
        r matches Err(e) ==> exists|i: int| #[trigger]
            is_first_invalid(entries@, i) && refuses(entries[i].account@, e),
{
    let mut wallets: Vec<SpreadWallet> = Vec::new();
    let mut i: usize = 0;
    while i < entries.len()
        invariant
            i <= entries.len(),
            names_wallets(entries@.take(i as int), wallets@),
            forall|j: int| 0 <= j < i ==> is_address(#[trigger] entries[j].account@),
        decreases entries.len() - i,
    {
        match parse_address(entries[i].account.as_str()) {
            Ok(account) => {
                wallets.push(SpreadWallet { account, amount: entries[i].amount });
            },
            Err(reason) => {
                proof {
                    assert(is_first_invalid(entries@, i as int));
                }
                return Err(ValidationError::InvalidAddress(reason));
            },
        }
        i = i + 1;
    }
    proof {
        assert(entries@.take(i as int) =~= entries@);
    }
    Ok(wallets)
}

} // verus!
