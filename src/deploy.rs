//! The decisions of one deployment transaction, as a state machine: the
//! caller performs each action against the chain and hands back what came of
//! it as the next event.
use crate::amount::{amount_max, less_than, Amount};
use crate::codec::{contract_deployment_calldata, encoded, push_all};
use crate::error::DeployError;
use crate::fees::{gwei_to_wei, required_funds, total_cost, WEI_PER_GWEI};
use alloy_primitives::Address;
use crate::text::{amount_decimal, decimal_of, format_units_text, units_text};
use vstd::prelude::*;
use vstd::string::StringExecFns;

verus! {

/// The address of the contract that `sender` creates with `nonce`.
pub uninterp spec fn created_address_of(sender: Seq<u8>, nonce: nat) -> Seq<u8>;

/// Relies on alloy's `Address::create`: the address of the contract that a
/// creation transaction from `sender` with `nonce` makes, which depends on
/// these two alone.
#[verifier::external_body]
pub(crate) fn created_address(sender: [u8; 20], nonce: u64) -> (r: [u8; 20])
    ensures
        r@ == created_address_of(sender@, nonce as nat),
{
    Address::new(sender).create(nonce).into_array()
}

/// A fee-parameterized transaction that creates a contract.
#[derive(Clone, Debug, PartialEq, Eq)]
pub struct TxRequest {
    pub from: [u8; 20],
    pub data: Vec<u8>,
    pub gas: Option<Amount>,
    pub max_fee_per_gas: Option<Amount>,
}

/// What the chain reported of a mined transaction.
#[derive(Clone, Copy, Debug, PartialEq, Eq)]
pub struct Receipt {
    pub status: Option<u64>,
    pub contract_address: Option<[u8; 20]>,
    pub gas_used: Option<Amount>,
}

/// The end of one deployment attempt.
#[derive(Clone, Debug, PartialEq, Eq)]
pub enum TransactionOutcome {
    /// The contract was created.
    Confirmed { address: [u8; 20], gas_used: Option<Amount>, tx_hash: [u8; 32] },
    /// The transaction was mined without success.
    Reverted { tx_hash: [u8; 32] },
    /// Estimate-only mode: nothing was sent.
    Estimated { address: [u8; 20], gas: Amount, gas_price: Amount, total_cost: Amount },
    /// The attempt stopped before a receipt could be classified.
    Failed { reason: DeployError },
}

/// The status that a receipt of a successful transaction carries.
pub const STATUS_SUCCESS: u64 = 1;

/// The outcome that a receipt of the transaction `tx_hash` stands for: a
/// success with a created contract is confirmed, a success without one is an
/// invariant violation, anything else reverted.
pub open spec fn receipt_outcome(receipt: Receipt, tx_hash: [u8; 32]) -> TransactionOutcome {
    if receipt.status == Some(STATUS_SUCCESS) {
        match receipt.contract_address {
            Some(a) => TransactionOutcome::Confirmed {
                address: a,
                gas_used: receipt.gas_used,
                tx_hash,
            },
            None => TransactionOutcome::Failed {
                reason: DeployError::MissingContractAddress { tx_hash },
            },
        }
    } else {
        TransactionOutcome::Reverted { tx_hash }
    }
}

/// A successful receipt with a created contract confirms that address under
/// the same hash; a successful receipt without one is a failure, never an
/// address; any other status is a revert that keeps the hash.
pub proof fn lemma_receipt_classification(receipt: Receipt, tx_hash: [u8; 32])
    ensures
        receipt.status == Some(STATUS_SUCCESS) && receipt.contract_address is Some
            ==> (receipt_outcome(receipt, tx_hash) matches TransactionOutcome::Confirmed {
            address,
            tx_hash: h,
            ..
        } && Some(address) == receipt.contract_address && h == tx_hash),
        receipt.status == Some(STATUS_SUCCESS) && receipt.contract_address is None
            ==> (receipt_outcome(receipt, tx_hash) matches TransactionOutcome::Failed {
            reason: DeployError::MissingContractAddress { .. },
        }),
        receipt.status != Some(STATUS_SUCCESS) ==> receipt_outcome(receipt, tx_hash)
            == (TransactionOutcome::Reverted { tx_hash }),
{
}

/// Classifies the receipt of the transaction `tx_hash`.
pub fn classify_receipt(receipt: Receipt, tx_hash: [u8; 32]) -> (r: TransactionOutcome)
    ensures
        r == receipt_outcome(receipt, tx_hash),
{
    match receipt.status {
        Some(s) if s == STATUS_SUCCESS => match receipt.contract_address {
            Some(a) => TransactionOutcome::Confirmed { address: a, gas_used: receipt.gas_used, tx_hash },
            None => TransactionOutcome::Failed {
                reason: DeployError::MissingContractAddress { tx_hash },
            },
        },
        _ => TransactionOutcome::Reverted { tx_hash },
    }
}

/// The fee ceiling in wei, if one was given in gwei.
pub open spec fn fee_ceiling_fits(max_fee_per_gas_gwei: Option<u128>) -> bool {
    match max_fee_per_gas_gwei {
        Some(g) => g * WEI_PER_GWEI <= u128::MAX,
        None => true,
    }
}

/// Applies the fee policy before sending: the estimated gas, and the fee
/// ceiling, converted from gwei, where one is given.
pub fn prepare_tx(tx: TxRequest, gas: Option<Amount>, max_fee_per_gas_gwei: Option<u128>) -> (r:
    Result<TxRequest, DeployError>)
    ensures
        r.is_ok() <==> fee_ceiling_fits(max_fee_per_gas_gwei),
        r matches Err(e) ==> e == DeployError::FeeOverflow,
        r matches Ok(t) ==> {
            &&& t.from == tx.from
            &&& t.data@ == tx.data@
            &&& t.gas == if gas.is_some() { gas } else { tx.gas }
            &&& match max_fee_per_gas_gwei {
                Some(g) => t.max_fee_per_gas matches Some(m) && m.value() == g * WEI_PER_GWEI,
                None => t.max_fee_per_gas == tx.max_fee_per_gas,
            }
        },
{
    let mut tx = tx;
    if let Some(g) = gas {
        tx.gas = Some(g);
    }
    if let Some(max_fee) = max_fee_per_gas_gwei {
        match gwei_to_wei(max_fee) {
            Ok(wei) => {
                tx.max_fee_per_gas = Some(Amount::from_u128(wei));
            },
            Err(e) => {
                return Err(e);
            },
        }
    }
    Ok(tx)
}

/// Where a deployment stands.
#[derive(Clone, Copy, Debug, PartialEq, Eq, Structural)]
pub enum Stage {
    Init,
    EstimatingGas,
    CheckingBalance,
    PricingGas,
    FetchingNonce,
    Sending,
    AwaitingReceipt,
    Finished,
}

/// What came of the last action.
#[derive(Clone, Debug, PartialEq, Eq)]
pub enum Event {
    Started,
    GasEstimated(Amount),
    BalanceFetched(Amount),
    GasPriceFetched(Amount),
    NonceFetched(u64),
    TxSent([u8; 32]),
    ReceiptFetched(Option<Receipt>),
    CallFailed(String),
}

/// What the caller is to do next.
#[derive(Clone, Debug, PartialEq, Eq)]
pub enum Action {
    EstimateGas(TxRequest),
    FetchBalance { account: [u8; 20] },
    FetchGasPrice,
    FetchNonce { account: [u8; 20] },
    Send(TxRequest),
    AwaitReceipt { tx_hash: [u8; 32] },
    Finish(TransactionOutcome),
    /// The event does not belong to the current stage; nothing changes.
    Ignore,
}

/// Whether `event` answers the action of `stage`.
pub open spec fn expected(stage: Stage, event: Event) -> bool {
    match stage {
        Stage::Init => event is Started,
        Stage::EstimatingGas => event is GasEstimated || event is CallFailed,
        Stage::CheckingBalance => event is BalanceFetched || event is CallFailed,
        Stage::PricingGas => event is GasPriceFetched || event is CallFailed,
        Stage::FetchingNonce => event is NonceFetched || event is CallFailed,
        Stage::Sending => event is TxSent || event is CallFailed,
        Stage::AwaitingReceipt => event is ReceiptFetched || event is CallFailed,
        Stage::Finished => false,
    }
}

/// The fee ceiling in wei that the transaction carries.
pub open spec fn fee_ceiling(max_fee_per_gas_gwei: Option<u128>) -> Option<int> {
    match max_fee_per_gas_gwei {
        Some(g) => Some(g * WEI_PER_GWEI),
        None => None,
    }
}

/// One deployment attempt.
#[derive(Clone, Debug)]
pub struct Deployment {
    pub sender: [u8; 20],
    /// The creation bytecode of the payload.
    pub init_code: Vec<u8>,
    /// The funds the sender must hold: data fee and constructor value.
    pub required: Amount,
    /// Estimate the cost and the address, and send nothing.
    pub estimate_only: bool,
    pub max_fee_per_gas_gwei: Option<u128>,
    pub stage: Stage,
    pub gas: Amount,
    pub gas_price: Amount,
    pub tx_hash: [u8; 32],
}

impl Deployment {
    /// An estimate-only deployment never reaches the stages that send.
    pub open spec fn wf(&self) -> bool {
        self.estimate_only ==> !(self.stage is Sending || self.stage is AwaitingReceipt)
    }

    /// Whether the fixed parts of `self` and `other` agree.
    pub open spec fn same_plan(&self, other: &Deployment) -> bool {
        &&& self.sender == other.sender
        &&& self.init_code@ == other.init_code@
        &&& self.required == other.required
        &&& self.estimate_only == other.estimate_only
        &&& self.max_fee_per_gas_gwei == other.max_fee_per_gas_gwei
    }

    /// Prepares the deployment of `code` from `sender`; fails where the
    /// data fee and the constructor value together overflow.
    pub fn new(
        sender: [u8; 20],
        code: &[u8],
        data_fee: Amount,
        constructor_value: Amount,
        estimate_only: bool,
        max_fee_per_gas_gwei: Option<u128>,
    ) -> (r: Result<Deployment, DeployError>)
        ensures
            r.is_ok() <==> data_fee.value() + constructor_value.value() <= amount_max(),
            r matches Err(e) ==> e == DeployError::AmountOverflow,
            r matches Ok(d) ==> {
                &&& d.wf()
                &&& d.stage == Stage::Init
                &&& d.sender == sender
                &&& d.init_code@ == encoded(code@)
                &&& d.required.value() == data_fee.value() + constructor_value.value()
                &&& d.estimate_only == estimate_only
                &&& d.max_fee_per_gas_gwei == max_fee_per_gas_gwei
            },
    {
        let required = match required_funds(data_fee, constructor_value) {
            Ok(a) => a,
            Err(e) => {
                return Err(e);
            },
        };
        Ok(Deployment {
            sender,
            init_code: contract_deployment_calldata(code),
            required,
            estimate_only,
            max_fee_per_gas_gwei,
            stage: Stage::Init,
            gas: Amount::zero(),
            gas_price: Amount::zero(),
            tx_hash: [0u8; 32],
        })
    }

    /// The creation transaction, without gas or fee settings.
    fn creation_tx(&self) -> (r: TxRequest)
        ensures
            r.from == self.sender,
            r.data@ == self.init_code@,
            r.gas is None,
            r.max_fee_per_gas is None,
    {
        let mut data: Vec<u8> = Vec::new();
        push_all(&mut data, self.init_code.as_slice());
        TxRequest { from: self.sender, data, gas: None, max_fee_per_gas: None }
    }

    fn finish(&mut self, outcome: TransactionOutcome) -> (a: Action)
        ensures
            final(self).same_plan(old(self)),
            final(self).stage == Stage::Finished,
            a == Action::Finish(outcome),
    {
        self.stage = Stage::Finished;
        Action::Finish(outcome)
    }

    /// Takes the deployment one step on: from what came of the last action
    /// to the next action.
    pub fn step(&mut self, event: Event) -> (a: Action)
        requires
            old(self).wf(),
        ensures
            final(self).wf(),
            final(self).same_plan(old(self)),
            !expected(old(self).stage, event) ==> a == Action::Ignore && *final(self) == *old(self),
            old(self).stage == Stage::Init && event is Started ==> {
                &&& final(self).stage == Stage::EstimatingGas
                &&& a matches Action::EstimateGas(tx) && tx.from == old(self).sender
                    && tx.data@ == old(self).init_code@ && tx.gas is None
                    && tx.max_fee_per_gas is None
            },
            old(self).stage == Stage::EstimatingGas ==> match event {
                Event::GasEstimated(g) => final(self).stage == Stage::CheckingBalance
                    && final(self).gas == g && a == (Action::FetchBalance {
                    account: old(self).sender,
                }),
                Event::CallFailed(m) => final(self).stage == Stage::Finished && a == Action::Finish(
                    TransactionOutcome::Failed {
                        reason: DeployError::EstimationFailure { reason: m },
                    },
                ),
                _ => true,
            },
            old(self).stage == Stage::CheckingBalance ==> match event {
                Event::BalanceFetched(b) => if b.value() < old(self).required.value()
                    && !old(self).estimate_only {
                    final(self).stage == Stage::Finished && a == Action::Finish(
                        TransactionOutcome::Failed {
                            reason: DeployError::InsufficientFunds {
                                sender: old(self).sender,
                                balance: b,
                                required: old(self).required,
                            },
                        },
                    )
                } else if old(self).estimate_only {
                    final(self).stage == Stage::PricingGas && a == Action::FetchGasPrice
                } else if fee_ceiling_fits(old(self).max_fee_per_gas_gwei) {
                    &&& final(self).stage == Stage::Sending
                    &&& a matches Action::Send(tx) && tx.from == old(self).sender
                        && tx.data@ == old(self).init_code@ && tx.gas == Some(old(self).gas)
                        && match fee_ceiling(old(self).max_fee_per_gas_gwei) {
                        Some(w) => tx.max_fee_per_gas matches Some(m) && m.value() == w,
                        None => tx.max_fee_per_gas is None,
                    }
                } else {
                    final(self).stage == Stage::Finished && a == Action::Finish(
                        TransactionOutcome::Failed { reason: DeployError::FeeOverflow },
                    )
                },
                Event::CallFailed(m) => final(self).stage == Stage::Finished && a == Action::Finish(
                    TransactionOutcome::Failed { reason: DeployError::QueryFailure { reason: m } },
                ),
                _ => true,
            },
            old(self).stage == Stage::PricingGas ==> match event {
                Event::GasPriceFetched(p) => final(self).stage == Stage::FetchingNonce
                    && final(self).gas_price == p && a == (Action::FetchNonce {
                    account: old(self).sender,
                }),
                Event::CallFailed(m) => final(self).stage == Stage::Finished && a == Action::Finish(
                    TransactionOutcome::Failed { reason: DeployError::QueryFailure { reason: m } },
                ),
                _ => true,
            },
            old(self).stage == Stage::FetchingNonce ==> match event {
                Event::NonceFetched(n) => {
                    &&& final(self).stage == Stage::Finished
                    &&& a matches Action::Finish(
                        TransactionOutcome::Estimated { address, gas, gas_price, total_cost },
                    ) && address@ == created_address_of(old(self).sender@, n as nat) && gas
                        == old(self).gas && gas_price == old(self).gas_price
                        && total_cost.value() == if gas.value() * gas_price.value()
                        <= amount_max() {
                        gas.value() * gas_price.value()
                    } else {
                        amount_max()
                    }
                },
                Event::CallFailed(m) => final(self).stage == Stage::Finished && a == Action::Finish(
                    TransactionOutcome::Failed { reason: DeployError::QueryFailure { reason: m } },
                ),
                _ => true,
            },
            old(self).stage == Stage::Sending ==> match event {
                Event::TxSent(h) => final(self).stage == Stage::AwaitingReceipt
                    && final(self).tx_hash == h && a == (Action::AwaitReceipt { tx_hash: h }),
                Event::CallFailed(m) => final(self).stage == Stage::Finished && a == Action::Finish(
                    TransactionOutcome::Failed {
                        reason: DeployError::SubmissionFailure { reason: m },
                    },
                ),
                _ => true,
            },
            old(self).stage == Stage::AwaitingReceipt ==> match event {
                Event::ReceiptFetched(Some(r)) => final(self).stage == Stage::Finished && a
                    == Action::Finish(receipt_outcome(r, old(self).tx_hash)),
                Event::ReceiptFetched(None) => final(self).stage == Stage::Finished && a
                    == Action::Finish(
                    TransactionOutcome::Failed {
                        reason: DeployError::MissingReceipt { tx_hash: old(self).tx_hash },
                    },
                ),
                Event::CallFailed(m) => final(self).stage == Stage::Finished && a == Action::Finish(
                    TransactionOutcome::Failed { reason: DeployError::ReceiptFailure { reason: m } },
                ),
                _ => true,
            },
            // A transaction is sent only after a balance that covers the
            // required funds was seen, and never in estimate-only mode.
            a is Send ==> {
                &&& old(self).stage == Stage::CheckingBalance
                &&& !old(self).estimate_only
                &&& event matches Event::BalanceFetched(b) && b.value() >= old(self).required.value()
            },
            old(self).estimate_only ==> !(a is Send) && !(a is AwaitReceipt),
    {
        match (self.stage, event) {
            (Stage::Init, Event::Started) => {
                self.stage = Stage::EstimatingGas;
                Action::EstimateGas(self.creation_tx())
            },
            (Stage::EstimatingGas, Event::GasEstimated(g)) => {
                self.gas = g;
                self.stage = Stage::CheckingBalance;
                Action::FetchBalance { account: self.sender }
            },
            (Stage::EstimatingGas, Event::CallFailed(m)) => self.finish(
                TransactionOutcome::Failed { reason: DeployError::EstimationFailure { reason: m } },
            ),
            (Stage::CheckingBalance, Event::BalanceFetched(b)) => {
                if less_than(b, self.required) && !self.estimate_only {
                    let required = self.required;
                    let sender = self.sender;
                    self.finish(
                        TransactionOutcome::Failed {
                            reason: DeployError::InsufficientFunds { sender, balance: b, required },
                        },
                    )
                } else if self.estimate_only {
                    self.stage = Stage::PricingGas;
                    Action::FetchGasPrice
                } else {
                    let tx = self.creation_tx();
                    match prepare_tx(tx, Some(self.gas), self.max_fee_per_gas_gwei) {
                        Ok(tx) => {
                            self.stage = Stage::Sending;
                            Action::Send(tx)
                        },
                        Err(e) => self.finish(TransactionOutcome::Failed { reason: e }),
                    }
                }
            },
            (Stage::CheckingBalance, Event::CallFailed(m)) | (Stage::PricingGas, Event::CallFailed(m))
            | (Stage::FetchingNonce, Event::CallFailed(m)) => self.finish(
                TransactionOutcome::Failed { reason: DeployError::QueryFailure { reason: m } },
            ),
            (Stage::PricingGas, Event::GasPriceFetched(p)) => {
                self.gas_price = p;
                self.stage = Stage::FetchingNonce;
                Action::FetchNonce { account: self.sender }
            },
            (Stage::FetchingNonce, Event::NonceFetched(n)) => {
                let address = created_address(self.sender, n);
                let cost = total_cost(self.gas, self.gas_price);
                let outcome = TransactionOutcome::Estimated {
                    address,
                    gas: self.gas,
                    gas_price: self.gas_price,
                    total_cost: cost,
                };
                self.finish(outcome)
            },
            (Stage::Sending, Event::TxSent(h)) => {
                self.tx_hash = h;
                self.stage = Stage::AwaitingReceipt;
                Action::AwaitReceipt { tx_hash: h }
            },
            (Stage::Sending, Event::CallFailed(m)) => self.finish(
                TransactionOutcome::Failed { reason: DeployError::SubmissionFailure { reason: m } },
            ),
            (Stage::AwaitingReceipt, Event::ReceiptFetched(Some(r))) => {
                let outcome = classify_receipt(r, self.tx_hash);
                self.finish(outcome)
            },
            (Stage::AwaitingReceipt, Event::ReceiptFetched(None)) => {
                let tx_hash = self.tx_hash;
                self.finish(
                    TransactionOutcome::Failed { reason: DeployError::MissingReceipt { tx_hash } },
                )
            },
            (Stage::AwaitingReceipt, Event::CallFailed(m)) => self.finish(
                TransactionOutcome::Failed { reason: DeployError::ReceiptFailure { reason: m } },
            ),
            _ => Action::Ignore,
        }
    }
}

/// The cost breakdown of a transaction `name` that takes `gas` units at
/// `gas_price` wei each: the gas, the price in gwei, and the total cost,
/// saturating, in ether.
pub open spec fn gas_estimate_text(name: Seq<char>, gas: Amount, gas_price: Amount) -> Seq<
    Seq<char>,
> {
    let total = if gas.value() * gas_price.value() <= amount_max() {
        gas.value() * gas_price.value()
    } else {
        amount_max()
    };
    seq![
        "estimates"@,
        name + " tx gas: "@ + decimal_of(gas.value() as nat),
        "gas price: "@ + units_text(gas_price.value() as nat, 9) + " gwei"@,
        name + " tx total cost: "@ + units_text(total as nat, 18) + " ETH"@,
    ]
}

/// The lines that report the estimated cost of the transaction `name`.
pub fn gas_estimate_lines(name: &str, gas: Amount, gas_price: Amount) -> (r: Vec<String>)
    ensures
        r@.len() == 4,
        forall|i: int| 0 <= i < 4 ==> #[trigger] r@[i]@ == gas_estimate_text(name@, gas, gas_price)[i],
{
    let total = total_cost(gas, gas_price);
    let mut lines: Vec<String> = Vec::new();
    lines.push(String::from_str("estimates"));

    let mut l1 = String::from_str(name);
    l1.append(" tx gas: ");
    l1.append(amount_decimal(gas).as_str());
    lines.push(l1);

    let mut l2 = String::from_str("gas price: ");
    match format_units_text(gas_price, 9) {
        Some(t) => l2.append(t.as_str()),
        None => {},
    }
    l2.append(" gwei");
    lines.push(l2);

    let mut l3 = String::from_str(name);
    l3.append(" tx total cost: ");
    match format_units_text(total, 18) {
        Some(t) => l3.append(t.as_str()),
        None => {},
    }
    l3.append(" ETH");
    lines.push(l3);
    proof {
        reveal_strlit("estimates");
        reveal_strlit(" tx gas: ");
        reveal_strlit("gas price: ");
        reveal_strlit(" gwei");
        reveal_strlit(" tx total cost: ");
        reveal_strlit(" ETH");
        assert(lines@[0]@ == gas_estimate_text(name@, gas, gas_price)[0]);
        assert(lines@[1]@ == gas_estimate_text(name@, gas, gas_price)[1]);
        assert(lines@[2]@ == gas_estimate_text(name@, gas, gas_price)[2]);
        assert(lines@[3]@ == gas_estimate_text(name@, gas, gas_price)[3]);
    }
    lines
}

} // verus!
