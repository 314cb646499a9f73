use alloy_primitives::Address;
use stylus_deploy::amount::Amount;
use stylus_deploy::check::ContractCheck;
use stylus_deploy::codec::contract_deployment_calldata;
use stylus_deploy::config::{CheckConfig, DeployConfig};
use stylus_deploy::deploy::{
    classify_receipt, gas_estimate_lines, prepare_tx, Action, Deployment, Event, Receipt, Stage,
    TransactionOutcome, TxRequest,
};
use stylus_deploy::error::DeployError;

const SENDER: [u8; 20] = [0x11; 20];
const HASH: [u8; 32] = [0x22; 32];
const CREATED: [u8; 20] = [0x33; 20];

fn amount(v: u128) -> Amount {
    Amount::from_u128(v)
}

/// A chain that answers every query and counts what it was asked.
struct FakeChain {
    balance: u128,
    gas: u128,
    gas_price: u128,
    nonce: u64,
    receipt: Option<Receipt>,
    estimates: usize,
    sends: usize,
    waits: usize,
    sent: Option<TxRequest>,
}

impl FakeChain {
    fn new(balance: u128) -> FakeChain {
        FakeChain {
            balance,
            gas: 21_000,
            gas_price: 1_500_000_000,
            nonce: 7,
            receipt: Some(Receipt {
                status: Some(1),
                contract_address: Some(CREATED),
                gas_used: Some(Amount::from_u128(20_000)),
            }),
            estimates: 0,
            sends: 0,
            waits: 0,
            sent: None,
        }
    }

    fn run(&mut self, d: &mut Deployment) -> TransactionOutcome {
        let mut event = Event::Started;
        for _ in 0..20 {
            match d.step(event) {
                Action::EstimateGas(_) => {
                    self.estimates += 1;
                    event = Event::GasEstimated(amount(self.gas));
                }
                Action::FetchBalance { .. } => event = Event::BalanceFetched(amount(self.balance)),
                Action::FetchGasPrice => event = Event::GasPriceFetched(amount(self.gas_price)),
                Action::FetchNonce { .. } => event = Event::NonceFetched(self.nonce),
                Action::Send(tx) => {
                    self.sends += 1;
                    self.sent = Some(tx);
                    event = Event::TxSent(HASH);
                }
                Action::AwaitReceipt { .. } => {
                    self.waits += 1;
                    event = Event::ReceiptFetched(self.receipt);
                }
                Action::Finish(outcome) => return outcome,
                Action::Ignore => panic!("event ignored"),
            }
        }
        panic!("deployment did not finish");
    }
}

fn deployment(fee: u128, estimate_only: bool, max_fee: Option<u128>) -> Deployment {
    Deployment::new(SENDER, &[1, 2, 3], amount(fee), amount(0), estimate_only, max_fee).unwrap()
}

#[test]
fn insufficient_funds_stops_before_submission() {
    let mut chain = FakeChain::new(5);
    let mut d = deployment(10, false, None);
    let outcome = chain.run(&mut d);
    assert_eq!(
        outcome,
        TransactionOutcome::Failed {
            reason: DeployError::InsufficientFunds {
                sender: SENDER,
                balance: amount(5),
                required: amount(10),
            },
        }
    );
    assert_eq!(chain.sends, 0);
    assert_eq!(chain.waits, 0);
    assert_eq!(d.stage, Stage::Finished);
}

#[test]
fn balance_equal_to_fee_is_enough() {
    let mut chain = FakeChain::new(10);
    let mut d = deployment(10, false, None);
    let outcome = chain.run(&mut d);
    assert_eq!(
        outcome,
        TransactionOutcome::Confirmed {
            address: CREATED,
            gas_used: Some(amount(20_000)),
            tx_hash: HASH,
        }
    );
    assert_eq!(chain.sends, 1);
    let tx = chain.sent.unwrap();
    assert_eq!(tx.from, SENDER);
    assert_eq!(tx.data, contract_deployment_calldata(&[1, 2, 3]));
    assert_eq!(tx.gas, Some(amount(21_000)));
    assert_eq!(tx.max_fee_per_gas, None);
}

#[test]
fn constructor_value_counts_toward_required_funds() {
    let mut chain = FakeChain::new(14);
    let mut d = Deployment::new(SENDER, &[9], amount(10), amount(5), false, None).unwrap();
    assert_eq!(d.required, amount(15));
    let outcome = chain.run(&mut d);
    assert!(matches!(
        outcome,
        TransactionOutcome::Failed { reason: DeployError::InsufficientFunds { .. } }
    ));
    assert_eq!(chain.sends, 0);
}

#[test]
fn fee_ceiling_is_applied_in_wei() {
    let mut chain = FakeChain::new(100);
    let mut d = deployment(0, false, Some(2));
    chain.run(&mut d);
    assert_eq!(chain.sent.unwrap().max_fee_per_gas, Some(amount(2_000_000_000)));
}

#[test]
fn fee_ceiling_overflow_fails_before_submission() {
    let mut chain = FakeChain::new(100);
    let mut d = deployment(0, false, Some(u128::MAX));
    let outcome = chain.run(&mut d);
    assert_eq!(outcome, TransactionOutcome::Failed { reason: DeployError::FeeOverflow });
    assert_eq!(chain.sends, 0);
}

#[test]
fn estimate_only_never_submits_and_reports_created_address() {
    let mut chain = FakeChain::new(0);
    let mut d = deployment(10, true, None);
    let outcome = chain.run(&mut d);
    let expected = Address::new(SENDER).create(7).into_array();
    assert_eq!(
        outcome,
        TransactionOutcome::Estimated {
            address: expected,
            gas: amount(21_000),
            gas_price: amount(1_500_000_000),
            total_cost: amount(31_500_000_000_000),
        }
    );
    assert_eq!(chain.estimates, 1);
    assert_eq!(chain.sends, 0);
    assert_eq!(chain.waits, 0);
}

#[test]
fn created_address_matches_known_value() {
    let sender: [u8; 20] = [
        0xb2, 0x0a, 0x60, 0x8c, 0x62, 0x4c, 0xa5, 0x00, 0x39, 0x05, 0xaa, 0x83, 0x4d, 0xe7, 0x15,
        0x6c, 0x68, 0xb2, 0xe1, 0xd0,
    ];
    let mut d = Deployment::new(sender, &[], amount(0), amount(0), true, None).unwrap();
    let mut chain = FakeChain::new(0);
    chain.nonce = 0;
    let outcome = chain.run(&mut d);
    let expected: [u8; 20] = [
        0x00, 0x00, 0x00, 0x00, 0x21, 0x9a, 0xb5, 0x40, 0x35, 0x6c, 0xbb, 0x83, 0x9c, 0xbe, 0x05,
        0x30, 0x3d, 0x77, 0x05, 0xfa,
    ];
    assert!(matches!(outcome, TransactionOutcome::Estimated { address, .. } if address == expected));
}

#[test]
fn reverted_receipt_keeps_hash() {
    let mut chain = FakeChain::new(100);
    chain.receipt = Some(Receipt { status: Some(0), contract_address: None, gas_used: None });
    let mut d = deployment(0, false, None);
    assert_eq!(chain.run(&mut d), TransactionOutcome::Reverted { tx_hash: HASH });
}

#[test]
fn missing_receipt_fails() {
    let mut chain = FakeChain::new(100);
    chain.receipt = None;
    let mut d = deployment(0, false, None);
    assert_eq!(
        chain.run(&mut d),
        TransactionOutcome::Failed { reason: DeployError::MissingReceipt { tx_hash: HASH } }
    );
}

#[test]
fn receipt_classification() {
    let ok = Receipt { status: Some(1), contract_address: Some(CREATED), gas_used: None };
    assert_eq!(
        classify_receipt(ok, HASH),
        TransactionOutcome::Confirmed { address: CREATED, gas_used: None, tx_hash: HASH }
    );
    let reverted = Receipt { status: Some(0), contract_address: Some(CREATED), gas_used: None };
    assert_eq!(classify_receipt(reverted, HASH), TransactionOutcome::Reverted { tx_hash: HASH });
    let no_status = Receipt { status: None, contract_address: None, gas_used: None };
    assert_eq!(classify_receipt(no_status, HASH), TransactionOutcome::Reverted { tx_hash: HASH });
    let no_address = Receipt { status: Some(1), contract_address: None, gas_used: None };
    assert_eq!(
        classify_receipt(no_address, HASH),
        TransactionOutcome::Failed {
            reason: DeployError::MissingContractAddress { tx_hash: HASH },
        }
    );
}

#[test]
fn failures_at_each_stage() {
    let mut d = deployment(0, false, None);
    assert!(matches!(d.step(Event::Started), Action::EstimateGas(_)));
    assert_eq!(
        d.step(Event::CallFailed("no".to_string())),
        Action::Finish(TransactionOutcome::Failed {
            reason: DeployError::EstimationFailure { reason: "no".to_string() },
        })
    );

    let mut d = deployment(0, false, None);
    d.step(Event::Started);
    d.step(Event::GasEstimated(amount(1)));
    d.step(Event::BalanceFetched(amount(1)));
    assert_eq!(d.stage, Stage::Sending);
    assert_eq!(
        d.step(Event::CallFailed("down".to_string())),
        Action::Finish(TransactionOutcome::Failed {
            reason: DeployError::SubmissionFailure { reason: "down".to_string() },
        })
    );

    let mut d = deployment(0, false, None);
    d.step(Event::Started);
    d.step(Event::GasEstimated(amount(1)));
    d.step(Event::BalanceFetched(amount(1)));
    d.step(Event::TxSent(HASH));
    assert_eq!(
        d.step(Event::CallFailed("timeout".to_string())),
        Action::Finish(TransactionOutcome::Failed {
            reason: DeployError::ReceiptFailure { reason: "timeout".to_string() },
        })
    );

    let mut d = deployment(0, false, None);
    d.step(Event::Started);
    d.step(Event::GasEstimated(amount(1)));
    assert_eq!(
        d.step(Event::CallFailed("balance".to_string())),
        Action::Finish(TransactionOutcome::Failed {
            reason: DeployError::QueryFailure { reason: "balance".to_string() },
        })
    );
}

#[test]
fn unexpected_events_are_ignored() {
    let mut d = deployment(0, false, None);
    assert_eq!(d.step(Event::TxSent(HASH)), Action::Ignore);
    assert_eq!(d.stage, Stage::Init);
    d.step(Event::Started);
    assert_eq!(d.step(Event::Started), Action::Ignore);
    assert_eq!(d.stage, Stage::EstimatingGas);
    let mut chain = FakeChain::new(5);
    let mut done = deployment(10, false, None);
    chain.run(&mut done);
    assert_eq!(done.step(Event::BalanceFetched(amount(100))), Action::Ignore);
    assert_eq!(done.stage, Stage::Finished);
}

#[test]
fn amount_overflow_in_required_funds() {
    let max = Amount { limbs: [u64::MAX; 4] };
    let r = Deployment::new(SENDER, &[], max, amount(1), false, None);
    assert_eq!(r.unwrap_err(), DeployError::AmountOverflow);
}

#[test]
fn prepare_tx_sets_gas_and_fee() {
    let tx = TxRequest { from: SENDER, data: vec![1], gas: None, max_fee_per_gas: None };
    let t = prepare_tx(tx.clone(), Some(amount(5)), Some(3)).unwrap();
    assert_eq!(t.gas, Some(amount(5)));
    assert_eq!(t.max_fee_per_gas, Some(amount(3_000_000_000)));
    assert_eq!(t.data, vec![1]);
    let kept = prepare_tx(tx.clone(), None, None).unwrap();
    assert_eq!(kept, tx);
    assert_eq!(prepare_tx(tx, None, Some(u128::MAX)), Err(DeployError::FeeOverflow));
}

#[test]
fn gas_estimate_report_lines() {
    let lines = gas_estimate_lines("deployment", amount(21_000), amount(1_500_000_000));
    assert_eq!(
        lines,
        vec![
            "estimates".to_string(),
            "deployment tx gas: 21000".to_string(),
            "gas price: 1.500000000 gwei".to_string(),
            "deployment tx total cost: 0.000031500000000000 ETH".to_string(),
        ]
    );
}

#[test]
fn deploy_config_builds_deployment() {
    let cfg = DeployConfig {
        check_config: CheckConfig {
            endpoint: "http://localhost:8547".to_string(),
            verbose: false,
            features: None,
            source_files_for_project_hash: vec![],
            max_fee_per_gas_gwei: Some(4),
            wasm_file: None,
        },
        estimate_gas: false,
        experimental_constructor_value: amount(3),
    };
    let contract = ContractCheck::Ready { code: vec![5, 6], fee: amount(4) };
    let d = cfg.deploy_contract(&contract, SENDER).unwrap();
    assert_eq!(d.required, amount(7));
    assert_eq!(d.init_code, contract_deployment_calldata(&[5, 6]));
    assert_eq!(d.max_fee_per_gas_gwei, Some(4));
    assert!(!d.estimate_only);
    assert_eq!(d.stage, Stage::Init);
}
