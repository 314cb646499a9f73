//! What a check or a deployment is asked to do, and the decisions taken
//! from it before any chain is contacted.
use crate::amount::{amount_max, Amount};
use crate::check::{contains_seq, is_stable_channel, ContractCheck};
use crate::codec::encoded;
use crate::deploy::{Deployment, Stage};
use crate::error::DeployError;
use vstd::prelude::*;

verus! {

/// Settings of a check.
#[derive(Clone, Debug)]
pub struct CheckConfig {
    /// The node to connect to.
    pub endpoint: String,
    pub verbose: bool,
    /// Cargo features to build the module with.
    pub features: Option<String>,
    /// Files whose contents the project hash covers.
    pub source_files_for_project_hash: Vec<String>,
    /// A ceiling on the fee per gas, in gwei.
    pub max_fee_per_gas_gwei: Option<u128>,
    /// A module built beforehand, to use instead of building one.
    pub wasm_file: Option<String>,
}

/// Where the module to check comes from.
#[derive(Clone, Debug, PartialEq, Eq)]
pub enum WasmSource {
    /// A module built beforehand, with an all-zero project hash.
    Prebuilt { path: String, project_hash: [u8; 32] },
    /// The module is to be built from the project.
    Build,
}

/// How the project is to be built.
#[derive(Clone, Debug, PartialEq, Eq)]
pub struct BuildConfig {
    /// Build with a stable toolchain.
    pub stable: bool,
    pub features: Option<String>,
}

impl CheckConfig {
    /// Where the module comes from: the file given, with a zero project
    /// hash, or else a build of the project.
    pub fn build_wasm(&self) -> (r: WasmSource)
        ensures
            match self.wasm_file {
                Some(p) => r matches WasmSource::Prebuilt { path, project_hash } && path == p
                    && forall|i: int| 0 <= i < 32 ==> project_hash@[i] == 0u8,
                None => r == WasmSource::Build,
            },
    {
        match &self.wasm_file {
            Some(p) => {
                let project_hash = [0u8; 32];
                assert(forall|i: int| 0 <= i < 32 ==> project_hash@[i] == 0u8);
                WasmSource::Prebuilt { path: p.clone(), project_hash }
            },
            None => WasmSource::Build,
        }
    }

    /// The build settings for the project's toolchain channel: stable unless
    /// the channel mentions "nightly", with the features asked for.
    pub fn build_config(&self, toolchain_channel: &str) -> (r: BuildConfig)
        ensures
            r.stable == !contains_seq(toolchain_channel@, seq!['n', 'i', 'g', 'h', 't', 'l', 'y']),
            r.features == self.features,
    {
        let features = match &self.features {
            Some(f) => Some(f.clone()),
            None => None,
        };
        BuildConfig { stable: is_stable_channel(toolchain_channel), features }
    }
}

/// Settings of a deployment.
#[derive(Clone, Debug)]
pub struct DeployConfig {
    pub check_config: CheckConfig,
    /// Only estimate the gas and the address; send nothing.
    pub estimate_gas: bool,
    /// Value handed to the constructor, in wei.
    pub experimental_constructor_value: Amount,
}

impl DeployConfig {
    /// The deployment of a checked module from `sender`: it must hold the
    /// data fee and the constructor value together.
    pub fn deploy_contract(&self, contract: &ContractCheck, sender: [u8; 20]) -> (r: Result<
        Deployment,
        DeployError,
    >)
        ensures
            contract matches ContractCheck::Ready { code, fee } && {
                &&& r.is_ok() <==> fee.value() + self.experimental_constructor_value.value()
                    <= amount_max()
                &&& r matches Err(e) ==> e == DeployError::AmountOverflow
                &&& r matches Ok(d) ==> {
                    &&& d.wf()
                    &&& d.stage == Stage::Init
                    &&& d.sender == sender
                    &&& d.init_code@ == encoded(code@)
                    &&& d.required.value() == fee.value()
                        + self.experimental_constructor_value.value()
                    &&& d.estimate_only == self.estimate_gas
                    &&& d.max_fee_per_gas_gwei == self.check_config.max_fee_per_gas_gwei
                }
            },
    {
        Deployment::new(
            sender,
            contract.code(),
            contract.suggest_fee(),
            self.experimental_constructor_value,
            self.estimate_gas,
            self.check_config.max_fee_per_gas_gwei,
        )
    }
}

} // verus!
