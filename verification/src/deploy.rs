//! Deployment of public contracts through the chain's deployment contract.

use vstd::prelude::*;
use crate::address::{Address, AddressType};
use crate::context::ContractContext;
use crate::events::{EventGroupBuilder, Interaction, InteractionView, Invocation, InvocationView};
use crate::interact_mpc20::with_call;

verus! {

/// Contract version type. A later version has a higher number.
pub type ContractVersion = u64;

/// The address of the contract that deploys public contracts.
pub open spec fn spec_address_deploy_public() -> Address {
    Address {
        address_type: AddressType::SystemContract,
        identifier: [
            0x97u8,
            0xa0u8,
            0xe2u8,
            0x38u8,
            0xe9u8,
            0x24u8,
            0x02u8,
            0x5bu8,
            0xadu8,
            0x14u8,
            0x4au8,
            0xa0u8,
            0xc4u8,
            0x91u8,
            0x3eu8,
            0x46u8,
            0x30u8,
            0x8fu8,
            0x9au8,
            0x4du8,
        ],
    }
}

/// The address of the contract that deploys public contracts.
#[verifier::when_used_as_spec(spec_address_deploy_public)]
pub fn address_deploy_public() -> (address: Address)
    ensures
        address == spec_address_deploy_public(),
{
    Address {
        address_type: AddressType::SystemContract,
        identifier: [
            0x97u8,
            0xa0u8,
            0xe2u8,
            0x38u8,
            0xe9u8,
            0x24u8,
            0x02u8,
            0x5bu8,
            0xadu8,
            0x14u8,
            0x4au8,
            0xa0u8,
            0xc4u8,
            0x91u8,
            0x3eu8,
            0x46u8,
            0x30u8,
            0x8fu8,
            0x9au8,
            0x4du8,
        ],
    }
}

/// The bytes that any WASM file starts with.
pub open spec fn wasm_magic_bytes() -> Seq<u8> {
    seq![0x00u8, 0x61u8, 0x73u8, 0x6Du8]
}

/// The bytes that any ABI file starts with: the letters PBCABI.
pub open spec fn pbcabi_magic_bytes() -> Seq<u8> {
    seq![0x50u8, 0x42u8, 0x43u8, 0x41u8, 0x42u8, 0x49u8]
}

/// Why a contract cannot be deployed.
#[derive(Clone, Debug, PartialEq, Eq)]
pub enum DeployError {
    /// The bytecode is no WASM code. `prefix` holds up to ten of its first bytes.
    BytecodeNotWasm { prefix: Vec<u8> },
    /// The ABI data is none. `prefix` holds up to ten of its first bytes.
    AbiInvalid { prefix: Vec<u8> },
}

/// What a [`DeployError`] holds.
pub enum DeployErrorView {
    /// The bytecode is no WASM code.
    BytecodeNotWasm { prefix: Seq<u8> },
    /// The ABI data is none.
    AbiInvalid { prefix: Seq<u8> },
}

impl View for DeployError {
    type V = DeployErrorView;

    open spec fn view(&self) -> DeployErrorView {
        match self {
            DeployError::BytecodeNotWasm { prefix } => DeployErrorView::BytecodeNotWasm {
                prefix: prefix@,
            },
            DeployError::AbiInvalid { prefix } => DeployErrorView::AbiInvalid { prefix: prefix@ },
        }
    }
}

/// The first `wanted_length` items of `items`, or all of them where there are fewer.
pub open spec fn prefix_of(items: Seq<u8>, wanted_length: nat) -> Seq<u8> {
    if wanted_length < items.len() {
        items.take(wanted_length as int)
    } else {
        items
    }
}

/// What is wrong with the given bytecode and ABI, if anything is: the bytecode has to
/// start as a WASM file does, and the ABI as an ABI file does.
pub open spec fn deploy_fault(bytecode: Seq<u8>, abi: Seq<u8>) -> Option<DeployErrorView> {
    if !wasm_magic_bytes().is_prefix_of(bytecode) {
        Some(DeployErrorView::BytecodeNotWasm { prefix: prefix_of(bytecode, 10) })
    } else if !pbcabi_magic_bytes().is_prefix_of(abi) {
        Some(DeployErrorView::AbiInvalid { prefix: prefix_of(abi, 10) })
    } else {
        None
    }
}

/// Deployment information for a contract.
#[derive(Clone, Debug, PartialEq, Eq)]
#[non_exhaustive]
pub struct DeployableContract {
    /// Byte code for contract.
    pub bytecode: Vec<u8>,
    /// Application binary interface for contract.
    pub abi: Vec<u8>,
    /// Version of contract.
    pub version: ContractVersion,
}

/// Copies a prefix of `slice`: its first `wanted_length` bytes, or all of them where
/// there are fewer.
pub fn clone_prefix(slice: &[u8], wanted_length: usize) -> (prefix: Vec<u8>)
    ensures
        prefix@ == prefix_of(slice@, wanted_length as nat),
{
    let len = if wanted_length <= slice.len() {
        wanted_length
    } else {
        slice.len()
    };
    let mut out: Vec<u8> = Vec::new();
    let mut i: usize = 0;
    while i < len
        invariant
            i <= len <= slice.len(),
            out@ == slice@.take(i as int),
        decreases len - i,
    {
        out.push(slice[i]);
        i += 1;
        assert(out@ =~= slice@.take(i as int));
    }
    assert(slice@.take(slice@.len() as int) =~= slice@);
    out
}

/// Whether `bytes` starts with the four bytes given.
fn starts_with_4(bytes: &Vec<u8>, b0: u8, b1: u8, b2: u8, b3: u8) -> (starts: bool)
    ensures
        starts == seq![b0, b1, b2, b3].is_prefix_of(bytes@),
{
    let ghost magic = seq![b0, b1, b2, b3];
    if bytes.len() < 4 {
        return false;
    }
    let starts = bytes[0] == b0 && bytes[1] == b1 && bytes[2] == b2 && bytes[3] == b3;
    proof {
        if starts {
            assert(bytes@.subrange(0, 4) =~= magic);
        } else {
            if magic.is_prefix_of(bytes@) {
                let head = bytes@.subrange(0, 4);
                assert(head[0] == magic[0] && head[1] == magic[1] && head[2] == magic[2]
                    && head[3] == magic[3]);
            }
        }
    }
    starts
}

impl DeployableContract {
    /// Whether bytecode and ABI start as a WASM file and an ABI file do.
    pub open spec fn is_valid(&self) -> bool {
        deploy_fault(self.bytecode@, self.abi@) is None
    }

    /// Creates the deployment information, if bytecode and ABI pass [`Self::validate`].
    pub fn new(bytecode: Vec<u8>, abi: Vec<u8>, version: ContractVersion) -> (created: Result<
        DeployableContract,
        DeployError,
    >)
        ensures
            match created {
                Ok(contract) => deploy_fault(bytecode@, abi@) is None && contract.bytecode@
                    == bytecode@ && contract.abi@ == abi@ && contract.version == version,
                Err(error) => deploy_fault(bytecode@, abi@) == Some(error@),
            },
    {
        let deployable_contract = DeployableContract { bytecode, abi, version };
        match deployable_contract.validate() {
            Ok(()) => Ok(deployable_contract),
            Err(error) => Err(error),
        }
    }

    /// Checks that the bytecode is WASM code and that the ABI field holds ABI data, as far
    /// as their first bytes tell.
    pub fn validate(&self) -> (checked: Result<(), DeployError>)
        ensures
            match checked {
                Ok(()) => self.is_valid(),
                Err(error) => deploy_fault(self.bytecode@, self.abi@) == Some(error@),
            },
    {
        if !starts_with_4(&self.bytecode, 0x00, 0x61, 0x73, 0x6D) {
            return Err(
                DeployError::BytecodeNotWasm { prefix: clone_prefix(self.bytecode.as_slice(), 10) },
            );
        }
        let abi_starts = self.abi.len() >= 6 && starts_with_4(&self.abi, 0x50, 0x42, 0x43, 0x41)
            && self.abi[4] == 0x42 && self.abi[5] == 0x49;
        proof {
            let magic = pbcabi_magic_bytes();
            let start = seq![0x50u8, 0x42u8, 0x43u8, 0x41u8];
            if abi_starts {
                assert(self.abi@.subrange(0, 4) =~= start);
                assert(self.abi@.subrange(0, 6) =~= magic);
            } else if magic.is_prefix_of(self.abi@) {
                let head = self.abi@.subrange(0, 6);
                assert(head[0] == magic[0] && head[1] == magic[1] && head[2] == magic[2]
                    && head[3] == magic[3] && head[4] == magic[4] && head[5] == magic[5]);
                assert(self.abi@.subrange(0, 4) =~= start);
            }
        }
        if !abi_starts {
            return Err(DeployError::AbiInvalid { prefix: clone_prefix(self.abi.as_slice(), 10) });
        }
        Ok(())
    }
}

/// Whether `address` is the one that a contract gets which is deployed in the course of
/// the transaction that `ctx` belongs to: that of a public contract, with the last
/// twenty bytes of the original transaction's hash.
pub open spec fn is_deployed_address(address: Address, ctx: ContractContext) -> bool {
    &&& address.address_type == AddressType::PublicContract
    &&& address.identifier@ == ctx.original_transaction.bytes@.subrange(12, 32)
}

/// Works out the address of the contract deployed in the course of `ctx`'s transaction.
pub fn address_of_deployed(ctx: &ContractContext) -> (address: Address)
    ensures
        is_deployed_address(address, *ctx),
{
    let bytes = &ctx.original_transaction.bytes;
    let identifier: [u8; 20] = [
        bytes[12],
        bytes[13],
        bytes[14],
        bytes[15],
        bytes[16],
        bytes[17],
        bytes[18],
        bytes[19],
        bytes[20],
        bytes[21],
        bytes[22],
        bytes[23],
        bytes[24],
        bytes[25],
        bytes[26],
        bytes[27],
        bytes[28],
        bytes[29],
        bytes[30],
        bytes[31],
    ];
    assert(identifier@ =~= bytes@.subrange(12, 32));
    Address { address_type: AddressType::PublicContract, identifier }
}

/// Adds a call that deploys the contract given by `deploy_data` and initializes it with
/// `initialization_rpc`. Returns the address that the contract will have.
pub fn deploy_contract(
    deploy_data: &DeployableContract,
    builder: &mut EventGroupBuilder,
    initialization_rpc: Vec<u8>,
    ctx: &ContractContext,
) -> (address: Address)
    ensures
        is_deployed_address(address, *ctx),
        final(builder)@ == with_call(
            old(builder)@,
            InteractionView {
                contract: address_deploy_public(),
                invocation: InvocationView::Deploy {
                    bytecode: deploy_data.bytecode@,
                    abi: deploy_data.abi@,
                    initialization_rpc: initialization_rpc@,
                },
                cost: None,
            },
        ),
{
    let bytecode = clone_prefix(deploy_data.bytecode.as_slice(), deploy_data.bytecode.len());
    let abi = clone_prefix(deploy_data.abi.as_slice(), deploy_data.abi.len());
    builder.call(
        Interaction {
            contract: address_deploy_public(),
            invocation: Invocation::Deploy { bytecode, abi, initialization_rpc },
            cost: None,
        },
    );
    address_of_deployed(ctx)
}

/// Adds a call that deploys the contract given by `deploy_data` with the binder of id
/// `binder_id`, and initializes it with `initialization_rpc`. Returns the address that
/// the contract will have.
pub fn deploy_contract_specific_binder(
    deploy_data: &DeployableContract,
    builder: &mut EventGroupBuilder,
    initialization_rpc: Vec<u8>,
    ctx: &ContractContext,
    binder_id: i32,
) -> (address: Address)
    ensures
        is_deployed_address(address, *ctx),
        final(builder)@ == with_call(
            old(builder)@,
            InteractionView {
                contract: address_deploy_public(),
                invocation: InvocationView::DeploySpecificBinder {
                    bytecode: deploy_data.bytecode@,
                    abi: deploy_data.abi@,
                    initialization_rpc: initialization_rpc@,
                    binder_id,
                },
                cost: None,
            },
        ),
{
    let bytecode = clone_prefix(deploy_data.bytecode.as_slice(), deploy_data.bytecode.len());
    let abi = clone_prefix(deploy_data.abi.as_slice(), deploy_data.abi.len());
    builder.call(
        Interaction {
            contract: address_deploy_public(),
            invocation: Invocation::DeploySpecificBinder {
                bytecode,
                abi,
                initialization_rpc,
                binder_id,
            },
            cost: None,
        },
    );
    address_of_deployed(ctx)
}

} // verus!
