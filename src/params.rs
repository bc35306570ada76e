use vstd::prelude::*;
use crate::fixture::CircuitsConfig;

verus! {

pub const MAX_TXS: usize = 100;
pub const MAX_INNER_BLOCKS: usize = 100;
pub const MAX_EXP_STEPS: usize = 10_000;
pub const MAX_CALLDATA: usize = 600_000;
pub const MAX_BYTECODE: usize = 600_000;
pub const MAX_MPT_ROWS: usize = 1_000_000;
pub const MAX_KECCAK_ROWS: usize = 1_000_000;
pub const MAX_POSEIDON_ROWS: usize = 1_000_000;
pub const MAX_VERTICLE_ROWS: usize = 1_000_000;
pub const MAX_RWS: usize = 1_000_000;
pub const MAX_PRECOMPILE_EC_ADD: usize = 50;
pub const MAX_PRECOMPILE_EC_MUL: usize = 50;
pub const MAX_PRECOMPILE_EC_PAIRING: usize = 2;

/// Bounds on elliptic-curve precompile calls per block.
#[derive(Clone, Copy, Debug, PartialEq, Eq, Structural)]
pub struct PrecompileEcParams {
    pub ec_add: usize,
    pub ec_mul: usize,
    pub ec_pairing: usize,
}

/// The sizes the witness builder lays the circuits out for; a zero means the
/// size is chosen from the block.
#[derive(Clone, Copy, Debug, PartialEq, Eq, Structural)]
pub struct CircuitsParams {
    pub max_evm_rows: usize,
    pub max_rws: usize,
    pub max_copy_rows: usize,
    pub max_txs: usize,
    pub max_calldata: usize,
    pub max_bytecode: usize,
    pub max_inner_blocks: usize,
    pub max_keccak_rows: usize,
    pub max_poseidon_rows: usize,
    pub max_vertical_circuit_rows: usize,
    pub max_exp_steps: usize,
    pub max_mpt_rows: usize,
    pub max_rlp_rows: usize,
    pub max_ec_ops: PrecompileEcParams,
}

/// The full-system sizes for the batch-oriented backend.
pub open spec fn spec_super_circuit_l2() -> CircuitsParams {
    CircuitsParams {
        max_evm_rows: MAX_RWS,
        max_rws: MAX_RWS,
        max_copy_rows: MAX_RWS,
        max_txs: MAX_TXS,
        max_calldata: MAX_CALLDATA,
        max_bytecode: MAX_BYTECODE,
        max_inner_blocks: MAX_INNER_BLOCKS,
        max_keccak_rows: MAX_KECCAK_ROWS,
        max_poseidon_rows: MAX_POSEIDON_ROWS,
        max_vertical_circuit_rows: MAX_VERTICLE_ROWS,
        max_exp_steps: MAX_EXP_STEPS,
        max_mpt_rows: MAX_MPT_ROWS,
        max_rlp_rows: MAX_CALLDATA,
        max_ec_ops: PrecompileEcParams {
            ec_add: MAX_PRECOMPILE_EC_ADD,
            ec_mul: MAX_PRECOMPILE_EC_MUL,
            ec_pairing: MAX_PRECOMPILE_EC_PAIRING,
        },
    }
}

/// The full-system sizes for the generic backend.
pub open spec fn spec_super_circuit() -> CircuitsParams {
    CircuitsParams {
        max_txs: MAX_TXS,
        max_calldata: MAX_CALLDATA,
        max_rws: 256,
        max_copy_rows: 256,
        max_mpt_rows: 256,
        max_exp_steps: 256,
        max_bytecode: 512,
        max_evm_rows: 0,
        max_keccak_rows: 0,
        max_poseidon_rows: 0,
        max_vertical_circuit_rows: 0,
        max_inner_blocks: 64,
        max_rlp_rows: 512,
        max_ec_ops: PrecompileEcParams { ec_add: 50, ec_mul: 50, ec_pairing: 2 },
    }
}

/// The per-component sizes: one transaction, most sizes chosen from the block.
pub open spec fn spec_sub_circuit() -> CircuitsParams {
    CircuitsParams {
        max_txs: 1,
        max_rws: 0,
        max_calldata: 0,
        max_bytecode: 5000,
        max_mpt_rows: 5000,
        max_copy_rows: 0,
        max_evm_rows: 0,
        max_exp_steps: 5000,
        max_keccak_rows: 0,
        max_poseidon_rows: 0,
        max_vertical_circuit_rows: 0,
        max_inner_blocks: 64,
        max_rlp_rows: 6000,
        max_ec_ops: PrecompileEcParams { ec_add: 50, ec_mul: 50, ec_pairing: 2 },
    }
}

pub fn get_params_for_super_circuit_test_l2() -> (r: CircuitsParams)
    ensures
        r == spec_super_circuit_l2(),
{
    CircuitsParams {
        max_evm_rows: MAX_RWS,
        max_rws: MAX_RWS,
        max_copy_rows: MAX_RWS,
        max_txs: MAX_TXS,
        max_calldata: MAX_CALLDATA,
        max_bytecode: MAX_BYTECODE,
        max_inner_blocks: MAX_INNER_BLOCKS,
        max_keccak_rows: MAX_KECCAK_ROWS,
        max_poseidon_rows: MAX_POSEIDON_ROWS,
        max_vertical_circuit_rows: MAX_VERTICLE_ROWS,
        max_exp_steps: MAX_EXP_STEPS,
        max_mpt_rows: MAX_MPT_ROWS,
        max_rlp_rows: MAX_CALLDATA,
        max_ec_ops: PrecompileEcParams {
            ec_add: MAX_PRECOMPILE_EC_ADD,
            ec_mul: MAX_PRECOMPILE_EC_MUL,
            ec_pairing: MAX_PRECOMPILE_EC_PAIRING,
        },
    }
}

pub fn get_params_for_super_circuit_test() -> (r: CircuitsParams)
    ensures
        r == spec_super_circuit(),
{
    CircuitsParams {
        max_txs: MAX_TXS,
        max_calldata: MAX_CALLDATA,
        max_rws: 256,
        max_copy_rows: 256,
        max_mpt_rows: 256,
        max_exp_steps: 256,
        max_bytecode: 512,
        max_evm_rows: 0,
        max_keccak_rows: 0,
        max_poseidon_rows: 0,
        max_vertical_circuit_rows: 0,
        max_inner_blocks: 64,
        max_rlp_rows: 512,
        max_ec_ops: PrecompileEcParams { ec_add: 50, ec_mul: 50, ec_pairing: 2 },
    }
}

pub fn get_params_for_sub_circuit_test() -> (r: CircuitsParams)
    ensures
        r == spec_sub_circuit(),
{
    CircuitsParams {
        max_txs: 1,
        max_rws: 0,
        max_calldata: 0,
        max_bytecode: 5000,
        max_mpt_rows: 5000,
        max_copy_rows: 0,
        max_evm_rows: 0,
        max_exp_steps: 5000,
        max_keccak_rows: 0,
        max_poseidon_rows: 0,
        max_vertical_circuit_rows: 0,
        max_inner_blocks: 64,
        max_rlp_rows: 6000,
        max_ec_ops: PrecompileEcParams { ec_add: 50, ec_mul: 50, ec_pairing: 2 },
    }
}

/// The sizes a test's witness is built with: per-component sizes unless the
/// full system is proved, and then those of the backend in use.
pub fn circuits_params(config: &CircuitsConfig, batch_backend: bool) -> (r: CircuitsParams)
    ensures
        !config.super_circuit ==> r == spec_sub_circuit(),
        config.super_circuit && batch_backend ==> r == spec_super_circuit_l2(),
        config.super_circuit && !batch_backend ==> r == spec_super_circuit(),
{
    if !config.super_circuit {
        get_params_for_sub_circuit_test()
    } else if batch_backend {
        get_params_for_super_circuit_test_l2()
    } else {
        get_params_for_super_circuit_test()
    }
}

} // verus!
