//! Parameters of the app chain as it anchors in the base chain: the
//! proof-of-transfer cycle, the magic bytes and the operation codes.

use crate::types::BitcoinNetwork;
use vstd::prelude::*;

verus! {

/// The proof-of-transfer cycle of one network.
#[derive(Clone, Copy, Debug, PartialEq, Eq, Structural)]
pub struct PoxConfig {
    pub genesis_block_height: u64,
    pub prepare_phase_len: u64,
    pub reward_phase_len: u64,
    pub rewarded_addresses_per_block: usize,
}

/// The cycle of the main network.
pub open spec fn pox_config_mainnet() -> PoxConfig {
    PoxConfig {
        genesis_block_height: 666050,
        prepare_phase_len: 100,
        reward_phase_len: 2100,
        rewarded_addresses_per_block: 2,
    }
}

/// The cycle of the test network.
pub open spec fn pox_config_testnet() -> PoxConfig {
    PoxConfig {
        genesis_block_height: 2000000,
        prepare_phase_len: 50,
        reward_phase_len: 1050,
        rewarded_addresses_per_block: 2,
    }
}

/// The cycle of a local development network.
pub open spec fn pox_config_devnet() -> PoxConfig {
    PoxConfig {
        genesis_block_height: 100,
        prepare_phase_len: 4,
        reward_phase_len: 10,
        rewarded_addresses_per_block: 2,
    }
}

impl PoxConfig {
    /// The length of one cycle: the prepare phase and the reward phase.
    pub open spec fn cycle_len(&self) -> int {
        self.prepare_phase_len + self.reward_phase_len
    }

    /// Whether the cycle has a length that a `u64` holds and that is not
    /// zero.
    pub open spec fn has_cycle(&self) -> bool {
        0 < self.cycle_len() <= u64::MAX
    }

    /// The number of blocks from the first block of the first cycle to a
    /// block; zero for a block before it.
    pub open spec fn blocks_since_genesis(&self, block_height: u64) -> int {
        if block_height >= self.genesis_block_height {
            block_height - self.genesis_block_height
        } else {
            0
        }
    }

    pub fn get_pox_cycle_len(&self) -> (len: u64)
        requires
            self.cycle_len() <= u64::MAX,
        ensures
            len == self.cycle_len(),
    {
        self.prepare_phase_len + self.reward_phase_len
    }

    /// The number of the cycle that a block lies in.
    pub fn get_pox_cycle_id(&self, block_height: u64) -> (id: u64)
        requires
            self.has_cycle(),
        ensures
            id == self.blocks_since_genesis(block_height) / self.cycle_len(),
    {
        block_height.saturating_sub(self.genesis_block_height) / self.get_pox_cycle_len()
    }

    /// The place of a block within its cycle.
    pub fn get_pos_in_pox_cycle(&self, block_height: u64) -> (pos: u64)
        requires
            self.has_cycle(),
        ensures
            pos == self.blocks_since_genesis(block_height) % self.cycle_len(),
            pos < self.cycle_len(),
    {
        block_height.saturating_sub(self.genesis_block_height) % self.get_pox_cycle_len()
    }

    /// The address that burnt funds go to, told by the height of the first
    /// cycle.
    pub fn get_burn_address(&self) -> (address: &'static str)
        ensures
            self.genesis_block_height == 666050 ==> address@ == "1111111111111111111114oLvT2"@,
            self.genesis_block_height == 2000000 ==> address@ == "burn-address-regtest"@,
            self.genesis_block_height != 666050 && self.genesis_block_height != 2000000
                ==> address@ == "burn-address"@,
    {
        if self.genesis_block_height == 666050 {
            "1111111111111111111114oLvT2"
        } else if self.genesis_block_height == 2000000 {
            "burn-address-regtest"
        } else {
            "burn-address"
        }
    }
}

/// The two bytes that open an app-chain operation on a network. The signet
/// carries no app chain.
pub fn get_stacks_canonical_magic_bytes(network: &BitcoinNetwork) -> (magic: [u8; 2])
    requires
        !(*network is Signet),
    ensures
        *network is Mainnet ==> magic@ == seq![88u8, 50u8],
        *network is Testnet ==> magic@ == seq![84u8, 50u8],
        *network is Regtest ==> magic@ == seq![105u8, 100u8],
{
    let magic: [u8; 2] = match network {
        BitcoinNetwork::Mainnet => [88, 50],
        BitcoinNetwork::Testnet => [84, 50],
        _ => [105, 100],
    };
    assert(magic@ =~= seq![magic[0], magic[1]]);
    magic
}

/// The proof-of-transfer cycle of a network. The signet carries no app
/// chain.
pub fn get_canonical_pox_config(network: &BitcoinNetwork) -> (config: PoxConfig)
    requires
        !(*network is Signet),
    ensures
        *network is Mainnet ==> config == pox_config_mainnet(),
        *network is Testnet ==> config == pox_config_testnet(),
        *network is Regtest ==> config == pox_config_devnet(),
        config.has_cycle(),
{
    match network {
        BitcoinNetwork::Mainnet => PoxConfig {
            genesis_block_height: 666050,
            prepare_phase_len: 100,
            reward_phase_len: 2100,
            rewarded_addresses_per_block: 2,
        },
        BitcoinNetwork::Testnet => PoxConfig {
            genesis_block_height: 2000000,
            prepare_phase_len: 50,
            reward_phase_len: 1050,
            rewarded_addresses_per_block: 2,
        },
        _ => PoxConfig {
            genesis_block_height: 100,
            prepare_phase_len: 4,
            reward_phase_len: 10,
            rewarded_addresses_per_block: 2,
        },
    }
}

/// The code of an app-chain operation, as the byte that follows the magic
/// bytes.
#[derive(Clone, Copy, Debug, PartialEq, Eq, Structural)]
pub enum StacksOpcodes {
    BlockCommit,
    KeyRegister,
    StackStx,
    PreStx,
    TransferStx,
}

impl StacksOpcodes {
    /// The byte of an operation code.
    pub open spec fn byte(self) -> u8 {
        match self {
            StacksOpcodes::BlockCommit => 91,
            StacksOpcodes::KeyRegister => 94,
            StacksOpcodes::StackStx => 120,
            StacksOpcodes::PreStx => 112,
            StacksOpcodes::TransferStx => 36,
        }
    }

    /// Reads an operation code from its byte; any other byte is refused.
    pub fn try_from(v: u8) -> (code: Result<StacksOpcodes, ()>)
        ensures
            code matches Ok(op) ==> op.byte() == v,
            code is Err ==> forall|op: StacksOpcodes| op.byte() != v,
    {
        if v == 91 {
            Ok(StacksOpcodes::BlockCommit)
        } else if v == 94 {
            Ok(StacksOpcodes::KeyRegister)
        } else if v == 120 {
            Ok(StacksOpcodes::StackStx)
        } else if v == 112 {
            Ok(StacksOpcodes::PreStx)
        } else if v == 36 {
            Ok(StacksOpcodes::TransferStx)
        } else {
            Err(())
        }
    }
}

} // verus!
