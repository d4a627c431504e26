use vstd::prelude::*;

verus! {

/// Status bits of a mined block, as the pool stores them.
#[allow(non_camel_case_types)]
#[derive(Debug, Clone, Copy, PartialEq, Eq, Structural)]
pub enum BlockStatus {
    PENDING,
    CONFIRMED,
    ORPHANED,
    PAID,
    PENDING_ORPHANED,
}

/// The bit pattern that stands for each status.
pub open spec fn block_status_bits(s: BlockStatus) -> u8 {
    match s {
        BlockStatus::PENDING => 1,
        BlockStatus::CONFIRMED => 2,
        BlockStatus::ORPHANED => 4,
        BlockStatus::PAID => 8,
        BlockStatus::PENDING_ORPHANED => 5,
    }
}

impl BlockStatus {
    /// The status's bit pattern.
    pub fn bits(&self) -> (b: u8)
        ensures
            b == block_status_bits(*self),
    {
        match self {
            BlockStatus::PENDING => 1,
            BlockStatus::CONFIRMED => 2,
            BlockStatus::ORPHANED => 4,
            BlockStatus::PAID => 8,
            BlockStatus::PENDING_ORPHANED => 5,
        }
    }
}

/// The single statuses are distinct bits, and a pending orphan is marked both pending
/// and orphaned.
pub proof fn lemma_block_status_bits()
    ensures
        block_status_bits(BlockStatus::PENDING_ORPHANED) == block_status_bits(BlockStatus::PENDING)
            | block_status_bits(BlockStatus::ORPHANED),
        block_status_bits(BlockStatus::PENDING) & block_status_bits(BlockStatus::CONFIRMED) == 0,
        block_status_bits(BlockStatus::PENDING) & block_status_bits(BlockStatus::ORPHANED) == 0,
        block_status_bits(BlockStatus::PENDING) & block_status_bits(BlockStatus::PAID) == 0,
        block_status_bits(BlockStatus::CONFIRMED) & block_status_bits(BlockStatus::ORPHANED) == 0,
        block_status_bits(BlockStatus::CONFIRMED) & block_status_bits(BlockStatus::PAID) == 0,
        block_status_bits(BlockStatus::ORPHANED) & block_status_bits(BlockStatus::PAID) == 0,
{
    assert(1u8 | 4u8 == 5u8) by (bit_vector);
    assert(1u8 & 2u8 == 0u8) by (bit_vector);
    assert(1u8 & 4u8 == 0u8) by (bit_vector);
    assert(1u8 & 8u8 == 0u8) by (bit_vector);
    assert(2u8 & 4u8 == 0u8) by (bit_vector);
    assert(2u8 & 8u8 == 0u8) by (bit_vector);
    assert(4u8 & 8u8 == 0u8) by (bit_vector);
}

/// The name spaces that the pool's redis keys are built from.
#[allow(non_camel_case_types)]
#[derive(Debug, Clone, Copy, PartialEq, Eq, Structural)]
pub enum Prefix {
    POW,
    ADDRESS,
    ADDRESS_ID_MAP,
    ALIAS,
    IDENTITY,
    ROUND,
    EFFORT,
    WORKER_COUNT,
    MINER_COUNT,
    TOTAL_EFFORT,
    ESTIMATED_EFFORT,
    START_TIME,
    MATURE_BALANCE,
    IMMATURE_BALANCE,
    MATURE,
    IMMATURE,
    REWARD,
    HASHRATE,
    SHARES,
    BLOCK,
    MINED_BLOCK,
    COUNT,
    NETWORK,
    POOL,
    AVERAGE,
    VALID,
    INVALID,
    STALE,
    EFFORT_PERCENT,
    SOLVER,
    INDEX,
    DURATION,
    DIFFICULTY,
    ROUND_EFFORT,
    PENDING,
    FEELESS,
    MINER,
    WORKER,
    TYPE,
    NUMBER,
    CHAIN,
    ACTIVE_IDS,
    STATS,
    COMPACT,
    HEIGHT,
}

/// The text of each key prefix: the variant's own name.
pub open spec fn prefix_name(p: Prefix) -> Seq<char> {
    match p {
        Prefix::POW => "POW"@,
        Prefix::ADDRESS => "ADDRESS"@,
        Prefix::ADDRESS_ID_MAP => "ADDRESS_ID_MAP"@,
        Prefix::ALIAS => "ALIAS"@,
        Prefix::IDENTITY => "IDENTITY"@,
        Prefix::ROUND => "ROUND"@,
        Prefix::EFFORT => "EFFORT"@,
        Prefix::WORKER_COUNT => "WORKER_COUNT"@,
        Prefix::MINER_COUNT => "MINER_COUNT"@,
        Prefix::TOTAL_EFFORT => "TOTAL_EFFORT"@,
        Prefix::ESTIMATED_EFFORT => "ESTIMATED_EFFORT"@,
        Prefix::START_TIME => "START_TIME"@,
        Prefix::MATURE_BALANCE => "MATURE_BALANCE"@,
        Prefix::IMMATURE_BALANCE => "IMMATURE_BALANCE"@,
        Prefix::MATURE => "MATURE"@,
        Prefix::IMMATURE => "IMMATURE"@,
        Prefix::REWARD => "REWARD"@,
        Prefix::HASHRATE => "HASHRATE"@,
        Prefix::SHARES => "SHARES"@,
        Prefix::BLOCK => "BLOCK"@,
        Prefix::MINED_BLOCK => "MINED_BLOCK"@,
        Prefix::COUNT => "COUNT"@,
        Prefix::NETWORK => "NETWORK"@,
        Prefix::POOL => "POOL"@,
        Prefix::AVERAGE => "AVERAGE"@,
        Prefix::VALID => "VALID"@,
        Prefix::INVALID => "INVALID"@,
        Prefix::STALE => "STALE"@,
        Prefix::EFFORT_PERCENT => "EFFORT_PERCENT"@,
        Prefix::SOLVER => "SOLVER"@,
        Prefix::INDEX => "INDEX"@,
        Prefix::DURATION => "DURATION"@,
        Prefix::DIFFICULTY => "DIFFICULTY"@,
        Prefix::ROUND_EFFORT => "ROUND_EFFORT"@,
        Prefix::PENDING => "PENDING"@,
        Prefix::FEELESS => "FEELESS"@,
        Prefix::MINER => "MINER"@,
        Prefix::WORKER => "WORKER"@,
        Prefix::TYPE => "TYPE"@,
        Prefix::NUMBER => "NUMBER"@,
        Prefix::CHAIN => "CHAIN"@,
        Prefix::ACTIVE_IDS => "ACTIVE_IDS"@,
        Prefix::STATS => "STATS"@,
        Prefix::COMPACT => "COMPACT"@,
        Prefix::HEIGHT => "HEIGHT"@,
    }
}

impl Prefix {
    /// The prefix as it appears in a key.
    pub fn name(&self) -> (s: &'static str)
        ensures
            s@ == prefix_name(*self),
    {
        match self {
            Prefix::POW => "POW",
            Prefix::ADDRESS => "ADDRESS",
            Prefix::ADDRESS_ID_MAP => "ADDRESS_ID_MAP",
            Prefix::ALIAS => "ALIAS",
            Prefix::IDENTITY => "IDENTITY",
            Prefix::ROUND => "ROUND",
            Prefix::EFFORT => "EFFORT",
            Prefix::WORKER_COUNT => "WORKER_COUNT",
            Prefix::MINER_COUNT => "MINER_COUNT",
            Prefix::TOTAL_EFFORT => "TOTAL_EFFORT",
            Prefix::ESTIMATED_EFFORT => "ESTIMATED_EFFORT",
            Prefix::START_TIME => "START_TIME",
            Prefix::MATURE_BALANCE => "MATURE_BALANCE",
            Prefix::IMMATURE_BALANCE => "IMMATURE_BALANCE",
            Prefix::MATURE => "MATURE",
            Prefix::IMMATURE => "IMMATURE",
            Prefix::REWARD => "REWARD",
            Prefix::HASHRATE => "HASHRATE",
            Prefix::SHARES => "SHARES",
            Prefix::BLOCK => "BLOCK",
            Prefix::MINED_BLOCK => "MINED_BLOCK",
            Prefix::COUNT => "COUNT",
            Prefix::NETWORK => "NETWORK",
            Prefix::POOL => "POOL",
            Prefix::AVERAGE => "AVERAGE",
            Prefix::VALID => "VALID",
            Prefix::INVALID => "INVALID",
            Prefix::STALE => "STALE",
            Prefix::EFFORT_PERCENT => "EFFORT_PERCENT",
            Prefix::SOLVER => "SOLVER",
            Prefix::INDEX => "INDEX",
            Prefix::DURATION => "DURATION",
            Prefix::DIFFICULTY => "DIFFICULTY",
            Prefix::ROUND_EFFORT => "ROUND_EFFORT",
            Prefix::PENDING => "PENDING",
            Prefix::FEELESS => "FEELESS",
            Prefix::MINER => "MINER",
            Prefix::WORKER => "WORKER",
            Prefix::TYPE => "TYPE",
            Prefix::NUMBER => "NUMBER",
            Prefix::CHAIN => "CHAIN",
            Prefix::ACTIVE_IDS => "ACTIVE_IDS",
            Prefix::STATS => "STATS",
            Prefix::COMPACT => "COMPACT",
            Prefix::HEIGHT => "HEIGHT",
        }
    }

    /// The prefix as an owned string.
    pub fn to_string(&self) -> (s: String)
        ensures
            s@ == prefix_name(*self),
    {
        String::from_str(self.name())
    }
}

} // verus!
