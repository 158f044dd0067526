//! The command line's global options and the subcommands of each command
//! group. The program's argument parser fills these; the library's commands
//! take them as plain values.
use vstd::prelude::*;

verus! {

/// How the program prints what a command shows.
#[derive(Clone, Copy, PartialEq, Eq, Structural, Debug)]
pub enum OutputFormat {
    Human,
    Json,
    JsonCompact,
    Ndjson,
}

/// Options every command takes.
pub struct GlobalArgs {
    pub output: OutputFormat,
    pub config: Option<String>,
    pub network: String,
    pub identity: Option<String>,
    pub verbose: bool,
}

pub enum IdentityCommands {
    Create { name: String, method: String, output_dir: Option<String> },
    Show { did: Option<String> },
    List,
    Export { did: Option<String>, file: String },
    RegisterOnChain,
}

pub enum ConfigCommands {
    SetKey { key: String, value: String },
    Get { key: String },
    List,
    Path,
}

pub enum MeshCommands {
    Start { bootstrap: Vec<String>, listen: String },
    Status,
    Peers { verbose: bool },
    Connect { addr: String },
    Disconnect { peer_id: String },
}

pub enum FeedCommands {
    Post { kind: u32, content: String, tags: Vec<String> },
    List { kind: Option<u32>, author: Option<String>, limit: usize },
    Subscribe { kind: Option<u32> },
    Show { event_id: String },
}

pub enum BountyCommands {
    Create { title: String, description: String, reward: u64, token: String, claim_deadline: u64, work_deadline: u64 },
    Claim { id: String, stake: u64 },
    Submit { id: String, artifact: String, evidence: Option<String> },
    Review { id: String, score: u8, feedback: String },
    List { state: Option<String>, creator: Option<String>, limit: usize },
    Show { id: String },
    Cancel { id: String, reason: Option<String> },
    Pay { id: String },
}

pub enum TokenCommands {
    Balance { token: Option<String> },
    Transfer { to: String, amount: u64, token: String },
    Stake { amount: u64, token: String },
    Unstake { amount: u64 },
    StakeStatus,
    DecayInfo,
    Seed { agent: Option<String> },
}

pub enum ReputationCommands {
    Show { agent: Option<String> },
    Attest { to: String, score: u8, comment: Option<String> },
    Leaderboard { limit: usize },
    Factors { agent: Option<String> },
}

pub enum KnowledgeCommands {
    Query { subject: Option<String>, predicate: Option<String>, object: Option<String>, graph: Option<String>, limit: usize },
    RegisterAgent { did: String, capabilities: String },
    RegisterModel { did: String, cid: String, parent: Option<String> },
    RegisterBounty { id: String, capabilities: String },
    JoinJob { did: String, job_id: String },
    ListClasses,
    ListPredicates,
}

pub enum VerifyCommands {
    Gauntlet { test_name: String, input_hash: String, expected_hash: String },
    SpotCheck { original: String, recomputed: String },
    Repops { hashes_a: String, hashes_b: String },
    Bisection { claimant: String, challenger: String },
    Tee { measurement: String, nonce: String, tee_type: String },
    Status,
}

} // verus!
