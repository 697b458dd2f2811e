//! Turning an operator's launch description into a concrete plan: parsing the
//! configured addresses, validating every vault schedule, and deriving the
//! pool and vault addresses from their seeds. The plan is a pure function of
//! the configuration, so the same configuration always yields the same
//! addresses.

use crate::addr::{decode_address, decoded_address_of, Address};
use crate::pda::{lp_pool_pda, lp_pool_pda_spec, vault_pda, vault_pda_spec};
use crate::schedule::VaultSchedule;
use vstd::prelude::*;
use vstd::string::{StringExecFns, StringSliceAdditionalSpecFns};
use vstd::utf8::{is_ascii_chars, is_ascii_chars_encode_utf8};

verus! {

broadcast use vstd::string::is_ascii_spec_bytes;

/// An operator's launch description.
#[derive(Debug, Clone, PartialEq, Eq)]
pub struct LaunchConfig {
    pub name: Option<String>,
    pub rpc_url: String,
    pub payer_wallet: String,
    pub mint: MintConfig,
    pub lp_pool: LpPoolConfig,
    pub vaults: Vec<VaultConfig>,
    pub output: Option<OutputConfig>,
}

/// The deployed program addresses, as configured text.
#[derive(Debug, Clone, PartialEq, Eq)]
pub struct ProgramIdsConfig {
    pub ore: Option<String>,
    pub mining: Option<String>,
    pub rewards_lock: Option<String>,
}

impl Default for ProgramIdsConfig {
    /// No program addresses configured.
    fn default() -> (r: ProgramIdsConfig)
        ensures
            r.ore is None,
            r.mining is None,
            r.rewards_lock is None,
    {
        ProgramIdsConfig { ore: None, mining: None, rewards_lock: None }
    }
}

/// The launcher's own configuration.
#[derive(Debug, Clone, PartialEq, Eq)]
pub struct LauncherConfig {
    pub programs: ProgramIdsConfig,
}

/// The mint to create or reuse.
#[derive(Debug, Clone, PartialEq, Eq)]
pub struct MintConfig {
    /// Required client-generated address used for signing.
    pub address: Option<String>,
    pub symbol: String,
    pub decimals: u8,
    pub authority: Option<String>,
}

/// The liquidity pool to create.
#[derive(Debug, Clone, PartialEq, Eq)]
pub struct LpPoolConfig {
    pub base_mint: Option<String>,
    pub quote_mint: String,
}

/// One vesting vault to create.
#[derive(Debug, Clone, PartialEq, Eq)]
pub struct VaultConfig {
    pub label: Option<String>,
    pub beneficiary: String,
    pub schedule: VaultScheduleConfig,
}

/// A vault schedule, as configured.
#[derive(Debug, Clone, Copy, PartialEq, Eq)]
pub struct VaultScheduleConfig {
    pub start_ts: i64,
    pub cliff_ts: Option<i64>,
    pub period_seconds: i64,
    pub release_per_period: u64,
    pub period_count: u64,
}

/// Where to write the launch summary.
#[derive(Debug, Clone, PartialEq, Eq)]
pub struct OutputConfig {
    pub path: String,
}

/// The default number of decimals for a new mint.
pub fn default_decimals() -> (r: u8)
    ensures
        r == 11,
{
    11
}

/// The resolved program addresses.
#[derive(Debug, Clone, Copy, PartialEq, Eq)]
pub struct ProgramIdsPlan {
    pub ore: Address,
    pub mining: Address,
    pub rewards_lock: Address,
}

/// The resolved mint step.
#[derive(Debug, Clone, PartialEq, Eq)]
pub struct MintPlan {
    pub address: Address,
    pub symbol: String,
    pub decimals: u8,
    pub authority: Option<Address>,
}

/// The resolved pool step.
#[derive(Debug, Clone, Copy, PartialEq, Eq)]
pub struct LpPoolPlan {
    pub address: Address,
    pub base_mint: Address,
    pub quote_mint: Address,
}

/// One resolved vault step.
#[derive(Debug, Clone, PartialEq, Eq)]
pub struct VaultPlan {
    pub label: Option<String>,
    pub address: Address,
    pub beneficiary: Address,
    pub schedule: VaultSchedule,
}

/// The whole resolved launch.
#[derive(Debug, Clone, PartialEq, Eq)]
pub struct LaunchPlan {
    pub name: Option<String>,
    pub payer: Address,
    pub program_ids: ProgramIdsPlan,
    pub mint: MintPlan,
    pub lp_pool: LpPoolPlan,
    pub vaults: Vec<VaultPlan>,
}

/// What stops a launch description from resolving.
#[derive(Debug, Clone, PartialEq, Eq)]
pub enum LaunchError {
    /// A required field of the launcher configuration is absent.
    MissingField { label: String },
    /// A field the client must supply to derive addresses is absent.
    MissingClientField { label: String },
    /// A configured address is not valid address text.
    InvalidPubkey { label: String },
    /// A vault's beneficiary is empty or ASCII whitespace.
    MissingBeneficiary,
    /// A vault schedule's period length is not positive.
    NonPositivePeriod,
    /// A vault schedule's period count is zero.
    ZeroPeriodCount,
    /// No disambiguation byte yields a valid derived address.
    DerivationFailed,
}

/// The message a launch error reports.
pub open spec fn launch_error_message_spec(e: LaunchError) -> Seq<char> {
    match e {
        LaunchError::MissingField { label } => label@ + " is required in launcher config"@,
        LaunchError::MissingClientField { label } => label@
            + " must be supplied to derive PDA addresses"@,
        LaunchError::InvalidPubkey { label } => "invalid "@ + label@ + " pubkey"@,
        LaunchError::MissingBeneficiary => "vaults.beneficiary is required to derive PDA"@,
        LaunchError::NonPositivePeriod => "vault schedule period_seconds must be positive"@,
        LaunchError::ZeroPeriodCount => "vault schedule period_count must be greater than zero"@,
        LaunchError::DerivationFailed => "no valid program address exists for these seeds"@,
    }
}

impl LaunchError {
    /// Renders this error as its message.
    pub fn message(&self) -> (r: String)
        ensures
            r@ == launch_error_message_spec(*self),
    {
        match self {
            LaunchError::MissingField { label } => label.clone().concat(
                " is required in launcher config",
            ),
            LaunchError::MissingClientField { label } => label.clone().concat(
                " must be supplied to derive PDA addresses",
            ),
            LaunchError::InvalidPubkey { label } => "invalid ".to_owned().concat(
                label.as_str(),
            ).concat(" pubkey"),
            LaunchError::MissingBeneficiary => "vaults.beneficiary is required to derive PDA"
                .to_owned(),
            LaunchError::NonPositivePeriod => "vault schedule period_seconds must be positive"
                .to_owned(),
            LaunchError::ZeroPeriodCount =>
                "vault schedule period_count must be greater than zero".to_owned(),
            LaunchError::DerivationFailed => "no valid program address exists for these seeds"
                .to_owned(),
        }
    }
}

/// Whether every character is a space, tab, or line break. Only the ASCII
/// whitespace characters count as blank: text containing any other character
/// is not blank, and is instead rejected later as invalid address text.
pub open spec fn is_blank_chars(s: Seq<char>) -> bool {
    forall|i: int|
        0 <= i < s.len() ==> (s[i] == ' ' || s[i] == '\t' || s[i] == '\n' || s[i] == '\r')
}

/// Whether the text is empty or all ASCII whitespace.
pub fn is_blank(s: &str) -> (r: bool)
    ensures
        r == is_blank_chars(s@),
{
    if !s.is_ascii() {
        proof {
            if is_blank_chars(s@) {
                assert forall|i: int| 0 <= i < s@.len() implies '\0' <= #[trigger] s@[i]
                    <= '\u{7f}' by {
                    assert(s@[i] == ' ' || s@[i] == '\t' || s@[i] == '\n' || s@[i] == '\r');
                }
                assert(is_ascii_chars(s@));
            }
        }
        return false;
    }
    proof {
        is_ascii_chars_encode_utf8(s@);
    }
    let b = s.as_bytes();
    let n = b.len();
    let mut i: usize = 0;
    while i < n
        invariant
            n == b@.len(),
            b@ == s.spec_bytes(),
            is_ascii_chars(s@),
            s@.len() == b@.len(),
            forall|k: int| #![trigger s@[k]] 0 <= k < s@.len() ==> s@[k] as u8 == b@[k],
            i <= n,
            forall|k: int|
                0 <= k < i ==> (s@[k] == ' ' || s@[k] == '\t' || s@[k] == '\n' || s@[k] == '\r'),
        decreases n - i,
    {
        let c = *vstd::slice::slice_index_get(b, i);
        if !(c == 32 || c == 9 || c == 10 || c == 13) {
            proof {
                assert(s@[i as int] as u8 == c);
                assert(!(s@[i as int] == ' ' || s@[i as int] == '\t' || s@[i as int] == '\n'
                    || s@[i as int] == '\r'));
            }
            return false;
        }
        proof {
            let ch = s@[i as int];
            assert('\0' <= ch <= '\u{7f}');
            assert(ch as u8 == c);
            assert(ch == ' ' || ch == '\t' || ch == '\n' || ch == '\r');
        }
        i += 1;
    }
    true
}

/// Parses configured address text, naming the field on failure.
pub fn parse_pubkey(label: &str, value: &str) -> (r: Result<Address, LaunchError>)
    ensures
        (match r {
            Ok(a) => decoded_address_of(value@) == Some(a@),
            Err(e) => decoded_address_of(value@) is None && (e matches LaunchError::InvalidPubkey {
                label: l,
            } && l@ == label@),
        }),
{
    match decode_address(value) {
        Some(a) => Ok(a),
        None => Err(LaunchError::InvalidPubkey { label: label.to_owned() }),
    }
}

/// How a required address field resolves: absent, unparsable, or an address.
pub open spec fn parsed_of_opt(v: Option<String>) -> Option<Seq<u8>> {
    match v {
        Some(s) => decoded_address_of(s@),
        None => None,
    }
}

/// Whether a required address field resolves.
pub open spec fn required_pubkey_ok(v: Option<String>) -> bool {
    parsed_of_opt(v) is Some
}

/// The error a failed required address field produces, for the two "absent"
/// wordings.
pub open spec fn required_pubkey_err(
    e: LaunchError,
    v: Option<String>,
    label: Seq<char>,
    client: bool,
) -> bool {
    match v {
        None => if client {
            e matches LaunchError::MissingClientField { label: l } && l@ == label
        } else {
            e matches LaunchError::MissingField { label: l } && l@ == label
        },
        Some(s) => decoded_address_of(s@) is None && (e matches LaunchError::InvalidPubkey {
            label: l,
        } && l@ == label),
    }
}

/// Parses a required launcher-config address field.
pub fn require_pubkey(label: &str, value: Option<&str>) -> (r: Result<Address, LaunchError>)
    ensures
        (match r {
            Ok(a) => (match value {
                Some(s) => decoded_address_of(s@) == Some(a@),
                None => false,
            }),
            Err(e) => (match value {
                None => e matches LaunchError::MissingField { label: l } && l@ == label@,
                Some(s) => decoded_address_of(s@) is None && (e
                    matches LaunchError::InvalidPubkey { label: l } && l@ == label@),
            }),
        }),
{
    match value {
        Some(value) => parse_pubkey(label, value),
        None => Err(LaunchError::MissingField { label: label.to_owned() }),
    }
}

/// Parses a required client-supplied address field.
pub fn require_client_pubkey(label: &str, value: Option<&str>) -> (r: Result<
    Address,
    LaunchError,
>)
    ensures
        (match r {
            Ok(a) => (match value {
                Some(s) => decoded_address_of(s@) == Some(a@),
                None => false,
            }),
            Err(e) => (match value {
                None => e matches LaunchError::MissingClientField { label: l } && l@ == label@,
                Some(s) => decoded_address_of(s@) is None && (e
                    matches LaunchError::InvalidPubkey { label: l } && l@ == label@),
            }),
        }),
{
    match value {
        Some(value) => parse_pubkey(label, value),
        None => Err(LaunchError::MissingClientField { label: label.to_owned() }),
    }
}

/// Resolves the three program addresses, reporting the first field that
/// fails.
pub fn resolve_program_ids(programs: &ProgramIdsConfig) -> (r: Result<ProgramIdsPlan, LaunchError>)
    ensures
        (match r {
            Ok(p) => {
                &&& parsed_of_opt(programs.ore) == Some(p.ore@)
                &&& parsed_of_opt(programs.mining) == Some(p.mining@)
                &&& parsed_of_opt(programs.rewards_lock) == Some(p.rewards_lock@)
            },
            Err(e) => {
                if !required_pubkey_ok(programs.ore) {
                    required_pubkey_err(e, programs.ore, "programs.ore"@, false)
                } else if !required_pubkey_ok(programs.mining) {
                    required_pubkey_err(e, programs.mining, "programs.mining"@, false)
                } else {
                    &&& !required_pubkey_ok(programs.rewards_lock)
                    &&& required_pubkey_err(
                        e,
                        programs.rewards_lock,
                        "programs.rewards_lock"@,
                        false,
                    )
                }
            },
        }),
{
    let ore_text: Option<&str> = match &programs.ore {
        Some(s) => Some(s.as_str()),
        None => None,
    };
    let ore = match require_pubkey("programs.ore", ore_text) {
        Ok(a) => a,
        Err(e) => {
            return Err(e);
        },
    };
    let mining_text: Option<&str> = match &programs.mining {
        Some(s) => Some(s.as_str()),
        None => None,
    };
    let mining = match require_pubkey("programs.mining", mining_text) {
        Ok(a) => a,
        Err(e) => {
            return Err(e);
        },
    };
    let rewards_lock_text: Option<&str> = match &programs.rewards_lock {
        Some(s) => Some(s.as_str()),
        None => None,
    };
    let rewards_lock = match require_pubkey("programs.rewards_lock", rewards_lock_text) {
        Ok(a) => a,
        Err(e) => {
            return Err(e);
        },
    };
    Ok(ProgramIdsPlan { ore, mining, rewards_lock })
}

/// Resolves the mint step: the client-supplied address is required, the
/// authority is optional.
pub fn resolve_mint(mint: &MintConfig) -> (r: Result<MintPlan, LaunchError>)
    ensures
        (match r {
            Ok(p) => {
                &&& parsed_of_opt(mint.address) == Some(p.address@)
                &&& p.symbol == mint.symbol
                &&& p.decimals == mint.decimals
                &&& (match mint.authority {
                    Some(s) => (match p.authority {
                        Some(a) => decoded_address_of(s@) == Some(a@),
                        None => false,
                    }),
                    None => p.authority is None,
                })
            },
            Err(e) => {
                if !required_pubkey_ok(mint.address) {
                    required_pubkey_err(e, mint.address, "mint.address"@, true)
                } else {
                    match mint.authority {
                        Some(s) => decoded_address_of(s@) is None && (e
                            matches LaunchError::InvalidPubkey { label: l } && l@
                            == "mint.authority"@),
                        None => false,
                    }
                }
            },
        }),
{
    let address_text: Option<&str> = match &mint.address {
        Some(s) => Some(s.as_str()),
        None => None,
    };
    let address = match require_client_pubkey("mint.address", address_text) {
        Ok(a) => a,
        Err(e) => {
            return Err(e);
        },
    };
    let authority: Option<Address> = match &mint.authority {
        Some(value) => {
            match parse_pubkey("mint.authority", value.as_str()) {
                Ok(a) => Some(a),
                Err(e) => {
                    return Err(e);
                },
            }
        },
        None => None,
    };
    Ok(MintPlan { address, symbol: mint.symbol.clone(), decimals: mint.decimals, authority })
}

/// Resolves the pool step: the pool address is derived from the mint under
/// the mining program, the base mint defaults to the launch mint.
pub fn resolve_lp_pool(
    lp_pool: &LpPoolConfig,
    mint_address: Address,
    program_ids: &ProgramIdsPlan,
) -> (r: Result<LpPoolPlan, LaunchError>)
    ensures
        (match r {
            Ok(p) => {
                &&& (match lp_pool_pda_spec(mint_address@, program_ids.mining@) {
                    Some(d) => d.0 == p.address@,
                    None => false,
                })
                &&& (match lp_pool.base_mint {
                    Some(s) => decoded_address_of(s@) == Some(p.base_mint@),
                    None => p.base_mint == mint_address,
                })
                &&& decoded_address_of(lp_pool.quote_mint@) == Some(p.quote_mint@)
            },
            Err(e) => {
                if lp_pool_pda_spec(mint_address@, program_ids.mining@) is None {
                    e == LaunchError::DerivationFailed
                } else if (match lp_pool.base_mint {
                    Some(s) => decoded_address_of(s@) is None,
                    None => false,
                }) {
                    e matches LaunchError::InvalidPubkey { label: l } && l@ == "lp_pool.base_mint"@
                } else {
                    &&& decoded_address_of(lp_pool.quote_mint@) is None
                    &&& (e matches LaunchError::InvalidPubkey { label: l } && l@
                        == "lp_pool.quote_mint"@)
                }
            },
        }),
{
    let address = match lp_pool_pda(&mint_address, &program_ids.mining) {
        Some(p) => p.0,
        None => {
            return Err(LaunchError::DerivationFailed);
        },
    };
    let base_mint = match &lp_pool.base_mint {
        Some(value) => {
            match parse_pubkey("lp_pool.base_mint", value.as_str()) {
                Ok(a) => a,
                Err(e) => {
                    return Err(e);
                },
            }
        },
        None => mint_address,
    };
    let quote_mint = match parse_pubkey("lp_pool.quote_mint", lp_pool.quote_mint.as_str()) {
        Ok(a) => a,
        Err(e) => {
            return Err(e);
        },
    };
    Ok(LpPoolPlan { address, base_mint, quote_mint })
}

/// The schedule a configuration describes.
pub open spec fn schedule_of_config(c: VaultScheduleConfig) -> VaultSchedule {
    VaultSchedule {
        start_ts: c.start_ts,
        cliff_ts: c.cliff_ts,
        period_seconds: c.period_seconds,
        release_per_period: c.release_per_period,
        period_count: c.period_count,
    }
}

/// Validates a configured schedule: the period length must be positive and
/// the period count non-zero.
pub fn to_schedule(schedule: &VaultScheduleConfig) -> (r: Result<VaultSchedule, LaunchError>)
    ensures
        (match r {
            Ok(s) => schedule.period_seconds > 0 && schedule.period_count != 0 && s
                == schedule_of_config(*schedule),
            Err(e) => {
                if schedule.period_seconds <= 0 {
                    e == LaunchError::NonPositivePeriod
                } else {
                    schedule.period_count == 0 && e == LaunchError::ZeroPeriodCount
                }
            },
        }),
{
    if schedule.period_seconds <= 0 {
        return Err(LaunchError::NonPositivePeriod);
    }
    if schedule.period_count == 0 {
        return Err(LaunchError::ZeroPeriodCount);
    }
    Ok(
        VaultSchedule {
            start_ts: schedule.start_ts,
            cliff_ts: schedule.cliff_ts,
            period_seconds: schedule.period_seconds,
            release_per_period: schedule.release_per_period,
            period_count: schedule.period_count,
        },
    )
}

/// Whether one configured vault resolves under the reward-locking program.
pub open spec fn vault_config_ok(v: VaultConfig, rewards_lock: Seq<u8>) -> bool {
    &&& !is_blank_chars(v.beneficiary@)
    &&& v.schedule.period_seconds > 0
    &&& v.schedule.period_count != 0
    &&& decoded_address_of(v.beneficiary@) is Some
    &&& (match decoded_address_of(v.beneficiary@) {
        Some(b) => vault_pda_spec(b, schedule_of_config(v.schedule), rewards_lock) is Some,
        None => false,
    })
}

/// The relation between one configured vault and its resolved plan.
pub open spec fn vault_plan_matches(v: VaultConfig, p: VaultPlan, rewards_lock: Seq<u8>) -> bool {
    &&& p.label == v.label
    &&& p.schedule == schedule_of_config(v.schedule)
    &&& decoded_address_of(v.beneficiary@) == Some(p.beneficiary@)
    &&& (match vault_pda_spec(p.beneficiary@, p.schedule, rewards_lock) {
        Some(d) => d.0 == p.address@,
        None => false,
    })
}

/// The error one failing configured vault produces, by the first failing
/// check.
pub open spec fn vault_config_err(e: LaunchError, v: VaultConfig, rewards_lock: Seq<u8>) -> bool {
    if is_blank_chars(v.beneficiary@) {
        e == LaunchError::MissingBeneficiary
    } else if v.schedule.period_seconds <= 0 {
        e == LaunchError::NonPositivePeriod
    } else if v.schedule.period_count == 0 {
        e == LaunchError::ZeroPeriodCount
    } else if decoded_address_of(v.beneficiary@) is None {
        e matches LaunchError::InvalidPubkey { label: l } && l@ == "vaults.beneficiary"@
    } else {
        &&& (match decoded_address_of(v.beneficiary@) {
            Some(b) => vault_pda_spec(b, schedule_of_config(v.schedule), rewards_lock) is None,
            None => false,
        })
        &&& e == LaunchError::DerivationFailed
    }
}

/// Resolves every configured vault in order, deriving each address from the
/// beneficiary and the schedule's content hash, and reporting the first vault
/// that fails.
pub fn resolve_vaults(vaults: &Vec<VaultConfig>, program_ids: &ProgramIdsPlan) -> (r: Result<
    Vec<VaultPlan>,
    LaunchError,
>)
    ensures
        (match r {
            Ok(plans) => {
                &&& plans@.len() == vaults@.len()
                &&& forall|i: int|
                    0 <= i < vaults@.len() ==> vault_config_ok(
                        vaults@[i],
                        program_ids.rewards_lock@,
                    )
                &&& forall|i: int|
                    0 <= i < vaults@.len() ==> vault_plan_matches(
                        vaults@[i],
                        #[trigger] plans@[i],
                        program_ids.rewards_lock@,
                    )
            },
            Err(e) => exists|i: int|
                0 <= i < vaults@.len() && !vault_config_ok(
                    #[trigger] vaults@[i],
                    program_ids.rewards_lock@,
                ) && vault_config_err(e, vaults@[i], program_ids.rewards_lock@) && (forall|j: int|
                    0 <= j < i ==> vault_config_ok(vaults@[j], program_ids.rewards_lock@)),
        }),
{
    let mut plans: Vec<VaultPlan> = Vec::new();
    let n = vaults.len();
    let mut i: usize = 0;
    while i < n
        invariant
            n == vaults@.len(),
            i <= n,
            plans@.len() == i,
            forall|j: int| 0 <= j < i ==> vault_config_ok(vaults@[j], program_ids.rewards_lock@),
            forall|j: int|
                0 <= j < i ==> vault_plan_matches(
                    vaults@[j],
                    #[trigger] plans@[j],
                    program_ids.rewards_lock@,
                ),
        decreases n - i,
    {
        let vault = &vaults[i];
        if is_blank(vault.beneficiary.as_str()) {
            return Err(LaunchError::MissingBeneficiary);
        }
        let schedule = match to_schedule(&vault.schedule) {
            Ok(s) => s,
            Err(e) => {
                return Err(e);
            },
        };
        let beneficiary = match parse_pubkey("vaults.beneficiary", vault.beneficiary.as_str()) {
            Ok(a) => a,
            Err(e) => {
                return Err(e);
            },
        };
        let address = match vault_pda(&beneficiary, &schedule, &program_ids.rewards_lock) {
            Some(p) => p.0,
            None => {
                return Err(LaunchError::DerivationFailed);
            },
        };
        plans.push(
            VaultPlan { label: vault.label.clone(), address, beneficiary, schedule },
        );
        i += 1;
    }
    Ok(plans)
}

/// Whether a whole launch description resolves: every program address and
/// configured address parses, the pool address derives, and every vault
/// passes its checks.
pub open spec fn launch_config_ok(config: LaunchConfig, launcher: LauncherConfig) -> bool {
    &&& required_pubkey_ok(launcher.programs.ore)
    &&& required_pubkey_ok(launcher.programs.mining)
    &&& required_pubkey_ok(launcher.programs.rewards_lock)
    &&& required_pubkey_ok(config.mint.address)
    &&& (match config.mint.authority {
        Some(s) => decoded_address_of(s@) is Some,
        None => true,
    })
    &&& (match (parsed_of_opt(config.mint.address), parsed_of_opt(launcher.programs.mining)) {
        (Some(m), Some(mining)) => lp_pool_pda_spec(m, mining) is Some,
        _ => false,
    })
    &&& (match config.lp_pool.base_mint {
        Some(s) => decoded_address_of(s@) is Some,
        None => true,
    })
    &&& decoded_address_of(config.lp_pool.quote_mint@) is Some
    &&& (match parsed_of_opt(launcher.programs.rewards_lock) {
        Some(rl) => forall|i: int|
            0 <= i < config.vaults@.len() ==> vault_config_ok(#[trigger] config.vaults@[i], rl),
        None => false,
    })
}

/// Resolves a whole launch description against the launcher configuration:
/// program addresses first, then the mint, the pool, and every vault.
pub fn build_plan(
    config: &LaunchConfig,
    launcher_config: &LauncherConfig,
    payer: Address,
) -> (r: Result<LaunchPlan, LaunchError>)
    ensures
        r is Ok <==> launch_config_ok(*config, *launcher_config),
        (match r {
            Ok(p) => {
                &&& p.name == config.name
                &&& p.payer == payer
                &&& parsed_of_opt(launcher_config.programs.ore) == Some(p.program_ids.ore@)
                &&& parsed_of_opt(launcher_config.programs.mining) == Some(p.program_ids.mining@)
                &&& parsed_of_opt(launcher_config.programs.rewards_lock) == Some(
                    p.program_ids.rewards_lock@,
                )
                &&& parsed_of_opt(config.mint.address) == Some(p.mint.address@)
                &&& p.mint.symbol == config.mint.symbol
                &&& p.mint.decimals == config.mint.decimals
                &&& (match config.mint.authority {
                    Some(s) => (match p.mint.authority {
                        Some(a) => decoded_address_of(s@) == Some(a@),
                        None => false,
                    }),
                    None => p.mint.authority is None,
                })
                &&& (match lp_pool_pda_spec(p.mint.address@, p.program_ids.mining@) {
                    Some(d) => d.0 == p.lp_pool.address@,
                    None => false,
                })
                &&& (match config.lp_pool.base_mint {
                    Some(s) => decoded_address_of(s@) == Some(p.lp_pool.base_mint@),
                    None => p.lp_pool.base_mint == p.mint.address,
                })
                &&& decoded_address_of(config.lp_pool.quote_mint@) == Some(p.lp_pool.quote_mint@)
                &&& p.vaults@.len() == config.vaults@.len()
                &&& forall|i: int|
                    0 <= i < config.vaults@.len() ==> vault_plan_matches(
                        config.vaults@[i],
                        #[trigger] p.vaults@[i],
                        p.program_ids.rewards_lock@,
                    )
            },
            Err(e) => {
                if !required_pubkey_ok(launcher_config.programs.ore) {
                    required_pubkey_err(e, launcher_config.programs.ore, "programs.ore"@, false)
                } else if !required_pubkey_ok(launcher_config.programs.mining) {
                    required_pubkey_err(
                        e,
                        launcher_config.programs.mining,
                        "programs.mining"@,
                        false,
                    )
                } else if !required_pubkey_ok(launcher_config.programs.rewards_lock) {
                    required_pubkey_err(
                        e,
                        launcher_config.programs.rewards_lock,
                        "programs.rewards_lock"@,
                        false,
                    )
                } else if !required_pubkey_ok(config.mint.address) {
                    required_pubkey_err(e, config.mint.address, "mint.address"@, true)
                } else if (match config.mint.authority {
                    Some(s) => decoded_address_of(s@) is None,
                    None => false,
                }) {
                    e matches LaunchError::InvalidPubkey { label: l } && l@ == "mint.authority"@
                } else if (match (
                    parsed_of_opt(config.mint.address),
                    parsed_of_opt(launcher_config.programs.mining),
                ) {
                    (Some(m), Some(mining)) => lp_pool_pda_spec(m, mining) is None,
                    _ => false,
                }) {
                    e == LaunchError::DerivationFailed
                } else if (match config.lp_pool.base_mint {
                    Some(s) => decoded_address_of(s@) is None,
                    None => false,
                }) {
                    e matches LaunchError::InvalidPubkey { label: l } && l@ == "lp_pool.base_mint"@
                } else if decoded_address_of(config.lp_pool.quote_mint@) is None {
                    e matches LaunchError::InvalidPubkey { label: l } && l@
                        == "lp_pool.quote_mint"@
                } else {
                    match parsed_of_opt(launcher_config.programs.rewards_lock) {
                        Some(rl) => exists|i: int|
                            0 <= i < config.vaults@.len() && !vault_config_ok(
                                #[trigger] config.vaults@[i],
                                rl,
                            ) && vault_config_err(e, config.vaults@[i], rl) && (forall|j: int|
                                0 <= j < i ==> vault_config_ok(config.vaults@[j], rl)),
                        None => false,
                    }
                }
            },
        }),
{
    let program_ids = match resolve_program_ids(&launcher_config.programs) {
        Ok(p) => p,
        Err(e) => {
            return Err(e);
        },
    };
    let mint = match resolve_mint(&config.mint) {
        Ok(p) => p,
        Err(e) => {
            return Err(e);
        },
    };
    let lp_pool = match resolve_lp_pool(&config.lp_pool, mint.address, &program_ids) {
        Ok(p) => p,
        Err(e) => {
            return Err(e);
        },
    };
    let vaults = match resolve_vaults(&config.vaults, &program_ids) {
        Ok(p) => p,
        Err(e) => {
            return Err(e);
        },
    };
    Ok(LaunchPlan { name: config.name.clone(), payer, program_ids, mint, lp_pool, vaults })
}

} // verus!
