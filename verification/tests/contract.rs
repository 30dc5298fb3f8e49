//! The contract on a Soroban host: every action of an outcome is performed on
//! a real ledger, with a Stellar asset as the token.

use accountability_vault::{
    AccountabilityVault, Action, CheckIn, DataKey, Outcome, Vault, VaultStatus,
};
use soroban_sdk::testutils::{
    Address as _, ContractFunctionSet, EnvTestConfig, Events, Ledger, LedgerInfo,
};
use soroban_sdk::xdr::{LedgerKey, ScAddress, ScVal};
use soroban_sdk::{token, Address, Env, Error, FromVal, IntoVal, Symbol, TryFromVal, Val};

type Parties = (Address, Address, Address, Address);
type StoredVault = (Parties, i128, u64, u32, u32, u32);
type StoredCheckIn = (u32, bool, u64);

fn key_val(env: &Env, key: DataKey) -> Val {
    match key {
        DataKey::Vault => (Symbol::new(env, "Vault"),).into_val(env),
        DataKey::CheckIn(index) => (Symbol::new(env, "CheckIn"), index).into_val(env),
    }
}

fn pack_vault(v: Vault) -> StoredVault {
    let status: u32 = match v.status {
        VaultStatus::Active => 0,
        VaultStatus::Completed => 1,
        VaultStatus::Slashed => 2,
    };
    (
        (v.creator, v.success_destination, v.failure_destination, v.token),
        v.amount,
        v.end_timestamp,
        v.verified_count,
        v.milestone_count,
        status,
    )
}

fn unpack_vault(stored: StoredVault) -> Vault {
    let (parties, amount, end_timestamp, verified_count, milestone_count, status) = stored;
    Vault {
        creator: parties.0,
        success_destination: parties.1,
        failure_destination: parties.2,
        token: parties.3,
        amount,
        end_timestamp,
        verified_count,
        milestone_count,
        status: match status {
            0 => VaultStatus::Active,
            1 => VaultStatus::Completed,
            _ => VaultStatus::Slashed,
        },
    }
}

fn load_vault(env: &Env) -> Option<Vault> {
    let stored: Option<StoredVault> =
        env.storage().persistent().get(&key_val(env, DataKey::Vault));
    stored.map(unpack_vault)
}

fn load_check_in(env: &Env, index: u32) -> Option<CheckIn> {
    let stored: Option<StoredCheckIn> =
        env.storage().persistent().get(&key_val(env, DataKey::CheckIn(index)));
    stored.map(|s| CheckIn { milestone_index: s.0, verified: s.1, verified_at: s.2 })
}

fn perform(env: &Env, action: Action) {
    let storage = env.storage().persistent();
    match action {
        Action::RequireAuth(address) => address.require_auth(),
        Action::StoreVault { key, vault } => {
            storage.set(&key_val(env, key), &pack_vault(vault))
        }
        Action::StoreCheckIn { key, check_in } => storage.set(
            &key_val(env, key),
            &(check_in.milestone_index, check_in.verified, check_in.verified_at),
        ),
        Action::ExtendTtl { key, threshold, extend_to } => {
            storage.extend_ttl(&key_val(env, key), threshold, extend_to)
        }
        Action::Transfer { token, to, amount } => token::TokenClient::new(env, &token).transfer(
            &env.current_contract_address(),
            &to,
            &amount,
        ),
        Action::Publish { topic, data } => env.events().publish(
            (topic,),
            (data.released_amount, data.slashed_amount, data.verified_count, data.final_status),
        ),
    }
}

fn answer<T>(env: &Env, outcome: Outcome<T>) -> T {
    for action in outcome.actions {
        perform(env, action);
    }
    match outcome.reply {
        Ok(reply) => reply,
        Err(error) => panic!("{}", error.message()),
    }
}

fn arg<T: TryFromVal<Env, Val>>(env: &Env, args: &[Val], i: usize) -> T {
    match T::try_from_val(env, &args[i]) {
        Ok(value) => value,
        Err(_) => panic!("bad argument {}", i),
    }
}

struct HostedVault;

impl ContractFunctionSet for HostedVault {
    fn call(&self, func: &str, env: Env, args: &[Val]) -> Option<Val> {
        let e = &env;
        let now = e.ledger().timestamp();
        match func {
            "initialize" => {
                let outcome = AccountabilityVault::initialize(
                    now,
                    arg(e, args, 0),
                    arg(e, args, 1),
                    arg(e, args, 2),
                    arg(e, args, 3),
                    arg(e, args, 4),
                    arg(e, args, 5),
                    arg(e, args, 6),
                );
                answer(e, outcome);
                Some(().into_val(e))
            }
            "check_in" => {
                let index: u32 = arg(e, args, 1);
                let checked_in =
                    e.storage().persistent().has(&key_val(e, DataKey::CheckIn(index)));
                let vault = load_vault(e);
                let verifier = arg(e, args, 0);
                answer(e, AccountabilityVault::check_in(now, vault, checked_in, verifier, index));
                Some(().into_val(e))
            }
            "claim" => {
                answer(e, AccountabilityVault::claim(load_vault(e)));
                Some(().into_val(e))
            }
            "slash_on_miss" => {
                answer(e, AccountabilityVault::slash_on_miss(now, load_vault(e)));
                Some(().into_val(e))
            }
            "get_vault" => {
                let vault = answer(e, AccountabilityVault::get_vault(now, load_vault(e)));
                Some(pack_vault(vault).into_val(e))
            }
            "get_check_in" => {
                let index: u32 = arg(e, args, 0);
                let outcome = AccountabilityVault::get_check_in(
                    now,
                    load_vault(e),
                    load_check_in(e, index),
                    index,
                );
                let c = answer(e, outcome);
                Some((c.milestone_index, c.verified, c.verified_at).into_val(e))
            }
            _ => None,
        }
    }
}

struct Client<'a> {
    env: &'a Env,
    contract_id: &'a Address,
}

impl Client<'_> {
    fn invoke<T: TryFromVal<Env, Val>>(&self, func: &str, args: soroban_sdk::Vec<Val>) -> T {
        self.env.invoke_contract(self.contract_id, &Symbol::new(self.env, func), args)
    }

    fn check_in(&self, verifier: &Address, index: u32) {
        self.invoke("check_in", (verifier.clone(), index).into_val(self.env))
    }

    fn claim(&self) {
        self.invoke("claim", ().into_val(self.env))
    }

    fn slash_on_miss(&self) {
        self.invoke("slash_on_miss", ().into_val(self.env))
    }

    fn get_vault(&self) -> Vault {
        unpack_vault(self.invoke("get_vault", ().into_val(self.env)))
    }

    fn get_check_in(&self, index: u32) -> CheckIn {
        let s: StoredCheckIn = self.invoke("get_check_in", (index,).into_val(self.env));
        CheckIn { milestone_index: s.0, verified: s.1, verified_at: s.2 }
    }
}

struct TestSetup {
    env: Env,
    contract_id: Address,
    creator: Address,
    success_dest: Address,
    failure_dest: Address,
    token_id: Address,
    end_timestamp: u64,
}

impl TestSetup {
    fn client(&self) -> Client<'_> {
        Client { env: &self.env, contract_id: &self.contract_id }
    }

    fn stored_vault(&self) -> Option<Vault> {
        self.env.as_contract(&self.contract_id, || load_vault(&self.env))
    }

    fn balance(&self, of: &Address) -> i128 {
        token::TokenClient::new(&self.env, &self.token_id).balance(of)
    }

    /// The number of ledgers that the entry under `key` has left to live.
    fn ttl(&self, key: DataKey) -> u32 {
        let wanted = ScVal::try_from_val(&self.env, &key_val(&self.env, key)).unwrap();
        let contract = ScAddress::try_from(&self.contract_id).unwrap();
        for (ledger_key, (_, live_until)) in self.env.to_snapshot().ledger.ledger_entries {
            if let LedgerKey::ContractData(data) = *ledger_key {
                if data.contract == contract && data.key == wanted {
                    return live_until.unwrap() - self.env.ledger().sequence();
                }
            }
        }
        panic!("no such entry")
    }

    fn at(&self, timestamp: u64, sequence_number: u32) {
        self.env.ledger().set(ledger_info(timestamp, sequence_number));
    }

    /// The data of the last settlement summary that the vault published.
    fn settlement(&self) -> Option<(i128, i128, u32, Symbol)> {
        let mut found = None;
        for (emitter, topics, data) in self.env.events().all().iter() {
            if emitter == self.contract_id {
                assert_eq!(topics.len(), 1);
                let topic = Symbol::from_val(&self.env, &topics.get(0).unwrap());
                assert_eq!(topic, Symbol::new(&self.env, "settle"));
                found = Some(FromVal::from_val(&self.env, &data));
            }
        }
        found
    }
}

fn ledger_info(timestamp: u64, sequence_number: u32) -> LedgerInfo {
    LedgerInfo {
        timestamp,
        protocol_version: 20,
        sequence_number,
        network_id: Default::default(),
        base_reserve: 10,
        min_temp_entry_ttl: 1,
        min_persistent_entry_ttl: 1,
        max_entry_ttl: 10_000_000,
    }
}

/// A host with the contract, its token minted to it, and no vault yet.
fn deploy() -> TestSetup {
    let env = Env::new_with_config(EnvTestConfig { capture_snapshot_at_drop: false });
    env.mock_all_auths();

    let end_timestamp: u64 = 1_000_000;
    env.ledger().set(ledger_info(0, 1));

    let contract_id = env.register_contract(None, HostedVault);
    let creator = Address::generate(&env);
    let success_dest = Address::generate(&env);
    let failure_dest = Address::generate(&env);

    let token_admin = Address::generate(&env);
    let token_id = env.register_stellar_asset_contract(token_admin);
    token::StellarAssetClient::new(&env, &token_id).mint(&contract_id, &1_000_000);

    TestSetup { env, contract_id, creator, success_dest, failure_dest, token_id, end_timestamp }
}

fn open(ts: &TestSetup, milestone_count: u32) {
    let args = (
        ts.creator.clone(),
        ts.success_dest.clone(),
        ts.failure_dest.clone(),
        ts.token_id.clone(),
        1_000_000_i128,
        ts.end_timestamp,
        milestone_count,
    );
    ts.client().invoke::<()>("initialize", args.into_val(&ts.env));
}

fn setup(milestone_count: u32) -> TestSetup {
    let ts = deploy();
    open(&ts, milestone_count);
    ts
}

// TTL.

#[test]
fn test_vault_ttl_extended_on_initialize() {
    let ts = setup(1);
    let vault: Vault = ts.stored_vault().unwrap();
    assert_eq!(vault.status, VaultStatus::Active);
    assert_eq!(ts.ttl(DataKey::Vault), 200_000);
}

#[test]
fn test_checkin_ttl_extended_on_check_in() {
    let ts = setup(2);
    let verifier = Address::generate(&ts.env);
    ts.client().check_in(&verifier, 0);

    let key = key_val(&ts.env, DataKey::CheckIn(0));
    assert!(ts.env.as_contract(&ts.contract_id, || ts.env.storage().persistent().has(&key)));
    assert_eq!(ts.ttl(DataKey::CheckIn(0)), 200_000);
}

#[test]
fn test_ttl_not_extended_after_claim() {
    let ts = setup(0); // zero milestones: can claim immediately
    ts.client().claim();

    let vault: Vault = ts.stored_vault().unwrap();
    assert_eq!(vault.status, VaultStatus::Completed);

    ts.at(10, 1_001);
    assert_eq!(ts.ttl(DataKey::Vault), 199_000);
    ts.client().get_vault();
    assert_eq!(ts.ttl(DataKey::Vault), 199_000);
}

#[test]
fn test_ttl_not_extended_after_slash() {
    let ts = setup(1);
    ts.at(ts.end_timestamp + 1, 2);
    ts.client().slash_on_miss();

    let vault: Vault = ts.stored_vault().unwrap();
    assert_eq!(vault.status, VaultStatus::Slashed);
    assert_eq!(ts.ttl(DataKey::Vault), 199_999);
}

#[test]
fn reads_of_an_active_vault_extend_its_entries() {
    let ts = setup(2);
    let verifier = Address::generate(&ts.env);
    ts.client().check_in(&verifier, 1);

    ts.at(100, 150_001);
    assert_eq!(ts.ttl(DataKey::Vault), 50_000);
    ts.client().get_vault();
    assert_eq!(ts.ttl(DataKey::Vault), 199_980);
    assert_eq!(ts.ttl(DataKey::CheckIn(1)), 50_000);
    ts.client().get_check_in(1);
    assert_eq!(ts.ttl(DataKey::CheckIn(1)), 199_980);

    ts.at(200, 300_001);
    assert_eq!(ts.ttl(DataKey::Vault), 49_980);
    assert_eq!(ts.ttl(DataKey::CheckIn(1)), 49_980);
    ts.client().get_check_in(1);
    assert_eq!(ts.ttl(DataKey::Vault), 199_960);
    assert_eq!(ts.ttl(DataKey::CheckIn(1)), 199_960);
}

// Settlement summary.

#[test]
fn test_claim_emits_settlement_summary_event() {
    let ts = setup(0); // zero milestones
    ts.client().claim();

    let settlement_event = ts.settlement();
    assert!(settlement_event.is_some(), "settlement_summary event not emitted");
    let (released, slashed, verified, status) = settlement_event.unwrap();

    assert_eq!(released, 1_000_000_i128, "released_amount should equal vault amount");
    assert_eq!(slashed, 0_i128, "slashed_amount should be 0 on claim");
    assert_eq!(verified, 0_u32, "verified_count should match");
    assert_eq!(status, Symbol::new(&ts.env, "completed"));
}

#[test]
fn test_slash_on_miss_emits_settlement_summary_event() {
    let ts = setup(2);
    let verifier = Address::generate(&ts.env);

    // Verify only one of two milestones.
    ts.client().check_in(&verifier, 0);

    ts.at(ts.end_timestamp + 1, 3);
    ts.client().slash_on_miss();

    let settlement_event = ts.settlement();
    assert!(settlement_event.is_some(), "settlement_summary event not emitted");
    let (released, slashed, verified, status) = settlement_event.unwrap();

    assert_eq!(released, 0_i128, "released_amount should be 0 on slash");
    assert_eq!(slashed, 1_000_000_i128, "slashed_amount should equal vault amount");
    assert_eq!(verified, 1_u32, "verified_count should reflect partial verification");
    assert_eq!(status, Symbol::new(&ts.env, "slashed"));
}

// Happy paths.

#[test]
fn test_full_claim_flow() {
    let ts = setup(2);
    let verifier = Address::generate(&ts.env);
    ts.client().check_in(&verifier, 0);
    ts.client().check_in(&verifier, 1);

    let vault = ts.client().get_vault();
    assert_eq!(vault.verified_count, 2);

    ts.client().claim();

    assert_eq!(
        ts.balance(&ts.success_dest),
        1_000_000_i128,
        "success_destination should receive full amount"
    );
    assert_eq!(ts.balance(&ts.failure_dest), 0, "failure_destination should receive nothing");
}

#[test]
fn test_slash_on_miss_flow() {
    let ts = setup(2);
    ts.at(ts.end_timestamp + 1, 2);
    ts.client().slash_on_miss();

    assert_eq!(
        ts.balance(&ts.failure_dest),
        1_000_000_i128,
        "failure_destination should receive full amount"
    );
    assert_eq!(ts.balance(&ts.success_dest), 0, "success_destination should receive nothing");
}

// Refusals.

#[test]
#[should_panic(expected = "milestone already checked in")]
fn test_double_check_in_panics() {
    let ts = setup(2);
    let verifier = Address::generate(&ts.env);
    ts.client().check_in(&verifier, 0);
    ts.client().check_in(&verifier, 0); // should panic
}

#[test]
#[should_panic(expected = "not all milestones verified")]
fn test_claim_without_all_milestones_panics() {
    let ts = setup(2);
    let verifier = Address::generate(&ts.env);
    ts.client().check_in(&verifier, 0); // only one of two
    ts.client().claim(); // should panic
}

#[test]
#[should_panic(expected = "vault deadline has not passed")]
fn test_slash_before_deadline_panics() {
    let ts = setup(1);
    ts.client().slash_on_miss(); // deadline not reached: should panic
}

#[test]
#[should_panic(expected = "vault is not active")]
fn test_double_claim_panics() {
    let ts = setup(0);
    ts.client().claim();
    ts.client().claim(); // should panic
}

// Laws, on given values.

#[test]
fn a_read_gives_back_what_was_written() {
    let ts = setup(3);
    let vault = ts.client().get_vault();
    assert_eq!(vault.creator, ts.creator);
    assert_eq!(vault.success_destination, ts.success_dest);
    assert_eq!(vault.failure_destination, ts.failure_dest);
    assert_eq!(vault.token, ts.token_id);
    assert_eq!(vault.amount, 1_000_000);
    assert_eq!(vault.end_timestamp, 1_000_000);
    assert_eq!(vault.verified_count, 0);
    assert_eq!(vault.milestone_count, 3);
    assert_eq!(vault.status, VaultStatus::Active);

    ts.at(77, 2);
    let verifier = Address::generate(&ts.env);
    ts.client().check_in(&verifier, 2);
    ts.at(99, 3);
    let check_in = ts.client().get_check_in(2);
    assert_eq!(check_in, CheckIn { milestone_index: 2, verified: true, verified_at: 77 });
}

#[test]
fn initialize_and_check_in_demand_signatures() {
    let ts = setup(1);
    assert_eq!(ts.env.auths().len(), 1);
    assert_eq!(ts.env.auths()[0].0, ts.creator);
    let verifier = Address::generate(&ts.env);
    ts.client().check_in(&verifier, 0);
    assert_eq!(ts.env.auths().len(), 1);
    assert_eq!(ts.env.auths()[0].0, verifier);
    ts.client().get_vault();
    assert!(ts.env.auths().is_empty());
}

#[test]
fn a_slashed_vault_cannot_be_claimed_nor_slashed_again() {
    let ts = setup(1);
    ts.at(ts.end_timestamp, 2); // the deadline itself counts as passed
    ts.client().slash_on_miss();
    let claim = AccountabilityVault::claim(ts.stored_vault());
    assert!(claim.actions.is_empty());
    assert_eq!(claim.reply.unwrap_err().message(), "vault is not active");
    let slash = AccountabilityVault::slash_on_miss(ts.end_timestamp, ts.stored_vault());
    assert!(slash.actions.is_empty());
    assert_eq!(slash.reply.unwrap_err().message(), "vault is not active");
    assert_eq!(ts.balance(&ts.failure_dest), 1_000_000);
}

#[test]
fn a_fully_verified_vault_is_claimed_and_never_slashed() {
    let ts = setup(1);
    let verifier = Address::generate(&ts.env);
    ts.client().check_in(&verifier, 0);

    ts.at(1_000_001, 2);
    let slash = Symbol::new(&ts.env, "slash_on_miss");
    let refusal = ts.env.try_invoke_contract::<(), Error>(
        &ts.contract_id,
        &slash,
        ().into_val(&ts.env),
    );
    assert!(refusal.is_err());
    let outcome = AccountabilityVault::slash_on_miss(1_000_001, ts.stored_vault());
    assert_eq!(outcome.reply.unwrap_err().message(), "all milestones verified");
    assert_eq!(ts.stored_vault().unwrap().status, VaultStatus::Active);
    assert_eq!(ts.balance(&ts.failure_dest), 0);
    assert!(ts.settlement().is_none());

    ts.client().claim();
    assert_eq!(ts.stored_vault().unwrap().status, VaultStatus::Completed);
    assert_eq!(ts.balance(&ts.success_dest), 1_000_000);
    assert_eq!(ts.balance(&ts.failure_dest), 0);
}

#[test]
fn a_new_vault_keeps_the_old_check_ins() {
    let ts = setup(2);
    let verifier = Address::generate(&ts.env);
    ts.client().check_in(&verifier, 0);
    open(&ts, 2);
    assert_eq!(ts.client().get_vault().verified_count, 0);
    assert_eq!(ts.client().get_check_in(0).milestone_index, 0);
}

#[test]
fn nothing_can_be_done_without_a_vault() {
    let ts = deploy();
    let verifier = Address::generate(&ts.env);
    let texts = [
        AccountabilityVault::check_in(0, ts.stored_vault(), false, verifier, 0)
            .reply
            .unwrap_err()
            .message(),
        AccountabilityVault::claim(ts.stored_vault()).reply.unwrap_err().message(),
        AccountabilityVault::slash_on_miss(0, ts.stored_vault())
            .reply
            .unwrap_err()
            .message(),
        AccountabilityVault::get_vault(0, ts.stored_vault()).reply.unwrap_err().message(),
        AccountabilityVault::get_check_in(0, ts.stored_vault(), None, 0)
            .reply
            .unwrap_err()
            .message(),
    ];
    for text in texts {
        assert_eq!(text, "vault not initialised");
    }
}
