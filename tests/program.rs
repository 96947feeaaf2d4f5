use awe::error::AweError;
use awe::keys::{agent_creator_address, awe_metadata_address, delegate_address, Pubkey};
use awe::program::{
    check_metadata_accounts, check_purchase_accounts, create_agent, init_agent_creator, init_awe_metadata, update_awe_metadata, AgentCreator,
    AweMetadata, CreateAgent, CreatorAccount, InitAgentCreator, InitAweMetadata, MetadataAccount,
    Signer, UpdateAweMetadata,
};
use awe::token::{transfer_checked, MintAccount, TokenAccount};

const AUTHORITY: u8 = 1;
const USER_A: u8 = 10;
const USER_B: u8 = 11;

fn key(n: u8) -> Pubkey {
    Pubkey { bytes: [n; 32] }
}

fn delegate() -> Pubkey {
    delegate_address().unwrap()
}

fn metadata_key(authority: u8) -> Pubkey {
    awe_metadata_address(&key(authority)).unwrap()
}

fn mint() -> MintAccount {
    MintAccount { key: key(90), decimals: 6 }
}

fn token_account(id: u8, mint: Pubkey, amount: u64) -> TokenAccount {
    TokenAccount {
        key: key(id),
        mint,
        owner: delegate(),
        amount,
        delegate: None,
        delegated_amount: 0,
    }
}

fn collector() -> TokenAccount {
    let mut c = token_account(91, mint().key, 0);
    c.owner = key(AUTHORITY);
    c
}

fn signer(id: u8) -> Signer {
    Signer { key: key(id), is_signer: true }
}

fn metadata_record(price: u64) -> MetadataAccount {
    MetadataAccount {
        key: metadata_key(AUTHORITY),
        data: Some(AweMetadata {
            awe_mint_account: mint().key,
            awe_collector_account: collector().key,
            agent_price: price,
        }),
    }
}

fn creator_slot(user: u8) -> CreatorAccount {
    CreatorAccount {
        key: agent_creator_address(&metadata_key(AUTHORITY), &key(user)).unwrap(),
        data: None,
    }
}

fn init_creator_ctx(user: u8, price: u64, sender_amount: u64) -> InitAgentCreator {
    InitAgentCreator {
        user: signer(user),
        awe_metadata_account: metadata_record(price),
        awe_mint_account: mint(),
        awe_collector_account: collector(),
        agent_creator: creator_slot(user),
        awe_sender_account: token_account(100 + user, mint().key, sender_amount),
        delegate: delegate(),
    }
}

fn create_agent_ctx(from: &InitAgentCreator) -> CreateAgent {
    CreateAgent {
        user: from.user,
        awe_metadata_account: from.awe_metadata_account,
        awe_mint_account: from.awe_mint_account,
        awe_collector_account: from.awe_collector_account,
        agent_creator: from.agent_creator,
        awe_sender_account: from.awe_sender_account,
        delegate: from.delegate,
    }
}

fn init_metadata_ctx() -> InitAweMetadata {
    InitAweMetadata {
        user: signer(AUTHORITY),
        awe_mint_account: mint(),
        awe_metadata_account: MetadataAccount { key: metadata_key(AUTHORITY), data: None },
        awe_collector_account: collector(),
    }
}

#[test]
fn init_metadata_stores_inputs() {
    let mut ctx = init_metadata_ctx();
    assert_eq!(init_awe_metadata(&mut ctx, 1_000_000), Ok(()));
    assert_eq!(ctx.awe_metadata_account.key, metadata_key(AUTHORITY));
    assert_eq!(
        ctx.awe_metadata_account.data,
        Some(AweMetadata {
            awe_mint_account: key(90),
            awe_collector_account: key(91),
            agent_price: 1_000_000,
        })
    );
}

#[test]
fn init_metadata_twice_is_refused() {
    let mut ctx = init_metadata_ctx();
    assert_eq!(init_awe_metadata(&mut ctx, 5), Ok(()));
    let before = ctx;
    assert_eq!(init_awe_metadata(&mut ctx, 7), Err(AweError::AllocationFailed));
    assert_eq!(ctx, before);
}

#[test]
fn init_metadata_errors() {
    let mut ctx = init_metadata_ctx();
    ctx.user.is_signer = false;
    assert_eq!(init_awe_metadata(&mut ctx, 5), Err(AweError::Unauthorized));

    let mut ctx = init_metadata_ctx();
    ctx.awe_metadata_account.key = metadata_key(USER_A);
    assert_eq!(init_awe_metadata(&mut ctx, 5), Err(AweError::InvalidSeed));

    let mut ctx = init_metadata_ctx();
    ctx.awe_collector_account.mint = key(99);
    assert_eq!(init_awe_metadata(&mut ctx, 5), Err(AweError::ConstraintViolation));
    assert_eq!(ctx.awe_metadata_account.data, None);
}

#[test]
fn update_metadata_overwrites_and_is_idempotent() {
    let mut ctx = UpdateAweMetadata {
        user: signer(AUTHORITY),
        awe_mint_account: MintAccount { key: key(92), decimals: 9 },
        awe_metadata_account: metadata_record(5),
        awe_collector_account: token_account(93, key(92), 0),
    };
    assert_eq!(update_awe_metadata(&mut ctx, 42), Ok(()));
    let once = ctx;
    assert_eq!(
        once.awe_metadata_account.data,
        Some(AweMetadata {
            awe_mint_account: key(92),
            awe_collector_account: key(93),
            agent_price: 42,
        })
    );
    assert_eq!(update_awe_metadata(&mut ctx, 42), Ok(()));
    assert_eq!(ctx, once);
}

#[test]
fn update_metadata_needs_existing_record() {
    let mut ctx = UpdateAweMetadata {
        user: signer(AUTHORITY),
        awe_mint_account: mint(),
        awe_metadata_account: MetadataAccount { key: metadata_key(AUTHORITY), data: None },
        awe_collector_account: collector(),
    };
    assert_eq!(update_awe_metadata(&mut ctx, 42), Err(AweError::AccountNotInitialized));
    assert_eq!(ctx.awe_metadata_account.data, None);
}

#[test]
fn purchase_scenario() {
    let price = 1_000_000;
    let mut a = init_creator_ctx(USER_A, price, 10_000_000);
    assert_eq!(init_agent_creator(&mut a), Ok(()));
    assert_eq!(a.agent_creator.data, Some(AgentCreator { num_agents: 1 }));
    assert_eq!(a.awe_collector_account.amount, 1_000_000);
    assert_eq!(a.awe_sender_account.amount, 9_000_000);

    let mut next = create_agent_ctx(&a);
    for _ in 0..3 {
        assert_eq!(create_agent(&mut next), Ok(()));
    }
    assert_eq!(next.agent_creator.data, Some(AgentCreator { num_agents: 4 }));
    assert_eq!(next.awe_collector_account.amount, 4_000_000);
    assert_eq!(next.awe_sender_account.amount, 6_000_000);

    // User B has no counter of their own yet.
    let b_init = init_creator_ctx(USER_B, price, 10_000_000);
    let mut b = create_agent_ctx(&b_init);
    b.awe_collector_account = next.awe_collector_account;
    assert_eq!(create_agent(&mut b), Err(AweError::AccountNotInitialized));
    assert_eq!(b.awe_sender_account.amount, 10_000_000);
    assert_eq!(b.awe_collector_account.amount, 4_000_000);

    // A's counter cannot stand in for B's.
    let mut shared = b;
    shared.agent_creator = next.agent_creator;
    assert_eq!(create_agent(&mut shared), Err(AweError::InvalidSeed));
    assert_ne!(b.agent_creator.key, next.agent_creator.key);
}

#[test]
fn init_creator_twice_is_refused() {
    let mut ctx = init_creator_ctx(USER_A, 10, 100);
    assert_eq!(init_agent_creator(&mut ctx), Ok(()));
    let before = ctx;
    assert_eq!(init_agent_creator(&mut ctx), Err(AweError::AllocationFailed));
    assert_eq!(ctx, before);
    assert_eq!(ctx.agent_creator.data, Some(AgentCreator { num_agents: 1 }));
}

#[test]
fn short_funds_fail_the_transfer() {
    let mut ctx = init_creator_ctx(USER_A, 10, 9);
    let before = ctx;
    assert_eq!(init_agent_creator(&mut ctx), Err(AweError::TransferFailed));
    assert_eq!(ctx, before);

    let mut ok = init_creator_ctx(USER_A, 10, 10);
    assert_eq!(init_agent_creator(&mut ok), Ok(()));
    assert_eq!(ok.awe_sender_account.amount, 0);
    let mut next = create_agent_ctx(&ok);
    let before = next;
    assert_eq!(create_agent(&mut next), Err(AweError::TransferFailed));
    assert_eq!(next, before);
}

#[test]
fn counter_refuses_past_its_largest_value() {
    let mut ctx = init_creator_ctx(USER_A, 1, 1_000);
    assert_eq!(init_agent_creator(&mut ctx), Ok(()));
    let mut next = create_agent_ctx(&ctx);
    for _ in 0..254 {
        assert_eq!(create_agent(&mut next), Ok(()));
    }
    assert_eq!(next.agent_creator.data, Some(AgentCreator { num_agents: 255 }));
    assert_eq!(next.awe_sender_account.amount, 1_000 - 255);
    let before = next;
    assert_eq!(create_agent(&mut next), Err(AweError::Overflow));
    assert_eq!(next, before);
}

#[test]
fn purchase_account_errors() {
    let mut ctx = init_creator_ctx(USER_A, 10, 100);
    ctx.user.is_signer = false;
    assert_eq!(init_agent_creator(&mut ctx), Err(AweError::Unauthorized));

    let mut ctx = init_creator_ctx(USER_A, 10, 100);
    ctx.awe_metadata_account.data = None;
    assert_eq!(init_agent_creator(&mut ctx), Err(AweError::AccountNotInitialized));

    let mut ctx = init_creator_ctx(USER_A, 10, 100);
    ctx.awe_collector_account.key = key(77);
    assert_eq!(init_agent_creator(&mut ctx), Err(AweError::ConstraintViolation));

    let mut ctx = init_creator_ctx(USER_A, 10, 100);
    ctx.awe_sender_account.mint = key(99);
    assert_eq!(init_agent_creator(&mut ctx), Err(AweError::ConstraintViolation));

    let mut ctx = init_creator_ctx(USER_A, 10, 100);
    ctx.delegate = key(5);
    assert_eq!(init_agent_creator(&mut ctx), Err(AweError::InvalidSeed));

    let mut ctx = init_creator_ctx(USER_A, 10, 100);
    ctx.awe_metadata_account.key = key(AUTHORITY);
    assert_eq!(init_agent_creator(&mut ctx), Err(AweError::InvalidSeed));
}

#[test]
fn sender_not_held_by_delegate_is_refused() {
    let mut ctx = init_creator_ctx(USER_A, 10, 100);
    ctx.awe_sender_account.owner = key(USER_A);
    let before = ctx;
    assert_eq!(init_agent_creator(&mut ctx), Err(AweError::TransferFailed));
    assert_eq!(ctx, before);
}

#[test]
fn delegated_allowance_is_spent() {
    let m = mint();
    let mut from = token_account(1, m.key, 50);
    from.owner = key(USER_A);
    from.delegate = Some(delegate());
    from.delegated_amount = 30;
    let mut to = token_account(2, m.key, 5);
    assert_eq!(transfer_checked(&mut from, &mut to, &m, delegate(), 20, 6), Ok(()));
    assert_eq!(from.amount, 30);
    assert_eq!(from.delegated_amount, 10);
    assert_eq!(to.amount, 25);
    assert_eq!(
        transfer_checked(&mut from, &mut to, &m, delegate(), 20, 6),
        Err(AweError::TransferFailed)
    );
    assert_eq!(
        transfer_checked(&mut from, &mut to, &m, delegate(), 5, 2),
        Err(AweError::TransferFailed)
    );
    assert_eq!(from.amount, 30);
}

#[test]
fn transfer_refuses_overflowing_receiver() {
    let m = mint();
    let mut from = token_account(1, m.key, 50);
    let mut to = token_account(2, m.key, u64::MAX);
    assert_eq!(
        transfer_checked(&mut from, &mut to, &m, delegate(), 1, 6),
        Err(AweError::TransferFailed)
    );
    assert_eq!(from.amount, 50);
    assert_eq!(to.amount, u64::MAX);
}

#[test]
fn derived_addresses_differ() {
    let m = metadata_key(AUTHORITY);
    let a = agent_creator_address(&m, &key(USER_A)).unwrap();
    let b = agent_creator_address(&m, &key(USER_B)).unwrap();
    assert_ne!(a, b);
    assert_ne!(a, key(USER_A));
    assert_ne!(m, key(AUTHORITY));
    assert_ne!(metadata_key(1), metadata_key(2));
    assert_eq!(metadata_key(1), metadata_key(1));
    assert_ne!(delegate(), m);
    let other = agent_creator_address(&metadata_key(2), &key(USER_A)).unwrap();
    assert_ne!(a, other);
}

#[test]
fn metadata_check_uses_the_given_address() {
    let ctx = init_metadata_ctx();
    let k = ctx.awe_metadata_account.key;
    let check = |expected: Option<Pubkey>| {
        check_metadata_accounts(
            &ctx.user,
            &ctx.awe_mint_account,
            &ctx.awe_metadata_account,
            &ctx.awe_collector_account,
            expected,
        )
    };
    assert_eq!(check(Some(k)), Ok(()));
    assert_eq!(check(Some(key(3))), Err(AweError::InvalidSeed));
    assert_eq!(check(None), Err(AweError::InvalidSeed));
}

#[test]
fn purchase_check_uses_the_given_addresses() {
    let ctx = init_creator_ctx(USER_A, 10, 100);
    let check = |creator: Option<Pubkey>, delegate: Option<Pubkey>| {
        check_purchase_accounts(
            &ctx.user,
            &ctx.awe_metadata_account,
            &ctx.awe_mint_account,
            &ctx.awe_collector_account,
            &ctx.agent_creator,
            &ctx.awe_sender_account,
            ctx.delegate,
            creator,
            delegate,
        )
    };
    let c = ctx.agent_creator.key;
    let d = ctx.delegate;
    assert_eq!(check(Some(c), Some(d)), Ok(()));
    assert_eq!(check(None, Some(d)), Err(AweError::InvalidSeed));
    assert_eq!(check(Some(d), Some(d)), Err(AweError::InvalidSeed));
    assert_eq!(check(Some(c), None), Err(AweError::InvalidSeed));
    assert_eq!(check(Some(c), Some(c)), Err(AweError::InvalidSeed));
}
