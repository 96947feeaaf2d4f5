use vstd::prelude::*;
use crate::error::AweError;
use crate::keys::{
    Pubkey,
    same_key,
    agent_creator_address,
    awe_metadata_address,
    delegate_address,
    spec_agent_creator_address,
    spec_awe_metadata_address,
    spec_delegate_address,
};
use crate::token::{
    MintAccount,
    TokenAccount,
    credited,
    debited,
    transfer_allowed,
    transfer_checked,
};

verus! {

/// The record that fixes the payment token, the collector and the price.
#[derive(Clone, Copy, Debug, PartialEq, Eq)]
pub struct AweMetadata {
    pub awe_mint_account: Pubkey,
    pub awe_collector_account: Pubkey,
    pub agent_price: u64,
}

/// The number of agents one user has created under one metadata record.
#[derive(Clone, Copy, Debug, PartialEq, Eq)]
pub struct AgentCreator {
    pub num_agents: u8,
}

/// The account that signs the request: its wallet and whether it signed.
#[derive(Clone, Copy, Debug, PartialEq, Eq)]
pub struct Signer {
    pub key: Pubkey,
    pub is_signer: bool,
}

/// A metadata account at `key`; `data` is `None` while nothing is stored there.
#[derive(Clone, Copy, Debug, PartialEq, Eq)]
pub struct MetadataAccount {
    pub key: Pubkey,
    pub data: Option<AweMetadata>,
}

/// A counter account at `key`; `data` is `None` while nothing is stored there.
#[derive(Clone, Copy, Debug, PartialEq, Eq)]
pub struct CreatorAccount {
    pub key: Pubkey,
    pub data: Option<AgentCreator>,
}

/// Accounts of a request that creates a metadata record.
#[derive(Clone, Copy, Debug, PartialEq, Eq)]
pub struct InitAweMetadata {
    pub user: Signer,
    pub awe_mint_account: MintAccount,
    pub awe_metadata_account: MetadataAccount,
    pub awe_collector_account: TokenAccount,
}

/// Accounts of a request that overwrites a metadata record.
#[derive(Clone, Copy, Debug, PartialEq, Eq)]
pub struct UpdateAweMetadata {
    pub user: Signer,
    pub awe_mint_account: MintAccount,
    pub awe_metadata_account: MetadataAccount,
    pub awe_collector_account: TokenAccount,
}

/// Accounts of a request that creates a user's counter with its first paid agent.
#[derive(Clone, Copy, Debug, PartialEq, Eq)]
pub struct InitAgentCreator {
    pub user: Signer,
    pub awe_metadata_account: MetadataAccount,
    pub awe_mint_account: MintAccount,
    pub awe_collector_account: TokenAccount,
    pub agent_creator: CreatorAccount,
    pub awe_sender_account: TokenAccount,
    pub delegate: Pubkey,
}

/// Accounts of a request that pays for one more agent.
#[derive(Clone, Copy, Debug, PartialEq, Eq)]
pub struct CreateAgent {
    pub user: Signer,
    pub awe_metadata_account: MetadataAccount,
    pub awe_mint_account: MintAccount,
    pub awe_collector_account: TokenAccount,
    pub agent_creator: CreatorAccount,
    pub awe_sender_account: TokenAccount,
    pub delegate: Pubkey,
}

/// The view of an address that may be missing.
pub open spec fn key_view(key: Option<Pubkey>) -> Option<Seq<u8>> {
    match key {
        Some(k) => Some(k@),
        None => None,
    }
}

/// The checks shared by the requests that write a metadata record, given the
/// address `expected` derived for the signer: a signer, the record at that
/// address, and a collector of the mint.
pub open spec fn metadata_accounts_check_at(
    user: Signer,
    mint: MintAccount,
    metadata: MetadataAccount,
    collector: TokenAccount,
    expected: Option<Seq<u8>>,
) -> Result<(), AweError> {
    if !user.is_signer {
        Err(AweError::Unauthorized)
    } else if expected != Some(metadata.key@) {
        Err(AweError::InvalidSeed)
    } else if collector.mint != mint.key {
        Err(AweError::ConstraintViolation)
    } else {
        Ok(())
    }
}

/// The same checks at the signer's own derived metadata address.
pub open spec fn metadata_accounts_check(
    user: Signer,
    mint: MintAccount,
    metadata: MetadataAccount,
    collector: TokenAccount,
) -> Result<(), AweError> {
    metadata_accounts_check_at(
        user,
        mint,
        metadata,
        collector,
        spec_awe_metadata_address(user.key@),
    )
}

/// Checks the accounts of a metadata request against the address `expected`
/// derived for the signer.
pub fn check_metadata_accounts(
    user: &Signer,
    mint: &MintAccount,
    metadata: &MetadataAccount,
    collector: &TokenAccount,
    expected: Option<Pubkey>,
) -> (r: Result<(), AweError>)
    ensures
        r == metadata_accounts_check_at(*user, *mint, *metadata, *collector, key_view(expected)),
{
    if !user.is_signer {
        return Err(AweError::Unauthorized);
    }
    match expected {
        Some(key) => if !same_key(&key, &metadata.key) {
            return Err(AweError::InvalidSeed);
        },
        None => {
            return Err(AweError::InvalidSeed);
        },
    }
    if !same_key(&collector.mint, &mint.key) {
        return Err(AweError::ConstraintViolation);
    }
    Ok(())
}

/// The checks shared by the paid requests, given the counter address
/// `expected_creator` derived for the metadata and the user and the delegate
/// address `expected_delegate`: a signer, an existing metadata record that
/// names the mint and the collector, the counter at its address, a sender and
/// a collector of the mint, and the delegate.
pub open spec fn purchase_accounts_check_at(
    user: Signer,
    metadata: MetadataAccount,
    mint: MintAccount,
    collector: TokenAccount,
    creator: CreatorAccount,
    sender: TokenAccount,
    delegate: Pubkey,
    expected_creator: Option<Seq<u8>>,
    expected_delegate: Option<Seq<u8>>,
) -> Result<(), AweError> {
    if !user.is_signer {
        Err(AweError::Unauthorized)
    } else if metadata.data is None {
        Err(AweError::AccountNotInitialized)
    } else if metadata.data->Some_0.awe_mint_account != mint.key
        || metadata.data->Some_0.awe_collector_account != collector.key
        || collector.mint != mint.key {
        Err(AweError::ConstraintViolation)
    } else if expected_creator != Some(creator.key@) {
        Err(AweError::InvalidSeed)
    } else if sender.mint != mint.key {
        Err(AweError::ConstraintViolation)
    } else if expected_delegate != Some(delegate@) {
        Err(AweError::InvalidSeed)
    } else {
        Ok(())
    }
}

/// The same checks at the derived counter and delegate addresses.
pub open spec fn purchase_accounts_check(
    user: Signer,
    metadata: MetadataAccount,
    mint: MintAccount,
    collector: TokenAccount,
    creator: CreatorAccount,
    sender: TokenAccount,
    delegate: Pubkey,
) -> Result<(), AweError> {
    purchase_accounts_check_at(
        user,
        metadata,
        mint,
        collector,
        creator,
        sender,
        delegate,
        spec_agent_creator_address(metadata.key@, user.key@),
        spec_delegate_address(),
    )
}

/// Checks the accounts of a paid request against the derived counter address
/// `expected_creator` and delegate address `expected_delegate`.
pub fn check_purchase_accounts(
    user: &Signer,
    metadata: &MetadataAccount,
    mint: &MintAccount,
    collector: &TokenAccount,
    creator: &CreatorAccount,
    sender: &TokenAccount,
    delegate: Pubkey,
    expected_creator: Option<Pubkey>,
    expected_delegate: Option<Pubkey>,
) -> (r: Result<(), AweError>)
    ensures
        r == purchase_accounts_check_at(
            *user,
            *metadata,
            *mint,
            *collector,
            *creator,
            *sender,
            delegate,
            key_view(expected_creator),
            key_view(expected_delegate),
        ),
{
    if !user.is_signer {
        return Err(AweError::Unauthorized);
    }
    let record = match metadata.data {
        Some(record) => record,
        None => {
            return Err(AweError::AccountNotInitialized);
        },
    };
    if !same_key(&record.awe_mint_account, &mint.key) || !same_key(
        &record.awe_collector_account,
        &collector.key,
    ) || !same_key(&collector.mint, &mint.key) {
        return Err(AweError::ConstraintViolation);
    }
    match expected_creator {
        Some(key) => if !same_key(&key, &creator.key) {
            return Err(AweError::InvalidSeed);
        },
        None => {
            return Err(AweError::InvalidSeed);
        },
    }
    if !same_key(&sender.mint, &mint.key) {
        return Err(AweError::ConstraintViolation);
    }
    match expected_delegate {
        Some(key) => if !same_key(&key, &delegate) {
            return Err(AweError::InvalidSeed);
        },
        None => {
            return Err(AweError::InvalidSeed);
        },
    }
    Ok(())
}

/// The price stored in the metadata account, zero when it holds no record.
pub open spec fn price_of(metadata: MetadataAccount) -> u64 {
    match metadata.data {
        Some(record) => record.agent_price,
        None => 0,
    }
}

/// The record that the metadata requests store.
pub open spec fn record_of(mint: MintAccount, collector: TokenAccount, price: u64) -> AweMetadata {
    AweMetadata {
        awe_mint_account: mint.key,
        awe_collector_account: collector.key,
        agent_price: price,
    }
}

impl InitAweMetadata {
    /// Why these accounts cannot create a record, if they cannot.
    pub open spec fn accounts_check(self) -> Result<(), AweError> {
        match metadata_accounts_check(
            self.user,
            self.awe_mint_account,
            self.awe_metadata_account,
            self.awe_collector_account,
        ) {
            Err(e) => Err(e),
            Ok(()) => if self.awe_metadata_account.data is Some {
                Err(AweError::AllocationFailed)
            } else {
                Ok(())
            },
        }
    }
}

impl UpdateAweMetadata {
    /// Why these accounts cannot overwrite the record, if they cannot.
    pub open spec fn accounts_check(self) -> Result<(), AweError> {
        match metadata_accounts_check(
            self.user,
            self.awe_mint_account,
            self.awe_metadata_account,
            self.awe_collector_account,
        ) {
            Err(e) => Err(e),
            Ok(()) => if self.awe_metadata_account.data is None {
                Err(AweError::AccountNotInitialized)
            } else {
                Ok(())
            },
        }
    }

    /// The accounts after a successful overwrite with `price`.
    pub open spec fn updated(self, price: u64) -> Self {
        UpdateAweMetadata {
            awe_metadata_account: MetadataAccount {
                data: Some(record_of(self.awe_mint_account, self.awe_collector_account, price)),
                ..self.awe_metadata_account
            },
            ..self
        }
    }

    /// What an overwrite with `price` returns, and the accounts it leaves.
    pub open spec fn outcome(self, price: u64) -> (Result<(), AweError>, Self) {
        match self.accounts_check() {
            Ok(()) => (Ok(()), self.updated(price)),
            Err(e) => (Err(e), self),
        }
    }
}

/// The transfer of `price` from `sender` to `collector`, signed by the
/// delegate with the mint's own decimals, is accepted.
pub open spec fn payment_allowed(
    sender: TokenAccount,
    collector: TokenAccount,
    mint: MintAccount,
    delegate: Pubkey,
    price: u64,
) -> bool {
    transfer_allowed(sender, collector, mint, delegate, price, mint.decimals)
}

/// `sender` after an accepted payment of `price` to `collector`.
pub open spec fn sender_after(
    sender: TokenAccount,
    collector: TokenAccount,
    delegate: Pubkey,
    price: u64,
) -> TokenAccount {
    if sender.key == collector.key {
        sender
    } else {
        debited(sender, delegate, price)
    }
}

/// `collector` after an accepted payment of `price` from `sender`.
pub open spec fn collector_after(sender: TokenAccount, collector: TokenAccount, price: u64) -> TokenAccount {
    if sender.key == collector.key {
        collector
    } else {
        credited(collector, price)
    }
}

impl InitAgentCreator {
    /// Why these accounts cannot open the counter, if they cannot.
    pub open spec fn accounts_check(self) -> Result<(), AweError> {
        match purchase_accounts_check(
            self.user,
            self.awe_metadata_account,
            self.awe_mint_account,
            self.awe_collector_account,
            self.agent_creator,
            self.awe_sender_account,
            self.delegate,
        ) {
            Err(e) => Err(e),
            Ok(()) => if self.agent_creator.data is Some {
                Err(AweError::AllocationFailed)
            } else {
                Ok(())
            },
        }
    }

    /// The accounts after the payment and the opening of the counter at one.
    pub open spec fn created(self) -> Self {
        let price = price_of(self.awe_metadata_account);
        InitAgentCreator {
            awe_sender_account: sender_after(
                self.awe_sender_account,
                self.awe_collector_account,
                self.delegate,
                price,
            ),
            awe_collector_account: collector_after(self.awe_sender_account, self.awe_collector_account, price),
            agent_creator: CreatorAccount {
                data: Some(AgentCreator { num_agents: 1 }),
                ..self.agent_creator
            },
            ..self
        }
    }

    /// What the request returns, and the accounts it leaves.
    pub open spec fn outcome(self) -> (Result<(), AweError>, Self) {
        match self.accounts_check() {
            Err(e) => (Err(e), self),
            Ok(()) => if payment_allowed(
                self.awe_sender_account,
                self.awe_collector_account,
                self.awe_mint_account,
                self.delegate,
                price_of(self.awe_metadata_account),
            ) {
                (Ok(()), self.created())
            } else {
                (Err(AweError::TransferFailed), self)
            },
        }
    }
}

/// The agent count stored in the counter account, zero when it holds nothing.
pub open spec fn count_of(creator: CreatorAccount) -> nat {
    match creator.data {
        Some(c) => c.num_agents as nat,
        None => 0,
    }
}

impl CreateAgent {
    /// Why these accounts cannot pay for one more agent, if they cannot.
    pub open spec fn accounts_check(self) -> Result<(), AweError> {
        match purchase_accounts_check(
            self.user,
            self.awe_metadata_account,
            self.awe_mint_account,
            self.awe_collector_account,
            self.agent_creator,
            self.awe_sender_account,
            self.delegate,
        ) {
            Err(e) => Err(e),
            Ok(()) => match self.agent_creator.data {
                None => Err(AweError::AccountNotInitialized),
                Some(c) => if c.num_agents == u8::MAX {
                    Err(AweError::Overflow)
                } else {
                    Ok(())
                },
            },
        }
    }

    /// The accounts after the payment and the increment of the counter.
    pub open spec fn incremented(self) -> Self {
        let price = price_of(self.awe_metadata_account);
        CreateAgent {
            awe_sender_account: sender_after(
                self.awe_sender_account,
                self.awe_collector_account,
                self.delegate,
                price,
            ),
            awe_collector_account: collector_after(self.awe_sender_account, self.awe_collector_account, price),
            agent_creator: CreatorAccount {
                data: Some(AgentCreator { num_agents: (count_of(self.agent_creator) + 1) as u8 }),
                ..self.agent_creator
            },
            ..self
        }
    }

    /// What the request returns, and the accounts it leaves.
    pub open spec fn outcome(self) -> (Result<(), AweError>, Self) {
        match self.accounts_check() {
            Err(e) => (Err(e), self),
            Ok(()) => if payment_allowed(
                self.awe_sender_account,
                self.awe_collector_account,
                self.awe_mint_account,
                self.delegate,
                price_of(self.awe_metadata_account),
            ) {
                (Ok(()), self.incremented())
            } else {
                (Err(AweError::TransferFailed), self)
            },
        }
    }
}

/// Creates the metadata record at the signer's derived address, holding the
/// given mint, collector and price. Nothing is transferred.
pub fn init_awe_metadata(ctx: &mut InitAweMetadata, agent_price: u64) -> (r: Result<(), AweError>)
    ensures
        r == old(ctx).accounts_check(),
        r is Ok ==> final(ctx).awe_metadata_account.data == Some(
            record_of(old(ctx).awe_mint_account, old(ctx).awe_collector_account, agent_price),
        ),
        r is Ok ==> spec_awe_metadata_address(old(ctx).user.key@) == Some(
            final(ctx).awe_metadata_account.key@,
        ),
        r is Ok ==> *final(ctx) == (InitAweMetadata {
            awe_metadata_account: MetadataAccount {
                data: Some(
                    record_of(old(ctx).awe_mint_account, old(ctx).awe_collector_account, agent_price),
                ),
                ..old(ctx).awe_metadata_account
            },
            ..*old(ctx)
        }),
        r is Err ==> *final(ctx) == *old(ctx),
{
    let expected = awe_metadata_address(&ctx.user.key);
    check_metadata_accounts(
        &ctx.user,
        &ctx.awe_mint_account,
        &ctx.awe_metadata_account,
        &ctx.awe_collector_account,
        expected,
    )?;
    if ctx.awe_metadata_account.data.is_some() {
        return Err(AweError::AllocationFailed);
    }
    ctx.awe_metadata_account.data = Some(
        AweMetadata {
            awe_mint_account: ctx.awe_mint_account.key,
            awe_collector_account: ctx.awe_collector_account.key,
            agent_price,
        },
    );
    Ok(())
}

/// Overwrites the signer's metadata record with the given mint, collector and
/// price, all three at once.
pub fn update_awe_metadata(ctx: &mut UpdateAweMetadata, agent_price: u64) -> (r: Result<(), AweError>)
    ensures
        (r, *final(ctx)) == old(ctx).outcome(agent_price),
        r is Ok ==> final(ctx).awe_metadata_account.data == Some(
            record_of(old(ctx).awe_mint_account, old(ctx).awe_collector_account, agent_price),
        ),
        r is Err ==> *final(ctx) == *old(ctx),
{
    let expected = awe_metadata_address(&ctx.user.key);
    check_metadata_accounts(
        &ctx.user,
        &ctx.awe_mint_account,
        &ctx.awe_metadata_account,
        &ctx.awe_collector_account,
        expected,
    )?;
    if ctx.awe_metadata_account.data.is_none() {
        return Err(AweError::AccountNotInitialized);
    }
    ctx.awe_metadata_account.data = Some(
        AweMetadata {
            awe_mint_account: ctx.awe_mint_account.key,
            awe_collector_account: ctx.awe_collector_account.key,
            agent_price,
        },
    );
    Ok(())
}

/// Takes the metadata's price from the sender to the collector under the
/// delegate's signature, then opens the user's counter at one.
pub fn init_agent_creator(ctx: &mut InitAgentCreator) -> (r: Result<(), AweError>)
    ensures
        (r, *final(ctx)) == old(ctx).outcome(),
        r is Ok ==> final(ctx).agent_creator.data == Some(AgentCreator { num_agents: 1 }),
        r is Ok && old(ctx).awe_sender_account.key != old(ctx).awe_collector_account.key ==> {
            &&& final(ctx).awe_collector_account.amount == old(ctx).awe_collector_account.amount
                + price_of(old(ctx).awe_metadata_account)
            &&& final(ctx).awe_sender_account.amount == old(ctx).awe_sender_account.amount
                - price_of(old(ctx).awe_metadata_account)
        },
        old(ctx).accounts_check() is Ok && !payment_allowed(
            old(ctx).awe_sender_account,
            old(ctx).awe_collector_account,
            old(ctx).awe_mint_account,
            old(ctx).delegate,
            price_of(old(ctx).awe_metadata_account),
        ) ==> r == Err::<(), AweError>(AweError::TransferFailed),
        r is Err ==> *final(ctx) == *old(ctx),
{
    let expected_creator = agent_creator_address(&ctx.awe_metadata_account.key, &ctx.user.key);
    let expected_delegate = delegate_address();
    check_purchase_accounts(
        &ctx.user,
        &ctx.awe_metadata_account,
        &ctx.awe_mint_account,
        &ctx.awe_collector_account,
        &ctx.agent_creator,
        &ctx.awe_sender_account,
        ctx.delegate,
        expected_creator,
        expected_delegate,
    )?;
    if ctx.agent_creator.data.is_some() {
        return Err(AweError::AllocationFailed);
    }
    let price = match ctx.awe_metadata_account.data {
        Some(record) => record.agent_price,
        None => 0,
    };
    let decimals = ctx.awe_mint_account.decimals;
    let authority = ctx.delegate;
    transfer_checked(
        &mut ctx.awe_sender_account,
        &mut ctx.awe_collector_account,
        &ctx.awe_mint_account,
        authority,
        price,
        decimals,
    )?;
    ctx.agent_creator.data = Some(AgentCreator { num_agents: 1 });
    Ok(())
}

/// Takes the metadata's price from the sender to the collector under the
/// delegate's signature, then adds one to the user's existing counter. A
/// counter at its largest value is refused before any payment.
pub fn create_agent(ctx: &mut CreateAgent) -> (r: Result<(), AweError>)
    ensures
        (r, *final(ctx)) == old(ctx).outcome(),
        r is Ok ==> count_of(final(ctx).agent_creator) == count_of(old(ctx).agent_creator) + 1,
        r is Ok && old(ctx).awe_sender_account.key != old(ctx).awe_collector_account.key ==> {
            &&& final(ctx).awe_collector_account.amount == old(ctx).awe_collector_account.amount
                + price_of(old(ctx).awe_metadata_account)
            &&& final(ctx).awe_sender_account.amount == old(ctx).awe_sender_account.amount
                - price_of(old(ctx).awe_metadata_account)
        },
        old(ctx).agent_creator.data is None ==> r is Err && *final(ctx) == *old(ctx),
        old(ctx).accounts_check() is Ok && !payment_allowed(
            old(ctx).awe_sender_account,
            old(ctx).awe_collector_account,
            old(ctx).awe_mint_account,
            old(ctx).delegate,
            price_of(old(ctx).awe_metadata_account),
        ) ==> r == Err::<(), AweError>(AweError::TransferFailed),
        r is Err ==> *final(ctx) == *old(ctx),
{
    let expected_creator = agent_creator_address(&ctx.awe_metadata_account.key, &ctx.user.key);
    let expected_delegate = delegate_address();
    check_purchase_accounts(
        &ctx.user,
        &ctx.awe_metadata_account,
        &ctx.awe_mint_account,
        &ctx.awe_collector_account,
        &ctx.agent_creator,
        &ctx.awe_sender_account,
        ctx.delegate,
        expected_creator,
        expected_delegate,
    )?;
    let count = match ctx.agent_creator.data {
        Some(creator) => creator.num_agents,
        None => {
            return Err(AweError::AccountNotInitialized);
        },
    };
    if count == u8::MAX {
        return Err(AweError::Overflow);
    }
    let price = match ctx.awe_metadata_account.data {
        Some(record) => record.agent_price,
        None => 0,
    };
    let decimals = ctx.awe_mint_account.decimals;
    let authority = ctx.delegate;
    transfer_checked(
        &mut ctx.awe_sender_account,
        &mut ctx.awe_collector_account,
        &ctx.awe_mint_account,
        authority,
        price,
        decimals,
    )?;
    ctx.agent_creator.data = Some(AgentCreator { num_agents: count + 1 });
    Ok(())
}

} // verus!
