use vstd::prelude::*;
use crate::error::AweError;
use crate::program::{
    AgentCreator,
    CreateAgent,
    InitAgentCreator,
    UpdateAweMetadata,
    count_of,
    price_of,
    purchase_accounts_check,
};

verus! {

/// Overwriting a metadata record twice with the same accounts and price leaves
/// the same accounts as overwriting it once, and the second call answers as
/// the first did.
pub proof fn lemma_update_idempotent(ctx: UpdateAweMetadata, price: u64)
    ensures
        ctx.outcome(price).1.outcome(price) == ctx.outcome(price),
{
}

/// A successful opening of a counter moves exactly the price from the sender
/// to the collector, and takes the count from none to one.
pub proof fn lemma_init_creator_conserves(ctx: InitAgentCreator)
    requires
        ctx.outcome().0 is Ok,
        ctx.awe_sender_account.key != ctx.awe_collector_account.key,
    ensures
        ctx.outcome().1.awe_collector_account.amount == ctx.awe_collector_account.amount
            + price_of(ctx.awe_metadata_account),
        ctx.outcome().1.awe_sender_account.amount == ctx.awe_sender_account.amount
            - price_of(ctx.awe_metadata_account),
        count_of(ctx.outcome().1.agent_creator) == count_of(ctx.agent_creator) + 1,
{
}

/// A successful purchase of one more agent moves exactly the price from the
/// sender to the collector, and adds exactly one to the count.
pub proof fn lemma_create_agent_conserves(ctx: CreateAgent)
    requires
        ctx.outcome().0 is Ok,
        ctx.awe_sender_account.key != ctx.awe_collector_account.key,
    ensures
        ctx.outcome().1.awe_collector_account.amount == ctx.awe_collector_account.amount
            + price_of(ctx.awe_metadata_account),
        ctx.outcome().1.awe_sender_account.amount == ctx.awe_sender_account.amount
            - price_of(ctx.awe_metadata_account),
        count_of(ctx.outcome().1.agent_creator) == count_of(ctx.agent_creator) + 1,
{
}

/// Buying an agent before the user's counter exists fails and creates nothing.
pub proof fn lemma_create_agent_needs_counter(ctx: CreateAgent)
    requires
        ctx.agent_creator.data is None,
    ensures
        ctx.outcome().0 is Err,
        ctx.outcome().1 == ctx,
{
}

/// Opening the same counter a second time fails because its address is taken,
/// and the first counter keeps its value of one.
pub proof fn lemma_init_creator_twice(ctx: InitAgentCreator)
    requires
        ctx.outcome().0 is Ok,
    ensures
        ctx.outcome().1.outcome().0 == Err::<(), AweError>(AweError::AllocationFailed),
        ctx.outcome().1.outcome().1 == ctx.outcome().1,
        ctx.outcome().1.outcome().1.agent_creator.data == Some(AgentCreator { num_agents: 1 }),
{
}

/// A sender holding less than the price makes an otherwise valid opening fail
/// as a refused transfer, with every account unchanged.
pub proof fn lemma_init_creator_short_funds(ctx: InitAgentCreator)
    requires
        ctx.accounts_check() is Ok,
        ctx.awe_sender_account.amount < price_of(ctx.awe_metadata_account),
    ensures
        ctx.outcome() == (Err::<(), AweError>(AweError::TransferFailed), ctx),
{
}

/// A sender holding less than the price makes an otherwise valid purchase fail
/// as a refused transfer, with every account unchanged.
pub proof fn lemma_create_agent_short_funds(ctx: CreateAgent)
    requires
        ctx.accounts_check() is Ok,
        ctx.awe_sender_account.amount < price_of(ctx.awe_metadata_account),
    ensures
        ctx.outcome() == (Err::<(), AweError>(AweError::TransferFailed), ctx),
{
}

/// A counter at its largest value refuses the next purchase before any payment.
pub proof fn lemma_create_agent_saturated(ctx: CreateAgent)
    requires
        ctx.agent_creator.data == Some(AgentCreator { num_agents: 255 }),
    ensures
        ctx.outcome().0 is Err,
        ctx.outcome().1 == ctx,
        purchase_accounts_check(
            ctx.user,
            ctx.awe_metadata_account,
            ctx.awe_mint_account,
            ctx.awe_collector_account,
            ctx.agent_creator,
            ctx.awe_sender_account,
            ctx.delegate,
        ) is Ok ==> ctx.outcome().0 == Err::<(), AweError>(AweError::Overflow),
{
}

} // verus!
