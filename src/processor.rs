use vstd::prelude::*;
use crate::address::Address;
use crate::derivation::{
    extra_account_metas_address, extra_account_metas_seeds, mint_authority_address,
    mint_authority_seed_list, mint_authority_seeds, mint_authority_tag, mint_authority_tag_bytes,
    program_address_of, program_address_search, seeds_with_bump, with_bump, SignerProof,
};
use crate::error::HookError;
use crate::instruction::{decode_execute, execute_amount};
use crate::meta_list::{
    descriptor_wf, encode_meta_list, HEADER_LEN, encodes, meta_list_bytes, views, AccountDescriptor,
    DescriptorView,
};
use crate::state::{MintAccount, MintRequest, SystemAccount, TokenAccount};

verus! {

/// Whether a search found exactly the address `a`.
pub open spec fn found_at(r: Option<(Seq<u8>, u8)>, a: Seq<u8>) -> bool {
    r matches Some((x, _)) && x == a
}

/// The extra accounts of every hook invocation, in their registered order.
pub open spec fn expected_descriptors(
    token_program: Seq<u8>,
    counter_mint: Seq<u8>,
    counter_token_account: Seq<u8>,
) -> Seq<DescriptorView> {
    seq![
        DescriptorView::Fixed { address: token_program, is_signer: false, is_writable: false },
        DescriptorView::Fixed { address: counter_mint, is_signer: false, is_writable: true },
        DescriptorView::Seeded { seed: mint_authority_tag(), is_signer: false, is_writable: false },
        DescriptorView::Fixed { address: counter_token_account, is_signer: false, is_writable: true },
    ]
}

/// Builds the descriptor list: the token program, the counter mint (writable), the mint
/// authority derived from its seed, and the owner's counter account (writable).
pub fn extra_account_metas(
    token_program: &Address,
    counter_mint: &Address,
    counter_token_account: &Address,
) -> (r: Vec<AccountDescriptor>)
    ensures
        views(r@) == expected_descriptors(token_program@, counter_mint@, counter_token_account@),
        r@.len() == 4,
{
    let mut r: Vec<AccountDescriptor> = Vec::new();
    r.push(AccountDescriptor::Fixed { address: *token_program, is_signer: false, is_writable: false });
    r.push(AccountDescriptor::Fixed { address: *counter_mint, is_signer: false, is_writable: true });
    r.push(
        AccountDescriptor::Seeded {
            seed: mint_authority_tag_bytes(),
            is_signer: false,
            is_writable: false,
        },
    );
    r.push(
        AccountDescriptor::Fixed {
            address: *counter_token_account,
            is_signer: false,
            is_writable: true,
        },
    );
    assert(views(r@) =~= expected_descriptors(
        token_program@,
        counter_mint@,
        counter_token_account@,
    ));
    r
}

/// Accounts of the registration call.
#[derive(Debug)]
pub struct InitializeExtraAccountMetaList {
    pub payer: SystemAccount,
    pub extra_account_meta_list: SystemAccount,
    pub mint: Address,
    pub token_program: Address,
    pub counter_mint: MintAccount,
    pub mint_authority: Address,
    pub counter_token_account: Address,
}

impl InitializeExtraAccountMetaList {
    /// How registration ends, checked in this order: the list's address, accounts that
    /// already exist, the mint authority's address, the payer's funds for both new accounts.
    pub open spec fn outcome(&self, program: Seq<u8>, list_rent: u64, mint_rent: u64) -> Result<
        (),
        HookError,
    > {
        if !found_at(
            program_address_search(extra_account_metas_seeds(self.mint@), program),
            self.extra_account_meta_list.key@,
        ) {
            Err(HookError::AddressMismatch)
        } else if self.extra_account_meta_list.in_use() || self.counter_mint.is_initialized
            || self.counter_mint.lamports != 0 {
            Err(HookError::AccountInUse)
        } else if !found_at(
            program_address_search(mint_authority_seeds(), program),
            self.mint_authority@,
        ) {
            Err(HookError::AddressMismatch)
        } else if self.payer.lamports < list_rent + mint_rent {
            Err(HookError::InsufficientFunds)
        } else {
            Ok(())
        }
    }

    /// The accounts after a successful registration: the payer funds the list and the
    /// counter mint; the list is owned by this program and holds the encoded descriptors;
    /// the counter mint exists with no decimals and the mint authority as its authority.
    pub open spec fn registered(&self, post: &Self, program: Seq<u8>, list_rent: u64, mint_rent: u64) -> bool {
        &&& post.payer.key == self.payer.key
        &&& post.payer.owner == self.payer.owner
        &&& post.payer.data == self.payer.data
        &&& post.payer.lamports == self.payer.lamports - list_rent - mint_rent
        &&& post.extra_account_meta_list.key == self.extra_account_meta_list.key
        &&& post.extra_account_meta_list.owner@ == program
        &&& post.extra_account_meta_list.lamports == list_rent
        &&& post.extra_account_meta_list.data@ == meta_list_bytes(
            expected_descriptors(
                self.token_program@,
                self.counter_mint.key@,
                self.counter_token_account@,
            ),
        )
        &&& post.mint == self.mint
        &&& post.token_program == self.token_program
        &&& post.mint_authority == self.mint_authority
        &&& post.counter_token_account == self.counter_token_account
        &&& post.counter_mint.key == self.counter_mint.key
        &&& post.counter_mint.lamports == mint_rent
        &&& post.counter_mint.is_initialized
        &&& post.counter_mint.supply == 0
        &&& post.counter_mint.decimals == 0
        &&& post.counter_mint.mint_authority == self.mint_authority
    }
}

/// Registers the extra accounts of `ctx.mint`: creates the list account at its derived
/// address, funded with `list_rent` by the payer, and creates the counter mint, funded
/// with `mint_rent`.
/// The counter mint's authority is the address that the mint authority's seed and bump
/// give under this program, which is what every hook invocation checks.
pub fn initialize_extra_account_meta_list(
    ctx: &mut InitializeExtraAccountMetaList,
    program_id: &Address,
    list_rent: u64,
    mint_rent: u64,
) -> (r: Result<(), HookError>)
    ensures
        r == old(ctx).outcome(program_id@, list_rent, mint_rent),
        r is Err ==> *final(ctx) == *old(ctx),
        r is Ok ==> old(ctx).registered(final(ctx), program_id@, list_rent, mint_rent),
        r is Ok ==> exists|bump: u8|
            program_address_search(mint_authority_seeds(), program_id@) == Some(
                (final(ctx).counter_mint.mint_authority@, bump),
            ) && program_address_of(with_bump(mint_authority_seeds(), bump), program_id@) == Some(
                final(ctx).counter_mint.mint_authority@,
            ),
{
    match extra_account_metas_address(&ctx.mint, program_id) {
        Some((list, _)) => {
            if !list.same_as(&ctx.extra_account_meta_list.key) {
                return Err(HookError::AddressMismatch);
            }
        },
        None => {
            return Err(HookError::AddressMismatch);
        },
    }
    if ctx.extra_account_meta_list.is_in_use() || ctx.counter_mint.is_initialized
        || ctx.counter_mint.lamports != 0 {
        return Err(HookError::AccountInUse);
    }
    let authority_bump: u8;
    match mint_authority_address(program_id) {
        Some((authority, bump)) => {
            if !authority.same_as(&ctx.mint_authority) {
                return Err(HookError::AddressMismatch);
            }
            authority_bump = bump;
        },
        None => {
            return Err(HookError::AddressMismatch);
        },
    }
    if ctx.payer.lamports < list_rent || ctx.payer.lamports - list_rent < mint_rent {
        return Err(HookError::InsufficientFunds);
    }
    let descriptors = extra_account_metas(
        &ctx.token_program,
        &ctx.counter_mint.key,
        &ctx.counter_token_account,
    );
    let data = encode_meta_list(&descriptors);
    ctx.payer.lamports = ctx.payer.lamports - list_rent - mint_rent;
    ctx.extra_account_meta_list.lamports = list_rent;
    ctx.extra_account_meta_list.owner = *program_id;
    ctx.extra_account_meta_list.data = data;
    ctx.counter_mint = MintAccount {
        key: ctx.counter_mint.key,
        lamports: mint_rent,
        is_initialized: true,
        supply: 0,
        decimals: 0,
        mint_authority: ctx.mint_authority,
    };
    assert(program_address_of(with_bump(mint_authority_seeds(), authority_bump), program_id@)
        == Some(ctx.counter_mint.mint_authority@));
    Ok(())
}

/// Registration happens once: after it succeeded, any later registration for the same
/// governed mint, over the list account as it was left, fails because that account already
/// exists, whatever other accounts and rents it is given.
pub proof fn lemma_registration_exactly_once(
    pre: InitializeExtraAccountMetaList,
    post: InitializeExtraAccountMetaList,
    again: InitializeExtraAccountMetaList,
    program: Seq<u8>,
    list_rent: u64,
    mint_rent: u64,
    list_rent_again: u64,
    mint_rent_again: u64,
)
    requires
        pre.outcome(program, list_rent, mint_rent) is Ok,
        pre.registered(&post, program, list_rent, mint_rent),
        again.mint == post.mint,
        again.extra_account_meta_list == post.extra_account_meta_list,
    ensures
        again.outcome(program, list_rent_again, mint_rent_again) == Err::<(), HookError>(
            HookError::AccountInUse,
        ),
{
    assert(post.extra_account_meta_list.data@.len() >= HEADER_LEN);
    assert(again.extra_account_meta_list.in_use());
}

/// The stored list of a registration decodes to four descriptors, in this order: the token
/// program, the counter mint (writable), the mint authority derived from its seed
/// (read-only, not a signer), the owner's counter account (writable).
pub proof fn lemma_registered_list_order(
    pre: InitializeExtraAccountMetaList,
    post: InitializeExtraAccountMetaList,
    program: Seq<u8>,
    list_rent: u64,
    mint_rent: u64,
)
    requires
        pre.outcome(program, list_rent, mint_rent) is Ok,
        pre.registered(&post, program, list_rent, mint_rent),
    ensures
        exists|ds: Seq<DescriptorView>|
            #![trigger encodes(ds, post.extra_account_meta_list.data@)]
            {
                &&& encodes(ds, post.extra_account_meta_list.data@)
                &&& ds.len() == 4
                &&& ds[0] == DescriptorView::Fixed {
                    address: pre.token_program@,
                    is_signer: false,
                    is_writable: false,
                }
                &&& ds[1] == DescriptorView::Fixed {
                    address: post.counter_mint.key@,
                    is_signer: false,
                    is_writable: true,
                }
                &&& ds[2] == DescriptorView::Seeded {
                    seed: mint_authority_tag(),
                    is_signer: false,
                    is_writable: false,
                }
                &&& ds[3] == DescriptorView::Fixed {
                    address: post.counter_token_account@,
                    is_signer: false,
                    is_writable: true,
                }
            },
{
    let ds = expected_descriptors(
        pre.token_program@,
        pre.counter_mint.key@,
        pre.counter_token_account@,
    );
    assert(post.extra_account_meta_list.data@ == meta_list_bytes(ds));
    assert(descriptor_wf(ds[0]) && descriptor_wf(ds[1]) && descriptor_wf(ds[2]) && descriptor_wf(ds[3]));
    assert(encodes(ds, post.extra_account_meta_list.data@));
}

/// Re-deriving the mint authority at execution time, from the same seed under the same
/// program, finds the authority that registration gave the counter mint.
pub proof fn lemma_mint_authority_rederivation(
    pre: InitializeExtraAccountMetaList,
    post: InitializeExtraAccountMetaList,
    program: Seq<u8>,
    list_rent: u64,
    mint_rent: u64,
    rederived: Option<(Seq<u8>, u8)>,
)
    requires
        pre.outcome(program, list_rent, mint_rent) is Ok,
        pre.registered(&post, program, list_rent, mint_rent),
        rederived == program_address_search(mint_authority_seeds(), program),
    ensures
        found_at(rederived, post.counter_mint.mint_authority@),
{
}

/// A hook invocation whose mint authority is not the address that the mint-authority seed
/// and the given bump derive fails with an authorization failure, before anything changes.
pub proof fn lemma_wrong_authority_rejected(ctx: TransferHook, program: Seq<u8>)
    requires
        ctx.source_token.mint@ == ctx.mint@,
        ctx.source_token.owner@ == ctx.owner@,
        ctx.destination_token.mint@ == ctx.mint@,
        found_at(
            program_address_search(extra_account_metas_seeds(ctx.mint@), program),
            ctx.extra_account_meta_list@,
        ),
        ctx.counter_token_account.owner@ == ctx.owner@,
        program_address_of(with_bump(mint_authority_seeds(), ctx.mint_authority_bump), program)
            != Some(ctx.mint_authority@),
    ensures
        ctx.outcome(program) == Err::<(), HookError>(HookError::AuthorizationFailed),
{
}

/// How minting one unit ends: the balance account must hold the mint's token, the
/// capability must sign for the mint's authority, and neither counter may overflow.
pub open spec fn mint_outcome(mint: MintAccount, destination: TokenAccount, signer: Seq<u8>) -> Result<
    (),
    HookError,
> {
    if !mint.is_initialized || destination.mint@ != mint.key@ {
        Err(HookError::InvalidAccount)
    } else if signer != mint.mint_authority@ {
        Err(HookError::AuthorizationFailed)
    } else if mint.supply == u64::MAX || destination.amount == u64::MAX {
        Err(HookError::Overflow)
    } else {
        Ok(())
    }
}

/// Mints one unit of `mint` into `destination`, signed by `authority`. Only a checked
/// derivation yields a `SignerProof`, so no path mints without one.
pub fn mint_one(mint: &mut MintAccount, destination: &mut TokenAccount, authority: &SignerProof) -> (r:
    Result<(), HookError>)
    ensures
        r == mint_outcome(*old(mint), *old(destination), authority.signer()),
        r is Err ==> *final(mint) == *old(mint) && *final(destination) == *old(destination),
        r is Ok ==> *final(mint) == (MintAccount { supply: (old(mint).supply + 1) as u64, ..*old(mint) }),
        r is Ok ==> *final(destination) == (TokenAccount {
            amount: (old(destination).amount + 1) as u64,
            ..*old(destination)
        }),
{
    if !mint.is_initialized || !destination.mint.same_as(&mint.key) {
        return Err(HookError::InvalidAccount);
    }
    let signer = authority.signer_address();
    if !signer.same_as(&mint.mint_authority) {
        return Err(HookError::AuthorizationFailed);
    }
    if mint.supply == u64::MAX || destination.amount == u64::MAX {
        return Err(HookError::Overflow);
    }
    mint.supply = mint.supply + 1;
    destination.amount = destination.amount + 1;
    Ok(())
}

/// Accounts of a hook invocation: the four transfer accounts, then the registered extra
/// accounts, and the bump that proves the mint authority's address.
#[derive(Clone, Copy, Debug)]
pub struct TransferHook {
    pub source_token: TokenAccount,
    pub mint: Address,
    pub destination_token: TokenAccount,
    pub owner: Address,
    pub extra_account_meta_list: Address,
    pub token_program: Address,
    pub counter_mint: MintAccount,
    pub mint_authority: Address,
    pub mint_authority_bump: u8,
    pub counter_token_account: TokenAccount,
}

impl TransferHook {
    /// How a hook invocation ends, checked in this order: the transfer accounts, the
    /// list's address, the owner's counter account, the mint authority's derivation, then
    /// the mint itself.
    pub open spec fn outcome(&self, program: Seq<u8>) -> Result<(), HookError> {
        if self.source_token.mint@ != self.mint@ || self.source_token.owner@ != self.owner@
            || self.destination_token.mint@ != self.mint@ {
            Err(HookError::InvalidAccount)
        } else if !found_at(
            program_address_search(extra_account_metas_seeds(self.mint@), program),
            self.extra_account_meta_list@,
        ) {
            Err(HookError::AddressMismatch)
        } else if self.counter_token_account.owner@ != self.owner@ {
            Err(HookError::InvalidAccount)
        } else if program_address_of(
            with_bump(mint_authority_seeds(), self.mint_authority_bump),
            program,
        ) != Some(self.mint_authority@) {
            Err(HookError::AuthorizationFailed)
        } else {
            mint_outcome(self.counter_mint, self.counter_token_account, self.mint_authority@)
        }
    }

    /// The mint that a successful invocation asks of the token program: one unit of the
    /// counter mint into the owner's counter account, signed by the mint authority through
    /// the mint-authority seed and the given bump.
    pub open spec fn requests(&self, req: &MintRequest) -> bool {
        &&& req.token_program == self.token_program
        &&& req.mint == self.counter_mint.key
        &&& req.destination == self.counter_token_account.key
        &&& req.authority == self.mint_authority
        &&& req.amount == 1
        &&& req.signer_seeds.deep_view() == with_bump(mint_authority_seeds(), self.mint_authority_bump)
    }

    /// The accounts after a successful invocation: one more counter token in supply and in
    /// the owner's counter account, nothing else changed.
    pub open spec fn minted(&self) -> Self {
        TransferHook {
            counter_mint: MintAccount { supply: (self.counter_mint.supply + 1) as u64, ..self.counter_mint },
            counter_token_account: TokenAccount {
                amount: (self.counter_token_account.amount + 1) as u64,
                ..self.counter_token_account
            },
            ..*self
        }
    }
}

/// Runs the hook for one transfer: mints exactly one counter token to the owner, whatever
/// `amount` was transferred, signing with the mint authority's derivation, and returns that
/// mint for the token program to carry out.
pub fn transfer_hook(ctx: &mut TransferHook, program_id: &Address, amount: u64) -> (r: Result<
    MintRequest,
    HookError,
>)
    ensures
        r is Ok <==> old(ctx).outcome(program_id@) is Ok,
        r matches Err(e) ==> old(ctx).outcome(program_id@) == Err::<(), HookError>(e),
        r is Err ==> *final(ctx) == *old(ctx),
        r matches Ok(req) ==> old(ctx).requests(&req),
        r is Ok ==> *final(ctx) == old(ctx).minted(),
        r is Ok ==> final(ctx).counter_mint.supply == old(ctx).counter_mint.supply + 1,
        r is Ok ==> final(ctx).counter_token_account.amount == old(ctx).counter_token_account.amount + 1,
{
    if !ctx.source_token.mint.same_as(&ctx.mint) || !ctx.source_token.owner.same_as(&ctx.owner)
        || !ctx.destination_token.mint.same_as(&ctx.mint) {
        return Err(HookError::InvalidAccount);
    }
    match extra_account_metas_address(&ctx.mint, program_id) {
        Some((list, _)) => {
            if !list.same_as(&ctx.extra_account_meta_list) {
                return Err(HookError::AddressMismatch);
            }
        },
        None => {
            return Err(HookError::AddressMismatch);
        },
    }
    if !ctx.counter_token_account.owner.same_as(&ctx.owner) {
        return Err(HookError::InvalidAccount);
    }
    let proof = match SignerProof::new(
        &ctx.mint_authority,
        mint_authority_seed_list(),
        ctx.mint_authority_bump,
        program_id,
    ) {
        Some(p) => p,
        None => {
            return Err(HookError::AuthorizationFailed);
        },
    };
    match mint_one(&mut ctx.counter_mint, &mut ctx.counter_token_account, &proof) {
        Ok(()) => Ok(
            MintRequest {
                token_program: ctx.token_program,
                mint: ctx.counter_mint.key,
                destination: ctx.counter_token_account.key,
                authority: ctx.mint_authority,
                amount: 1,
                signer_seeds: seeds_with_bump(mint_authority_seed_list(), ctx.mint_authority_bump),
            },
        ),
        Err(e) => Err(e),
    }
}

/// Dispatch adapter: the interface's execute instruction runs the hook with its decoded
/// amount; any other instruction data is rejected.
pub fn fallback(program_id: &Address, ctx: &mut TransferHook, data: &[u8]) -> (r: Result<
    MintRequest,
    HookError,
>)
    ensures
        execute_amount(data@) is None ==> (r matches Err(e) && e == HookError::InvalidInstructionData),
        execute_amount(data@) is Some ==> (r is Ok <==> old(ctx).outcome(program_id@) is Ok),
        execute_amount(data@) is Some ==> (r matches Err(e) ==> old(ctx).outcome(program_id@)
            == Err::<(), HookError>(e)),
        r is Err ==> *final(ctx) == *old(ctx),
        r matches Ok(req) ==> old(ctx).requests(&req),
        r is Ok ==> *final(ctx) == old(ctx).minted(),
{
    match decode_execute(data) {
        Some(amount) => transfer_hook(ctx, program_id, amount),
        None => Err(HookError::InvalidInstructionData),
    }
}

} // verus!
