use avatar_minter::{
    claim_fee, initialize_avatar, mint_nft, AvatarData, AvatarRegistry, ClaimFee, Creator,
    CustomError, Discriminant, Escrow, EscrowAccount, HostCall, InitializeAvatar,
    InitializeAvatarBumps, MintAction, MintEvent, MintFailure, MintNft, MintStage, Pubkey,
    RecordState, Signer,
    TokenMetadata,
};

fn key(byte: u8) -> Pubkey {
    Pubkey::new_from_array([byte; 32])
}

const CREATOR: u8 = 1;
const MINTER: u8 = 2;
const ESCROW: u8 = 3;
const MINT: u8 = 4;
const HOLDING: u8 = 5;
const METADATA: u8 = 6;

fn record(max_supply: u64, current_supply: u64, fee: u64, unclaimed: u64) -> AvatarData {
    AvatarData {
        uri_ipfs_hash: "QmContent".to_string(),
        creator: key(CREATOR),
        max_supply,
        current_supply,
        minting_fee_per_mint: fee,
        total_unclaimed_fees: unclaimed,
        discriminant: Discriminant::Sequential(0),
        bump: 255,
    }
}

fn begin(avatar_data: AvatarData) -> MintNft {
    MintNft::new(avatar_data, key(MINT), key(HOLDING), key(METADATA), key(MINTER), key(ESCROW))
}

fn step(ctx: &mut MintNft, event: MintEvent) -> MintAction {
    mint_nft(ctx, &"Avatar".to_string(), &"AVA".to_string(), &"ipfs://QmContent".to_string(), event)
}

/// Runs a mint with a host that does all it is asked, and collects what it was asked.
fn run(ctx: &mut MintNft) -> Vec<MintAction> {
    let mut asked = Vec::new();
    let mut action = step(ctx, MintEvent::Begin);
    loop {
        let done = matches!(action, MintAction::Complete | MintAction::Abort(_));
        asked.push(action);
        if done {
            return asked;
        }
        action = step(ctx, MintEvent::Succeeded);
    }
}

fn host_key(byte: u8) -> anchor_lang::prelude::Pubkey {
    anchor_lang::prelude::Pubkey::new_from_array([byte; 32])
}

fn transfer() -> MintAction {
    MintAction::TransferFee {
        from: key(MINTER),
        to: key(ESCROW),
        lamports: 100,
        instruction: anchor_lang::solana_program::instruction::Instruction {
            program_id: anchor_lang::solana_program::system_program::ID,
            accounts: vec![
                anchor_lang::prelude::AccountMeta::new(host_key(MINTER), true),
                anchor_lang::prelude::AccountMeta::new(host_key(ESCROW), false),
            ],
            data: vec![2, 0, 0, 0, 100, 0, 0, 0, 0, 0, 0, 0],
        },
    }
}

fn issue() -> MintAction {
    MintAction::IssueUnit { mint: key(MINT), to: key(HOLDING), authority: key(MINTER), amount: 1 }
}

fn attach(creator: Option<Creator>) -> MintAction {
    MintAction::AttachMetadata {
        metadata: key(METADATA),
        mint: key(MINT),
        authority: key(MINTER),
        data: TokenMetadata {
            name: "Avatar".to_string(),
            symbol: "AVA".to_string(),
            uri: "ipfs://QmContent".to_string(),
            seller_fee_basis_points: 0,
            creator,
        },
        is_mutable: false,
        update_authority_is_signer: true,
    }
}

fn attributed() -> Option<Creator> {
    Some(Creator { address: key(CREATOR), verified: false, share: 100 })
}

#[test]
fn new_mint_stands_at_the_start() {
    let ctx = begin(record(2, 0, 100, 0));
    assert_eq!(ctx.stage, MintStage::Start);
    assert_eq!(ctx.avatar_data, record(2, 0, 100, 0));
    assert_eq!(ctx.mint, key(MINT));
    assert_eq!(ctx.token_account, key(HOLDING));
    assert_eq!(ctx.metadata_account, key(METADATA));
    assert_eq!(ctx.payer, key(MINTER));
    assert_eq!(ctx.escrow, key(ESCROW));
}

#[test]
fn paid_mint_asks_for_fee_then_unit_then_metadata() {
    let mut ctx = begin(record(2, 0, 100, 0));
    assert_eq!(step(&mut ctx, MintEvent::Begin), transfer());
    assert_eq!(ctx.stage, MintStage::AwaitingFee);
    assert_eq!(ctx.avatar_data, record(2, 0, 100, 0));
    assert_eq!(step(&mut ctx, MintEvent::Succeeded), issue());
    assert_eq!(ctx.stage, MintStage::AwaitingUnit { unclaimed: 100 });
    assert_eq!(ctx.avatar_data, record(2, 0, 100, 0));
    assert_eq!(step(&mut ctx, MintEvent::Succeeded), attach(attributed()));
    assert_eq!(ctx.stage, MintStage::AwaitingMetadata { unclaimed: 100 });
    assert_eq!(ctx.avatar_data, record(2, 0, 100, 0));
    assert_eq!(step(&mut ctx, MintEvent::Succeeded), MintAction::Complete);
    assert_eq!(ctx.stage, MintStage::Complete);
    assert_eq!(ctx.avatar_data, record(2, 1, 100, 100));
}

#[test]
fn lifecycle_of_a_record_with_two_units() {
    let mut init = InitializeAvatar {
        registry: Some(AvatarRegistry { next_index: 0, bump: 255 }),
        avatar_data: None,
        payer: key(CREATOR),
        escrow: None,
        bumps: InitializeAvatarBumps { avatar_data: 255, escrow: 254 },
    };
    assert_eq!(initialize_avatar(&mut init, "QmContent".to_string(), 2, 100), Ok(()));
    let created = init.avatar_data.unwrap();
    assert_eq!(created, record(2, 0, 100, 0));

    // Mint #1.
    let mut first = begin(created);
    assert_eq!(run(&mut first).last(), Some(&MintAction::Complete));
    assert_eq!(first.avatar_data.current_supply, 1);
    assert_eq!(first.avatar_data.total_unclaimed_fees, 100);

    // Mint #2.
    let mut second = begin(first.avatar_data);
    assert_eq!(run(&mut second).last(), Some(&MintAction::Complete));
    assert_eq!(second.avatar_data.current_supply, 2);
    assert_eq!(second.avatar_data.total_unclaimed_fees, 200);

    // Mint #3 is past the cap.
    let mut third = begin(second.avatar_data);
    assert_eq!(
        run(&mut third),
        vec![MintAction::Abort(MintFailure::Rejected(CustomError::MaxSupplyReached))]
    );
    assert_eq!(third.avatar_data, record(2, 2, 100, 200));

    // The creator withdraws.
    let mut claim = ClaimFee {
        avatar_data: third.avatar_data,
        creator: Signer { key: key(CREATOR), lamports: 1_000 },
        escrow: EscrowAccount { key: key(ESCROW), lamports: 200, data: Escrow { bump: 254 } },
    };
    assert_eq!(claim_fee(&mut claim), Ok(()));
    assert_eq!(claim.avatar_data.total_unclaimed_fees, 0);
    assert_eq!(claim.creator.lamports, 1_200);
    assert_eq!(claim.escrow.lamports, 0);
    assert_eq!(claim.avatar_data.current_supply, 2);

    // Nothing is left for a second withdrawal.
    let before = claim.clone();
    assert_eq!(claim_fee(&mut claim), Err(CustomError::NoFeesToClaim));
    assert_eq!(claim, before);
}

#[test]
fn free_mint_moves_no_value() {
    let mut ctx = begin(record(3, 0, 0, 0));
    assert_eq!(run(&mut ctx), vec![issue(), attach(attributed()), MintAction::Complete]);
    assert_eq!(ctx.avatar_data, record(3, 1, 0, 0));
}

#[test]
fn free_record_mints_up_to_its_cap_and_is_owed_nothing() {
    let mut current = record(3, 0, 0, 0);
    for minted in 1..=3u64 {
        let mut ctx = begin(current);
        let asked = run(&mut ctx);
        assert!(asked.iter().all(|action| !matches!(action, MintAction::TransferFee { .. })));
        assert_eq!(asked.last(), Some(&MintAction::Complete));
        assert_eq!(ctx.avatar_data.current_supply, minted);
        assert_eq!(ctx.avatar_data.total_unclaimed_fees, 0);
        current = ctx.avatar_data;
    }
    let mut ctx = begin(current);
    assert_eq!(
        step(&mut ctx, MintEvent::Begin),
        MintAction::Abort(MintFailure::Rejected(CustomError::MaxSupplyReached))
    );
    assert_eq!(ctx.avatar_data, record(3, 3, 0, 0));
}

#[test]
fn fees_add_up_over_mints() {
    let mut current = record(10, 0, 7, 0);
    for minted in 1..=5u64 {
        let mut ctx = begin(current);
        assert_eq!(run(&mut ctx).last(), Some(&MintAction::Complete));
        assert_eq!(ctx.avatar_data.total_unclaimed_fees, minted * 7);
        assert_eq!(ctx.avatar_data.current_supply, minted);
        current = ctx.avatar_data;
    }
}

#[test]
fn record_without_units_is_never_mintable() {
    let mut ctx = begin(record(0, 0, 100, 0));
    assert_eq!(
        step(&mut ctx, MintEvent::Begin),
        MintAction::Abort(MintFailure::Rejected(CustomError::MaxSupplyReached))
    );
    assert_eq!(ctx.stage, MintStage::Aborted(MintFailure::Rejected(CustomError::MaxSupplyReached)));
    assert_eq!(ctx.avatar_data, record(0, 0, 100, 0));
}

#[test]
fn record_past_its_cap_is_refused_too() {
    let mut ctx = begin(record(2, 5, 100, 0));
    assert_eq!(
        step(&mut ctx, MintEvent::Begin),
        MintAction::Abort(MintFailure::Rejected(CustomError::MaxSupplyReached))
    );
    assert_eq!(ctx.avatar_data, record(2, 5, 100, 0));
}

#[test]
fn failed_fee_transfer_leaves_the_record_and_issues_nothing() {
    let mut ctx = begin(record(2, 1, 100, 100));
    assert_eq!(step(&mut ctx, MintEvent::Begin), transfer());
    let abort = MintAction::Abort(MintFailure::Host(HostCall::FeeTransfer));
    assert_eq!(step(&mut ctx, MintEvent::Failed), abort);
    assert_eq!(ctx.avatar_data, record(2, 1, 100, 100));
    assert_eq!(ctx.stage, MintStage::Aborted(MintFailure::Host(HostCall::FeeTransfer)));
    // Whatever is reported afterwards, the mint stays given up.
    assert_eq!(step(&mut ctx, MintEvent::Succeeded), abort);
    assert_eq!(step(&mut ctx, MintEvent::Begin), abort);
    assert_eq!(step(&mut ctx, MintEvent::Failed), abort);
    assert_eq!(ctx.avatar_data, record(2, 1, 100, 100));
}

#[test]
fn failed_issuance_leaves_the_record() {
    let mut ctx = begin(record(2, 1, 100, 100));
    step(&mut ctx, MintEvent::Begin);
    step(&mut ctx, MintEvent::Succeeded);
    assert_eq!(
        step(&mut ctx, MintEvent::Failed),
        MintAction::Abort(MintFailure::Host(HostCall::Issuance))
    );
    assert_eq!(ctx.avatar_data, record(2, 1, 100, 100));
}

#[test]
fn failed_metadata_attachment_leaves_the_record() {
    let mut ctx = begin(record(2, 1, 100, 100));
    step(&mut ctx, MintEvent::Begin);
    step(&mut ctx, MintEvent::Succeeded);
    step(&mut ctx, MintEvent::Succeeded);
    assert_eq!(
        step(&mut ctx, MintEvent::Failed),
        MintAction::Abort(MintFailure::Host(HostCall::MetadataAttachment))
    );
    assert_eq!(ctx.avatar_data, record(2, 1, 100, 100));
    assert_eq!(step(&mut ctx, MintEvent::Succeeded), MintAction::Abort(MintFailure::Host(HostCall::MetadataAttachment)));
}

#[test]
fn fee_that_does_not_fit_aborts_after_the_transfer() {
    let mut ctx = begin(record(2, 0, 100, u64::MAX - 99));
    assert_eq!(step(&mut ctx, MintEvent::Begin), transfer());
    assert_eq!(
        step(&mut ctx, MintEvent::Succeeded),
        MintAction::Abort(MintFailure::Rejected(CustomError::NumericalOverflow))
    );
    assert_eq!(ctx.avatar_data, record(2, 0, 100, u64::MAX - 99));
}

#[test]
fn fee_that_just_fits_is_counted() {
    let mut ctx = begin(record(2, 0, 100, u64::MAX - 100));
    assert_eq!(run(&mut ctx).last(), Some(&MintAction::Complete));
    assert_eq!(ctx.avatar_data, record(2, 1, 100, u64::MAX));
}

#[test]
fn unlimited_record_mints_near_the_top() {
    let mut ctx = begin(record(u64::MAX, u64::MAX - 1, 0, 0));
    assert_eq!(run(&mut ctx).last(), Some(&MintAction::Complete));
    assert_eq!(ctx.avatar_data.current_supply, u64::MAX);
    let mut ctx = begin(ctx.avatar_data);
    assert_eq!(
        step(&mut ctx, MintEvent::Begin),
        MintAction::Abort(MintFailure::Rejected(CustomError::MaxSupplyReached))
    );
}

#[test]
fn supply_at_the_top_cannot_be_counted_further() {
    // Such a mint cannot arise from `Begin`; it is given up all the same.
    let mut ctx = begin(record(u64::MAX, u64::MAX, 0, 0));
    ctx.stage = MintStage::AwaitingMetadata { unclaimed: 0 };
    assert_eq!(
        step(&mut ctx, MintEvent::Succeeded),
        MintAction::Abort(MintFailure::Rejected(CustomError::NumericalOverflow))
    );
    assert_eq!(ctx.avatar_data, record(u64::MAX, u64::MAX, 0, 0));
}

#[test]
fn report_before_the_beginning_is_out_of_turn() {
    let mut ctx = begin(record(2, 0, 100, 0));
    assert_eq!(step(&mut ctx, MintEvent::Succeeded), MintAction::Abort(MintFailure::OutOfTurn));
    assert_eq!(ctx.stage, MintStage::Aborted(MintFailure::OutOfTurn));
    let mut ctx = begin(record(2, 0, 100, 0));
    assert_eq!(step(&mut ctx, MintEvent::Failed), MintAction::Abort(MintFailure::OutOfTurn));
    assert_eq!(ctx.avatar_data, record(2, 0, 100, 0));
}

#[test]
fn second_beginning_is_out_of_turn() {
    for reports in 0..3 {
        let mut ctx = begin(record(2, 0, 100, 0));
        step(&mut ctx, MintEvent::Begin);
        for _ in 0..reports {
            step(&mut ctx, MintEvent::Succeeded);
        }
        assert_eq!(step(&mut ctx, MintEvent::Begin), MintAction::Abort(MintFailure::OutOfTurn));
        assert_eq!(ctx.avatar_data, record(2, 0, 100, 0));
    }
}

#[test]
fn completed_mint_stays_complete() {
    let mut ctx = begin(record(2, 0, 100, 0));
    run(&mut ctx);
    let done = ctx.clone();
    assert_eq!(step(&mut ctx, MintEvent::Begin), MintAction::Complete);
    assert_eq!(step(&mut ctx, MintEvent::Succeeded), MintAction::Complete);
    assert_eq!(step(&mut ctx, MintEvent::Failed), MintAction::Complete);
    assert_eq!(ctx, done);
}

#[test]
fn record_without_creator_attributes_no_one() {
    let mut avatar_data = record(2, 0, 0, 0);
    avatar_data.creator = Pubkey::default();
    let mut ctx = begin(avatar_data);
    assert_eq!(run(&mut ctx), vec![issue(), attach(None), MintAction::Complete]);
}

#[test]
fn creator_with_one_nonzero_byte_is_attributed() {
    let mut bytes = [0u8; 32];
    bytes[31] = 1;
    let mut avatar_data = record(2, 0, 0, 0);
    avatar_data.creator = Pubkey::new_from_array(bytes);
    let mut ctx = begin(avatar_data);
    let expected = Some(Creator {
        address: Pubkey::new_from_array(bytes),
        verified: false,
        share: 100,
    });
    assert_eq!(run(&mut ctx), vec![issue(), attach(expected), MintAction::Complete]);
}

#[test]
fn mints_and_withdrawals_keep_the_books() {
    let mut current = record(5, 0, 30, 0);
    let mut collected = 0u64;
    let mut claimed = 0u64;
    let mut escrowed = 0u64;
    let mut balance = 10u64;
    // mint, mint, claim, failed mint, mint, claim by a stranger, claim
    for round in 0..7 {
        match round {
            0 | 1 | 4 => {
                let mut ctx = begin(current);
                assert_eq!(run(&mut ctx).last(), Some(&MintAction::Complete));
                collected += 30;
                escrowed += 30;
                current = ctx.avatar_data;
            }
            3 => {
                let mut ctx = begin(current);
                step(&mut ctx, MintEvent::Begin);
                step(&mut ctx, MintEvent::Succeeded);
                step(&mut ctx, MintEvent::Failed);
                current = ctx.avatar_data;
            }
            _ => {
                let claimant = if round == 5 { MINTER } else { CREATOR };
                let mut ctx = ClaimFee {
                    avatar_data: current,
                    creator: Signer { key: key(claimant), lamports: balance },
                    escrow: EscrowAccount {
                        key: key(ESCROW),
                        lamports: escrowed,
                        data: Escrow { bump: 254 },
                    },
                };
                let owed = ctx.avatar_data.total_unclaimed_fees;
                if claim_fee(&mut ctx).is_ok() {
                    claimed += owed;
                    balance = ctx.creator.lamports;
                    escrowed = ctx.escrow.lamports;
                }
                current = ctx.avatar_data;
            }
        }
        assert_eq!(current.total_unclaimed_fees, collected - claimed);
        assert!(current.current_supply <= current.max_supply);
        assert_eq!(escrowed, current.total_unclaimed_fees);
    }
    assert_eq!(current, record(5, 3, 30, 0));
    assert_eq!(collected, 90);
    assert_eq!(claimed, 90);
    assert_eq!(balance, 100);
}

#[test]
fn record_is_active_until_its_last_unit() {
    assert_eq!(record(2, 0, 100, 0).state(), RecordState::Active);
    assert_eq!(record(2, 1, 100, 100).state(), RecordState::Active);
    assert_eq!(record(2, 2, 100, 200).state(), RecordState::Exhausted);
    assert_eq!(record(0, 0, 100, 0).state(), RecordState::Exhausted);
    assert_eq!(record(u64::MAX, u64::MAX - 1, 0, 0).state(), RecordState::Active);
}

#[test]
fn fee_instruction_moves_the_fee_from_payer_to_escrow() {
    let mut ctx = begin(record(2, 0, 0x0102_0304_0506_0708, 0));
    let MintAction::TransferFee { from, to, lamports, instruction } =
        step(&mut ctx, MintEvent::Begin)
    else {
        panic!("a record with a fee begins with the fee transfer");
    };
    assert_eq!(from, key(MINTER));
    assert_eq!(to, key(ESCROW));
    assert_eq!(lamports, 0x0102_0304_0506_0708);
    // An instruction for the system program, whose key is all zero.
    assert_eq!(instruction.program_id.to_bytes(), [0u8; 32]);
    assert_eq!(instruction.accounts.len(), 2);
    assert_eq!(instruction.accounts[0].pubkey, host_key(MINTER));
    assert!(instruction.accounts[0].is_signer);
    assert!(instruction.accounts[0].is_writable);
    assert_eq!(instruction.accounts[1].pubkey, host_key(ESCROW));
    assert!(!instruction.accounts[1].is_signer);
    assert!(instruction.accounts[1].is_writable);
    // Transfer is the third of the system program's instructions; the amount
    // follows in little-endian order.
    assert_eq!(instruction.data, vec![2, 0, 0, 0, 8, 7, 6, 5, 4, 3, 2, 1]);
}
