use avatar_minter::address::content_discriminant;
use avatar_minter::{
    initialize_avatar, AvatarData, AvatarRegistry, CustomError, Discriminant, Escrow,
    InitializeAvatar, InitializeAvatarBumps, Pubkey,
};

fn key(byte: u8) -> Pubkey {
    Pubkey::new_from_array([byte; 32])
}

fn sequential(next_index: u64) -> InitializeAvatar {
    InitializeAvatar {
        registry: Some(AvatarRegistry { next_index, bump: 254 }),
        avatar_data: None,
        payer: key(1),
        escrow: None,
        bumps: InitializeAvatarBumps { avatar_data: 253, escrow: 252 },
    }
}

fn by_content() -> InitializeAvatar {
    InitializeAvatar {
        registry: None,
        avatar_data: None,
        payer: key(1),
        escrow: None,
        bumps: InitializeAvatarBumps { avatar_data: 251, escrow: 250 },
    }
}

#[test]
fn registration_fills_every_field() {
    let mut ctx = sequential(7);
    let outcome = initialize_avatar(&mut ctx, "QmContent".to_string(), 2, 100);
    assert_eq!(outcome, Ok(()));
    assert_eq!(
        ctx.avatar_data,
        Some(AvatarData {
            uri_ipfs_hash: "QmContent".to_string(),
            creator: key(1),
            max_supply: 2,
            current_supply: 0,
            minting_fee_per_mint: 100,
            total_unclaimed_fees: 0,
            discriminant: Discriminant::Sequential(7),
            bump: 253,
        })
    );
    assert_eq!(ctx.escrow, Some(Escrow { bump: 252 }));
    assert_eq!(ctx.registry, Some(AvatarRegistry { next_index: 8, bump: 254 }));
    assert_eq!(ctx.payer, key(1));
}

#[test]
fn registry_hands_out_the_current_index_then_advances() {
    let mut registry = AvatarRegistry { next_index: 41, bump: 9 };
    assert_eq!(registry.allocate_index(), Ok(41));
    assert_eq!(registry.allocate_index(), Ok(42));
    assert_eq!(registry, AvatarRegistry { next_index: 43, bump: 9 });
}

#[test]
fn registry_at_its_last_index_overflows_and_stays() {
    let mut registry = AvatarRegistry { next_index: u64::MAX, bump: 9 };
    assert_eq!(registry.allocate_index(), Err(CustomError::NumericalOverflow));
    assert_eq!(registry, AvatarRegistry { next_index: u64::MAX, bump: 9 });
    let mut below = AvatarRegistry { next_index: u64::MAX - 1, bump: 9 };
    assert_eq!(below.allocate_index(), Ok(u64::MAX - 1));
    assert_eq!(below.next_index, u64::MAX);
}

#[test]
fn successive_registrations_get_successive_indices() {
    let mut ctx = sequential(0);
    assert_eq!(initialize_avatar(&mut ctx, "same".to_string(), 1, 0), Ok(()));
    let first = ctx.avatar_data.take().unwrap();
    ctx.escrow = None;
    assert_eq!(initialize_avatar(&mut ctx, "same".to_string(), 1, 0), Ok(()));
    let second = ctx.avatar_data.take().unwrap();
    assert_eq!(first.discriminant, Discriminant::Sequential(0));
    assert_eq!(second.discriminant, Discriminant::Sequential(1));
    assert_eq!(ctx.registry.unwrap().next_index, 2);
}

#[test]
fn zero_cap_is_accepted() {
    let mut ctx = sequential(0);
    assert_eq!(initialize_avatar(&mut ctx, "Qm".to_string(), 0, 5), Ok(()));
    let record = ctx.avatar_data.unwrap();
    assert_eq!(record.max_supply, 0);
    assert_eq!(record.current_supply, 0);
}

#[test]
fn empty_content_reference_is_refused() {
    let mut ctx = sequential(3);
    let before = ctx.clone();
    assert_eq!(
        initialize_avatar(&mut ctx, String::new(), 2, 100),
        Err(CustomError::InvalidIpfsHashLength)
    );
    assert_eq!(ctx, before);
}

#[test]
fn content_reference_of_64_bytes_is_the_longest_accepted() {
    let mut ctx = sequential(3);
    assert_eq!(initialize_avatar(&mut ctx, "a".repeat(64), 2, 100), Ok(()));
    let mut ctx = sequential(3);
    let before = ctx.clone();
    assert_eq!(
        initialize_avatar(&mut ctx, "a".repeat(65), 2, 100),
        Err(CustomError::InvalidIpfsHashLength)
    );
    assert_eq!(ctx, before);
    let mut ctx = sequential(3);
    assert_eq!(initialize_avatar(&mut ctx, "a".to_string(), 2, 100), Ok(()));
}

#[test]
fn content_reference_is_measured_in_bytes() {
    // 22 characters of three bytes each: 66 bytes.
    let mut ctx = sequential(3);
    assert_eq!(
        initialize_avatar(&mut ctx, "\u{20ac}".repeat(22), 2, 100),
        Err(CustomError::InvalidIpfsHashLength)
    );
    // 21 of them: 63 bytes.
    let mut ctx = sequential(3);
    assert_eq!(initialize_avatar(&mut ctx, "\u{20ac}".repeat(21), 2, 100), Ok(()));
}

#[test]
fn exhausted_registry_refuses_registration() {
    let mut ctx = sequential(u64::MAX);
    let before = ctx.clone();
    assert_eq!(
        initialize_avatar(&mut ctx, "Qm".to_string(), 2, 100),
        Err(CustomError::NumericalOverflow)
    );
    assert_eq!(ctx, before);
}

#[test]
fn exhausted_registry_is_reported_before_a_bad_length() {
    let mut ctx = sequential(u64::MAX);
    assert_eq!(
        initialize_avatar(&mut ctx, String::new(), 2, 100),
        Err(CustomError::NumericalOverflow)
    );
}

#[test]
fn refused_length_gives_the_index_back() {
    let mut ctx = sequential(5);
    assert_eq!(
        initialize_avatar(&mut ctx, String::new(), 2, 100),
        Err(CustomError::InvalidIpfsHashLength)
    );
    assert_eq!(ctx.registry, Some(AvatarRegistry { next_index: 5, bump: 254 }));
    assert_eq!(initialize_avatar(&mut ctx, "Qm".to_string(), 2, 100), Ok(()));
    assert_eq!(ctx.avatar_data.unwrap().discriminant, Discriminant::Sequential(5));
}

#[test]
fn occupied_record_address_refuses_registration() {
    let mut ctx = sequential(3);
    assert_eq!(initialize_avatar(&mut ctx, "Qm".to_string(), 2, 100), Ok(()));
    let before = ctx.clone();
    assert_eq!(
        initialize_avatar(&mut ctx, "Other".to_string(), 9, 9),
        Err(CustomError::RecordAlreadyExists)
    );
    assert_eq!(ctx, before);
}

#[test]
fn occupied_escrow_address_refuses_registration() {
    let mut ctx = sequential(3);
    ctx.escrow = Some(Escrow { bump: 1 });
    let before = ctx.clone();
    assert_eq!(
        initialize_avatar(&mut ctx, "Qm".to_string(), 2, 100),
        Err(CustomError::RecordAlreadyExists)
    );
    assert_eq!(ctx, before);
}

#[test]
fn occupied_address_is_reported_before_anything_else() {
    let mut ctx = sequential(u64::MAX);
    ctx.avatar_data = Some(AvatarData {
        uri_ipfs_hash: "Qm".to_string(),
        creator: key(2),
        max_supply: 1,
        current_supply: 0,
        minting_fee_per_mint: 0,
        total_unclaimed_fees: 0,
        discriminant: Discriminant::Sequential(0),
        bump: 1,
    });
    assert_eq!(
        initialize_avatar(&mut ctx, String::new(), 2, 100),
        Err(CustomError::RecordAlreadyExists)
    );
}

#[test]
fn content_addressed_registration_uses_the_digest() {
    let mut ctx = by_content();
    assert_eq!(initialize_avatar(&mut ctx, "abc".to_string(), 2, 100), Ok(()));
    let record = ctx.avatar_data.unwrap();
    assert_eq!(record.discriminant, content_discriminant("abc"));
    assert_eq!(ctx.registry, None);
    assert_eq!(record.bump, 251);
    assert_eq!(ctx.escrow, Some(Escrow { bump: 250 }));
}

#[test]
fn same_content_cannot_be_registered_twice() {
    let mut ctx = by_content();
    let content = "QmT78zSuBmuS4z925WZfrqQ1qHaJ56DQaTfyMUF7F8ff5o";
    assert_eq!(ctx.next_discriminant(content), content_discriminant(content));
    assert_eq!(initialize_avatar(&mut ctx, content.to_string(), 2, 100), Ok(()));
    // The second attempt derives the same discriminant, so it meets the
    // accounts that the first one filled.
    assert_eq!(ctx.next_discriminant(content), content_discriminant(content));
    let before = ctx.clone();
    assert_eq!(
        initialize_avatar(&mut ctx, content.to_string(), 50, 1),
        Err(CustomError::RecordAlreadyExists)
    );
    assert_eq!(ctx, before);
    let first = ctx.avatar_data.unwrap();
    assert_eq!(first.max_supply, 2);
    assert_eq!(first.minting_fee_per_mint, 100);
}

#[test]
fn next_discriminant_follows_the_registry() {
    let ctx = sequential(12);
    assert_eq!(ctx.next_discriminant("anything"), Discriminant::Sequential(12));
}
