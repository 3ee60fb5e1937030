use anchor_lang::AnchorSerialize;
use mpl_token_metadata::state::{Data, Key, MAX_MASTER_EDITION_LEN, MAX_METADATA_LEN};
use nightfury::{
    process_initialize, process_revoke, process_switch, process_update, process_update_day_uri,
    process_update_night_uri, AccountView, Identity, Initialize, NightFuryError, NightFuryState,
    ProgramConfig, Revoke, Switch, TokenAccountView, Update, UpdateDayUri, UpdateNightUri,
};
use solana_program::pubkey::Pubkey;

fn id(b: u8) -> Identity {
    Identity::new([b; 32])
}

fn sysvar_id() -> Identity {
    Identity::new(solana_program::sysvar::instructions::ID.to_bytes())
}

fn config() -> ProgramConfig {
    ProgramConfig {
        program_id: id(7),
        token_metadata_program: Identity::new(mpl_token_metadata::ID.to_bytes()),
        auth_rules_program: id(8),
    }
}

fn metadata_bytes(mint: &Identity, uri: &str) -> Vec<u8> {
    let md = mpl_token_metadata::state::Metadata {
        key: Key::MetadataV1,
        update_authority: Pubkey::new_from_array([9; 32]),
        mint: Pubkey::new_from_array(mint.bytes),
        data: Data {
            name: "Fury".to_string(),
            symbol: "FURY".to_string(),
            uri: uri.to_string(),
            seller_fee_basis_points: 500,
            creators: None,
        },
        primary_sale_happened: false,
        is_mutable: true,
        edition_nonce: None,
        token_standard: None,
        collection: None,
        uses: None,
        collection_details: None,
        programmable_config: None,
    };
    let mut v = md.try_to_vec().unwrap();
    v.resize(MAX_METADATA_LEN, 0);
    v
}

fn edition_bytes() -> Vec<u8> {
    let ed = mpl_token_metadata::state::MasterEditionV2 {
        key: Key::MasterEditionV2,
        supply: 0,
        max_supply: None,
    };
    let mut v = ed.try_to_vec().unwrap();
    v.resize(MAX_MASTER_EDITION_LEN, 0);
    v
}

/// Build a fully valid Initialize input, deriving both addresses with the
/// runtime's own derivation so the library must agree with it.
fn valid_initialize(cfg: &ProgramConfig, mint: Identity, authority: Identity) -> Initialize {
    let program = Pubkey::new_from_array(cfg.program_id.bytes);
    let (record_key, bump) = Pubkey::try_find_program_address(
        &[b"nightfury", &mint.bytes, &authority.bytes],
        &program,
    )
    .unwrap();
    let (sub_key, sub_bump) = Pubkey::try_find_program_address(
        &[b"thread_authority", record_key.as_ref()],
        &program,
    )
    .unwrap();
    Initialize {
        nightfury_key: Identity::new(record_key.to_bytes()),
        bump,
        mint,
        token_account: TokenAccountView { key: id(20), mint },
        metadata: AccountView { key: id(21), owner: cfg.token_metadata_program },
        metadata_bytes: metadata_bytes(&mint, "ipfs://genesis"),
        master_edition: AccountView { key: id(22), owner: cfg.token_metadata_program },
        master_edition_bytes: edition_bytes(),
        authority,
        thread: id(5),
        thread_authority_key: Identity::new(sub_key.to_bytes()),
        thread_authority_bump: sub_bump,
        authorization_rules: AccountView { key: id(23), owner: cfg.auth_rules_program },
        token_metadata_program: cfg.token_metadata_program,
        authorization_rules_program: cfg.auth_rules_program,
    }
}

fn valid_switch(cfg: &ProgramConfig, mint: Identity, uri: &str) -> Switch {
    Switch {
        mint,
        metadata: AccountView { key: id(21), owner: cfg.token_metadata_program },
        metadata_bytes: metadata_bytes(&mint, uri),
        thread: id(5),
        instructions_sysvar: sysvar_id(),
    }
}

#[test]
fn initialize_creates_day_record() {
    let cfg = config();
    let ix = valid_initialize(&cfg, id(2), id(3));
    let out = process_initialize(
        &cfg,
        &ix,
        vec![1, 2, 3],
        b"ipfs://day".to_vec(),
        b"ipfs://night".to_vec(),
    )
    .unwrap();
    assert_eq!(out.record.state, NightFuryState::Day);
    assert_eq!(out.record.authority, id(3));
    assert_eq!(out.record.mint, id(2));
    assert_eq!(out.record.day_uri, b"ipfs://day".to_vec());
    assert_eq!(out.record.night_uri, b"ipfs://night".to_vec());
    assert_eq!(out.record.thread, id(5));
    assert_eq!(out.record.thread_id, vec![1, 2, 3]);
    assert_eq!(out.record.bump, ix.bump);
    assert!(out.delegation.active);
    assert_eq!(out.delegation.delegate, id(5));
    assert_eq!(out.delegation.mint, id(2));
    assert_eq!(out.delegation.authority, id(3));
    assert!(out.trigger.active);
    assert_eq!(out.trigger.key, id(5));
    assert_eq!(out.trigger.authority, ix.thread_authority_key);
    assert_eq!(out.trigger.id, vec![1, 2, 3]);
    assert_eq!(out.trigger.schedule, b"*/30 * * * * * *".to_vec());
}

#[test]
fn initialize_rejects_long_uris() {
    let cfg = config();
    let ix = valid_initialize(&cfg, id(2), id(3));
    let long = vec![b'x'; 257];
    let r = process_initialize(&cfg, &ix, vec![1], long.clone(), b"ok".to_vec());
    assert_eq!(r.unwrap_err(), NightFuryError::UriTooLong);
    let r = process_initialize(&cfg, &ix, vec![1], b"ok".to_vec(), long);
    assert_eq!(r.unwrap_err(), NightFuryError::UriTooLong);
    let exactly = vec![b'x'; 256];
    let r = process_initialize(&cfg, &ix, vec![1], exactly.clone(), exactly);
    assert!(r.is_ok());
}

#[test]
fn initialize_rejects_forged_record_address() {
    let cfg = config();
    let mut ix = valid_initialize(&cfg, id(2), id(3));
    ix.nightfury_key = id(99);
    let r = process_initialize(&cfg, &ix, vec![1], b"d".to_vec(), b"n".to_vec());
    assert_eq!(r.unwrap_err(), NightFuryError::InvalidAuthority);
}

#[test]
fn initialize_rejects_wrong_metadata_owner() {
    let cfg = config();
    let mut ix = valid_initialize(&cfg, id(2), id(3));
    ix.metadata.owner = id(66);
    let r = process_initialize(&cfg, &ix, vec![1], b"d".to_vec(), b"n".to_vec());
    assert_eq!(r.unwrap_err(), NightFuryError::InvalidMetadataAccount);
}

#[test]
fn initialize_rejects_garbage_metadata() {
    let cfg = config();
    let mut ix = valid_initialize(&cfg, id(2), id(3));
    ix.metadata_bytes = vec![0, 1, 2, 3];
    let r = process_initialize(&cfg, &ix, vec![1], b"d".to_vec(), b"n".to_vec());
    assert_eq!(r.unwrap_err(), NightFuryError::InvalidMetadataAccount);
}

#[test]
fn initialize_rejects_bad_edition() {
    let cfg = config();
    let mut ix = valid_initialize(&cfg, id(2), id(3));
    ix.master_edition_bytes = vec![9, 9, 9];
    let r = process_initialize(&cfg, &ix, vec![1], b"d".to_vec(), b"n".to_vec());
    assert_eq!(r.unwrap_err(), NightFuryError::InvalidEditionAccount);
}

#[test]
fn initialize_rejects_wrong_token_metadata_program() {
    let cfg = config();
    let mut ix = valid_initialize(&cfg, id(2), id(3));
    ix.token_metadata_program = id(66);
    let r = process_initialize(&cfg, &ix, vec![1], b"d".to_vec(), b"n".to_vec());
    assert_eq!(r.unwrap_err(), NightFuryError::InvalidTokenMetadataProgram);
}

#[test]
fn initialize_rejects_wrong_auth_rules() {
    let cfg = config();
    let mut ix = valid_initialize(&cfg, id(2), id(3));
    ix.authorization_rules_program = id(66);
    let r = process_initialize(&cfg, &ix, vec![1], b"d".to_vec(), b"n".to_vec());
    assert_eq!(r.unwrap_err(), NightFuryError::InvalidAuthRulesProgram);
    let mut ix = valid_initialize(&cfg, id(2), id(3));
    ix.authorization_rules.owner = id(66);
    let r = process_initialize(&cfg, &ix, vec![1], b"d".to_vec(), b"n".to_vec());
    assert_eq!(r.unwrap_err(), NightFuryError::InvalidAuthRulesProgram);
}

#[test]
fn initialize_rejects_mint_mismatch() {
    let cfg = config();
    let mut ix = valid_initialize(&cfg, id(2), id(3));
    ix.metadata_bytes = metadata_bytes(&id(50), "ipfs://other");
    let r = process_initialize(&cfg, &ix, vec![1], b"d".to_vec(), b"n".to_vec());
    assert_eq!(r.unwrap_err(), NightFuryError::InvalidMint);
    let mut ix = valid_initialize(&cfg, id(2), id(3));
    ix.token_account.mint = id(50);
    let r = process_initialize(&cfg, &ix, vec![1], b"d".to_vec(), b"n".to_vec());
    assert_eq!(r.unwrap_err(), NightFuryError::InvalidMint);
}

#[test]
fn switch_round_trip_toggles_phase_and_uri() {
    let cfg = config();
    let ix = valid_initialize(&cfg, id(2), id(3));
    let out = process_initialize(
        &cfg,
        &ix,
        vec![1],
        b"ipfs://day".to_vec(),
        b"ipfs://night".to_vec(),
    )
    .unwrap();
    let mut record = out.record;
    let sw = valid_switch(&cfg, id(2), "ipfs://day");
    assert_eq!(record.state, NightFuryState::Day);

    let view = process_switch(&cfg, &mut record, &sw, &out.delegation).unwrap();
    assert_eq!(view.uri, b"ipfs://night".to_vec());
    assert_eq!(record.state, NightFuryState::Night);
    assert_eq!(view.name, b"Fury".to_vec());
    assert_eq!(view.symbol, b"FURY".to_vec());
    assert_eq!(view.seller_fee_basis_points, 500);
    assert_eq!(view.mint, id(2));

    let sw2 = valid_switch(&cfg, id(2), "ipfs://night");
    let view = process_switch(&cfg, &mut record, &sw2, &out.delegation).unwrap();
    assert_eq!(view.uri, b"ipfs://day".to_vec());
    assert_eq!(record.state, NightFuryState::Day);
}

#[test]
fn switch_rejects_mint_mismatch() {
    let cfg = config();
    let ix = valid_initialize(&cfg, id(2), id(3));
    let out = process_initialize(&cfg, &ix, vec![1], b"d".to_vec(), b"n".to_vec()).unwrap();
    let mut record = out.record;
    let mut sw = valid_switch(&cfg, id(2), "u");
    sw.metadata_bytes = metadata_bytes(&id(50), "u");
    let r = process_switch(&cfg, &mut record, &sw, &out.delegation);
    assert_eq!(r.unwrap_err(), NightFuryError::InvalidMint);
    assert_eq!(record.state, NightFuryState::Day);
}

#[test]
fn switch_rejects_fake_sysvar() {
    let cfg = config();
    let ix = valid_initialize(&cfg, id(2), id(3));
    let out = process_initialize(&cfg, &ix, vec![1], b"d".to_vec(), b"n".to_vec()).unwrap();
    let mut record = out.record;
    let mut sw = valid_switch(&cfg, id(2), "u");
    sw.instructions_sysvar = id(42);
    let r = process_switch(&cfg, &mut record, &sw, &out.delegation);
    assert_eq!(r.unwrap_err(), NightFuryError::InvalidInstructionsSysvarId);
    assert_eq!(record.state, NightFuryState::Day);
}

#[test]
fn switch_rejects_wrong_signer() {
    let cfg = config();
    let ix = valid_initialize(&cfg, id(2), id(3));
    let out = process_initialize(&cfg, &ix, vec![1], b"d".to_vec(), b"n".to_vec()).unwrap();
    let mut record = out.record;
    let mut sw = valid_switch(&cfg, id(2), "u");
    sw.thread = id(77);
    let r = process_switch(&cfg, &mut record, &sw, &out.delegation);
    assert_eq!(r.unwrap_err(), NightFuryError::InvalidDelegateInstruction);
    assert_eq!(record.state, NightFuryState::Day);
}

#[test]
fn revoked_switch_fails_and_keeps_phase() {
    let cfg = config();
    let ix = valid_initialize(&cfg, id(2), id(3));
    let out = process_initialize(&cfg, &ix, vec![1], b"d".to_vec(), b"n".to_vec()).unwrap();
    let mut record = out.record;
    let mut delegation = out.delegation;
    let mut trigger = out.trigger;
    let rv = Revoke { authority: id(3), mint: id(2), thread: id(5), nightfury_key: ix.nightfury_key };
    process_revoke(&cfg, &record, &rv, &mut delegation, &mut trigger).unwrap();
    assert!(!delegation.active);
    assert!(!trigger.active);

    let sw = valid_switch(&cfg, id(2), "u");
    let r = process_switch(&cfg, &mut record, &sw, &delegation);
    assert_eq!(r.unwrap_err(), NightFuryError::InvalidDelegateInstruction);
    assert_eq!(record.state, NightFuryState::Day);
}

#[test]
fn revoke_rejects_wrong_authority() {
    let cfg = config();
    let ix = valid_initialize(&cfg, id(2), id(3));
    let out = process_initialize(&cfg, &ix, vec![1], b"d".to_vec(), b"n".to_vec()).unwrap();
    let mut delegation = out.delegation;
    let mut trigger = out.trigger;
    let rv = Revoke { authority: id(4), mint: id(2), thread: id(5), nightfury_key: ix.nightfury_key };
    let r = process_revoke(&cfg, &out.record, &rv, &mut delegation, &mut trigger);
    assert_eq!(r.unwrap_err(), NightFuryError::InvalidAuthority);
    assert!(delegation.active);
    assert!(trigger.active);
}

#[test]
fn update_replaces_schedule() {
    let cfg = config();
    let ix = valid_initialize(&cfg, id(2), id(3));
    let out = process_initialize(&cfg, &ix, vec![1], b"d".to_vec(), b"n".to_vec()).unwrap();
    let mut trigger = out.trigger;
    let up = Update { authority: id(3), mint: id(2), thread: id(5), nightfury_key: ix.nightfury_key };
    process_update(&cfg, &out.record, &up, &mut trigger, b"*/10 * * * * * *".to_vec()).unwrap();
    assert_eq!(trigger.schedule, b"*/10 * * * * * *".to_vec());
    assert!(trigger.active);

    let bad = Update { authority: id(4), ..up };
    let r = process_update(&cfg, &out.record, &bad, &mut trigger, b"* * * * * * *".to_vec());
    assert_eq!(r.unwrap_err(), NightFuryError::InvalidAuthority);
    assert_eq!(trigger.schedule, b"*/10 * * * * * *".to_vec());
}

#[test]
fn update_rejects_deleted_trigger() {
    let cfg = config();
    let ix = valid_initialize(&cfg, id(2), id(3));
    let out = process_initialize(&cfg, &ix, vec![1], b"d".to_vec(), b"n".to_vec()).unwrap();
    let mut delegation = out.delegation;
    let mut trigger = out.trigger;
    let rv = Revoke { authority: id(3), mint: id(2), thread: id(5), nightfury_key: ix.nightfury_key };
    process_revoke(&cfg, &out.record, &rv, &mut delegation, &mut trigger).unwrap();
    let up = Update { authority: id(3), mint: id(2), thread: id(5), nightfury_key: ix.nightfury_key };
    let r = process_update(&cfg, &out.record, &up, &mut trigger, b"* * * * * * *".to_vec());
    assert_eq!(r.unwrap_err(), NightFuryError::InvalidAuthority);
}

#[test]
fn day_uri_update_owner_only_and_bounded() {
    let cfg = config();
    let ix = valid_initialize(&cfg, id(2), id(3));
    let out = process_initialize(&cfg, &ix, vec![1], b"d".to_vec(), b"n".to_vec()).unwrap();
    let mut record = out.record;

    let r = process_update_day_uri(&mut record, &UpdateDayUri { authority: id(4) }, b"x".to_vec());
    assert_eq!(r.unwrap_err(), NightFuryError::InvalidAuthority);
    assert_eq!(record.day_uri, b"d".to_vec());

    let long = vec![b'x'; 257];
    let r = process_update_day_uri(&mut record, &UpdateDayUri { authority: id(3) }, long);
    assert_eq!(r.unwrap_err(), NightFuryError::UriTooLong);
    assert_eq!(record.day_uri, b"d".to_vec());

    process_update_day_uri(&mut record, &UpdateDayUri { authority: id(3) }, b"ipfs://new".to_vec())
        .unwrap();
    assert_eq!(record.day_uri, b"ipfs://new".to_vec());
    assert_eq!(record.night_uri, b"n".to_vec());
    assert_eq!(record.state, NightFuryState::Day);
}

#[test]
fn night_uri_update_owner_only_and_bounded() {
    let cfg = config();
    let ix = valid_initialize(&cfg, id(2), id(3));
    let out = process_initialize(&cfg, &ix, vec![1], b"d".to_vec(), b"n".to_vec()).unwrap();
    let mut record = out.record;

    let r = process_update_night_uri(
        &mut record,
        &UpdateNightUri { authority: id(4) },
        b"x".to_vec(),
    );
    assert_eq!(r.unwrap_err(), NightFuryError::InvalidAuthority);

    let long = vec![b'x'; 257];
    let r = process_update_night_uri(&mut record, &UpdateNightUri { authority: id(3) }, long);
    assert_eq!(r.unwrap_err(), NightFuryError::UriTooLong);

    process_update_night_uri(
        &mut record,
        &UpdateNightUri { authority: id(3) },
        b"ipfs://new".to_vec(),
    )
    .unwrap();
    assert_eq!(record.night_uri, b"ipfs://new".to_vec());
    assert_eq!(record.day_uri, b"d".to_vec());
    assert_eq!(record.state, NightFuryState::Day);
}

#[test]
fn derivations_match_the_runtime() {
    let cfg = config();
    let mint = id(2);
    let authority = id(3);
    let program = Pubkey::new_from_array(cfg.program_id.bytes);

    let (key, bump) =
        nightfury::derive_record_address(&cfg.program_id, &mint, &authority).unwrap();
    let (expected, expected_bump) = Pubkey::try_find_program_address(
        &[b"nightfury", &mint.bytes, &authority.bytes],
        &program,
    )
    .unwrap();
    assert_eq!(key, Identity::new(expected.to_bytes()));
    assert_eq!(bump, expected_bump);

    let (sub, sub_bump) =
        nightfury::derive_thread_authority_address(&cfg.program_id, &key).unwrap();
    let (expected_sub, expected_sub_bump) = Pubkey::try_find_program_address(
        &[b"thread_authority", &key.bytes],
        &program,
    )
    .unwrap();
    assert_eq!(sub, Identity::new(expected_sub.to_bytes()));
    assert_eq!(sub_bump, expected_sub_bump);
}

#[test]
fn error_messages_name_each_kind() {
    assert_eq!(NightFuryError::InvalidAuthority.message(), "Invalid NightFury Authority");
    assert_eq!(NightFuryError::InvalidMint.message(), "Invalid NightFury Mint");
    assert_eq!(NightFuryError::UriTooLong.message(), "Uri too long");
    assert_eq!(
        NightFuryError::FailedToBuildUpdateInstruction.message(),
        "Failed to build update instruction"
    );
    assert_eq!(
        NightFuryError::InvalidInstructionsSysvarId.message(),
        "Invalid Instructions Sysvar Id"
    );
    assert_eq!(
        NightFuryError::InvalidTokenMetadataProgram.message(),
        "Invalid Token Metadata Program"
    );
    assert_eq!(NightFuryError::InvalidEditionAccount.message(), "Invalid Edition Account");
    assert_eq!(NightFuryError::InvalidMetadataAccount.message(), "Invalid Metadata Account");
    assert_eq!(NightFuryError::InvalidAuthRulesProgram.message(), "Invalid Auth Rules Program");
    assert_eq!(
        NightFuryError::InvalidDelegateInstruction.message(),
        "Invalid Delegate Instruction"
    );
}
