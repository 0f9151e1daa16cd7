use ore_boost::consts::PROGRAM_ID;
use ore_boost::error::{BoostError, ProgramError};
use ore_boost::instruction::{
    parse_instruction, process_instruction, Activate, BoostInstruction, Claim, Close, Deactivate, Deposit, Handler,
    Initialize, New, Open, Rotate, UpdateAdmin, UpdateBoost, Withdraw,
};
use ore_boost::pubkey::Pubkey;

const ALL: [BoostInstruction; 12] = [
    BoostInstruction::Claim,
    BoostInstruction::Close,
    BoostInstruction::Deposit,
    BoostInstruction::Open,
    BoostInstruction::Rotate,
    BoostInstruction::Withdraw,
    BoostInstruction::Activate,
    BoostInstruction::Deactivate,
    BoostInstruction::Initialize,
    BoostInstruction::New,
    BoostInstruction::UpdateAdmin,
    BoostInstruction::UpdateBoost,
];

#[test]
fn instruction_discriminators() {
    let tags: Vec<u8> = ALL.iter().map(|ix| ix.discriminator()).collect();
    assert_eq!(tags, vec![0, 1, 2, 3, 4, 5, 100, 101, 102, 103, 104, 105]);
    for ix in ALL {
        assert_eq!(BoostInstruction::try_from_u8(ix.discriminator()), Some(ix));
        assert_eq!(ix.to_vec(), vec![ix.discriminator()]);
    }
    assert_eq!(BoostInstruction::try_from_u8(6), None);
    assert_eq!(BoostInstruction::try_from_u8(99), None);
    assert_eq!(BoostInstruction::try_from_u8(106), None);
}

#[test]
fn parse_instruction_splits_tag_and_args() {
    let program = Pubkey::new_from_array(PROGRAM_ID);
    let data = [103u8, 1, 2, 3];
    let (ix, rest) = parse_instruction(&program, &data).unwrap();
    assert_eq!(ix, BoostInstruction::New);
    assert_eq!(rest, &[1, 2, 3]);
}

#[test]
fn parse_instruction_errors() {
    let program = Pubkey::new_from_array(PROGRAM_ID);
    let other = Pubkey::default();
    assert_eq!(parse_instruction(&other, &[103]).unwrap_err(), ProgramError::IncorrectProgramId);
    assert_eq!(parse_instruction(&program, &[]).unwrap_err(), ProgramError::InvalidInstructionData);
    assert_eq!(parse_instruction(&program, &[77]).unwrap_err(), ProgramError::InvalidInstructionData);
}

#[test]
fn only_update_boost_is_enabled() {
    for ix in ALL {
        let expected = if ix == BoostInstruction::UpdateBoost { Handler::UpdateBoost } else { Handler::Disabled };
        assert_eq!(process_instruction(ix), expected);
    }
}

#[test]
fn amount_args_round_trip() {
    let claim = Claim::new(0x0102_0304_0506_0708);
    assert_eq!(claim.amount, [8, 7, 6, 5, 4, 3, 2, 1]);
    assert_eq!(claim.to_bytes(), vec![0, 8, 7, 6, 5, 4, 3, 2, 1]);
    assert_eq!(Claim::try_from_bytes(&claim.amount).unwrap().amount(), 0x0102_0304_0506_0708);
    assert_eq!(Claim::try_from_bytes(&[1, 2, 3]).unwrap_err(), ProgramError::InvalidInstructionData);

    let deposit = Deposit::new(500);
    assert_eq!(deposit.to_bytes(), vec![2, 244, 1, 0, 0, 0, 0, 0, 0]);
    assert_eq!(Deposit::try_from_bytes(&deposit.amount).unwrap().amount(), 500);
    assert!(Deposit::try_from_bytes(&[0; 9]).is_err());

    let withdraw = Withdraw::new(7);
    assert_eq!(withdraw.to_bytes(), vec![5, 7, 0, 0, 0, 0, 0, 0, 0]);
    assert_eq!(Withdraw::try_from_bytes(&withdraw.amount).unwrap().amount(), 7);
    assert!(Withdraw::try_from_bytes(&[]).is_err());
}

#[test]
fn empty_args_encode_only_the_tag() {
    assert_eq!(Close {}.to_bytes(), vec![1]);
    assert_eq!(Open {}.to_bytes(), vec![3]);
    assert_eq!(Rotate {}.to_bytes(), vec![4]);
    assert_eq!(Activate {}.to_bytes(), vec![100]);
    assert_eq!(Deactivate {}.to_bytes(), vec![101]);
    assert_eq!(Initialize {}.to_bytes(), vec![102]);
    assert!(Close::try_from_bytes(&[]).is_ok());
    assert!(Open::try_from_bytes(&[]).is_ok());
    assert!(Activate::try_from_bytes(&[]).is_ok());
    assert_eq!(Rotate::try_from_bytes(&[1]).unwrap_err(), ProgramError::InvalidInstructionData);
}

#[test]
fn expiry_and_weight_args_round_trip() {
    let new = New::new(-1, 300);
    let bytes = new.to_bytes();
    assert_eq!(bytes[0], 103);
    assert_eq!(&bytes[1..9], &[255; 8]);
    assert_eq!(&bytes[9..17], &[44, 1, 0, 0, 0, 0, 0, 0]);
    let back = New::try_from_bytes(&bytes[1..]).unwrap();
    assert_eq!(back.expires_at(), -1);
    assert_eq!(back.weight(), 300);
    assert!(New::try_from_bytes(&bytes).is_err());

    let update = UpdateBoost::new(1_700_000_000, 2);
    let bytes = update.to_bytes();
    assert_eq!(bytes[0], 105);
    let back = UpdateBoost::try_from_bytes(&bytes[1..]).unwrap();
    assert_eq!(back.expires_at(), 1_700_000_000);
    assert_eq!(back.weight(), 2);
}

#[test]
fn update_admin_args_round_trip() {
    let admin = Pubkey::new_from_array([9; 32]);
    let args = UpdateAdmin { new_admin: admin };
    let bytes = args.to_bytes();
    assert_eq!(bytes.len(), 33);
    assert_eq!(bytes[0], 104);
    assert_eq!(UpdateAdmin::try_from_bytes(&bytes[1..]).unwrap().new_admin, admin);
    assert!(UpdateAdmin::try_from_bytes(&bytes).is_err());
}

#[test]
fn boost_error_code() {
    assert_eq!(BoostError::Dummy.code(), 0);
}
