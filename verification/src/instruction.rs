//! Instructions: their discriminators and data layouts.
use vstd::prelude::*;
use vstd::bytes::{spec_u64_from_le_bytes, spec_u64_to_le_bytes};

use crate::consts::PROGRAM_ID;
use crate::error::ProgramError;
use crate::pubkey::Pubkey;

verus! {

/// The instructions of the boost program.
#[derive(Clone, Copy, Debug, PartialEq, Eq, Structural)]
pub enum BoostInstruction {
    // User
    Claim,
    Close,
    Deposit,
    Open,
    Rotate,
    Withdraw,
    // Admin
    Activate,
    Deactivate,
    Initialize,
    New,
    UpdateAdmin,
    UpdateBoost,
}

/// The byte that identifies each instruction.
pub open spec fn discriminator_of(ix: BoostInstruction) -> u8 {
    match ix {
        BoostInstruction::Claim => 0,
        BoostInstruction::Close => 1,
        BoostInstruction::Deposit => 2,
        BoostInstruction::Open => 3,
        BoostInstruction::Rotate => 4,
        BoostInstruction::Withdraw => 5,
        BoostInstruction::Activate => 100,
        BoostInstruction::Deactivate => 101,
        BoostInstruction::Initialize => 102,
        BoostInstruction::New => 103,
        BoostInstruction::UpdateAdmin => 104,
        BoostInstruction::UpdateBoost => 105,
    }
}

impl BoostInstruction {
    /// The instruction's discriminator byte.
    pub fn discriminator(&self) -> (r: u8)
        ensures
            r == discriminator_of(*self),
    {
        match self {
            BoostInstruction::Claim => 0,
            BoostInstruction::Close => 1,
            BoostInstruction::Deposit => 2,
            BoostInstruction::Open => 3,
            BoostInstruction::Rotate => 4,
            BoostInstruction::Withdraw => 5,
            BoostInstruction::Activate => 100,
            BoostInstruction::Deactivate => 101,
            BoostInstruction::Initialize => 102,
            BoostInstruction::New => 103,
            BoostInstruction::UpdateAdmin => 104,
            BoostInstruction::UpdateBoost => 105,
        }
    }

    /// The instruction with the given discriminator, if any.
    pub fn try_from_u8(tag: u8) -> (r: Option<BoostInstruction>)
        ensures
            r matches Some(ix) ==> discriminator_of(ix) == tag,
            r is None ==> forall|ix: BoostInstruction| discriminator_of(ix) != tag,
    {
        match tag {
            0 => Some(BoostInstruction::Claim),
            1 => Some(BoostInstruction::Close),
            2 => Some(BoostInstruction::Deposit),
            3 => Some(BoostInstruction::Open),
            4 => Some(BoostInstruction::Rotate),
            5 => Some(BoostInstruction::Withdraw),
            100 => Some(BoostInstruction::Activate),
            101 => Some(BoostInstruction::Deactivate),
            102 => Some(BoostInstruction::Initialize),
            103 => Some(BoostInstruction::New),
            104 => Some(BoostInstruction::UpdateAdmin),
            105 => Some(BoostInstruction::UpdateBoost),
            _ => None,
        }
    }

    /// The instruction data with no arguments: the discriminator alone.
    pub fn to_vec(&self) -> (r: Vec<u8>)
        ensures
            r@ == seq![discriminator_of(*self)],
    {
        let mut v: Vec<u8> = Vec::new();
        v.push(self.discriminator());
        v
    }
}

/// Discriminators differ between instructions.
pub proof fn lemma_discriminator_injective(a: BoostInstruction, b: BoostInstruction)
    ensures
        discriminator_of(a) == discriminator_of(b) ==> a == b,
{
}

/// Splits instruction data into the instruction and its arguments.
///
/// Fails with `IncorrectProgramId` when the instruction is addressed to another program and
/// with `InvalidInstructionData` when the data is empty or its first byte names no instruction.
pub fn parse_instruction<'a>(program_id: &Pubkey, data: &'a [u8]) -> (r: Result<(BoostInstruction, &'a [u8]), ProgramError>)
    ensures
        program_id.bytes != PROGRAM_ID ==> r == Err::<(BoostInstruction, &[u8]), ProgramError>(ProgramError::IncorrectProgramId),
        program_id.bytes == PROGRAM_ID && data@.len() == 0 ==> r == Err::<(BoostInstruction, &[u8]), ProgramError>(
            ProgramError::InvalidInstructionData,
        ),
        program_id.bytes == PROGRAM_ID && data@.len() > 0 ==> match r {
            Ok((ix, rest)) => discriminator_of(ix) == data@[0] && rest@ == data@.skip(1),
            Err(e) => e == ProgramError::InvalidInstructionData && forall|ix: BoostInstruction|
                discriminator_of(ix) != data@[0],
        },
{
    let id = Pubkey { bytes: PROGRAM_ID };
    if !(*program_id == id) {
        return Err(ProgramError::IncorrectProgramId);
    }
    if data.len() == 0 {
        return Err(ProgramError::InvalidInstructionData);
    }
    let tag = data[0];
    match BoostInstruction::try_from_u8(tag) {
        Some(ix) => Ok((ix, vstd::slice::slice_subrange(data, 1, data.len()))),
        None => Err(ProgramError::InvalidInstructionData),
    }
}

/// What the program does with an instruction while it is migrating.
#[derive(Clone, Copy, Debug, PartialEq, Eq, Structural)]
pub enum Handler {
    /// Process `UpdateBoost`.
    UpdateBoost,
    /// The instruction is disabled for the migration.
    Disabled,
}

/// Chooses the handler of a parsed instruction: only `UpdateBoost` is served during the migration.
pub fn process_instruction(ix: BoostInstruction) -> (r: Handler)
    ensures
        r == (if ix == BoostInstruction::UpdateBoost {
            Handler::UpdateBoost
        } else {
            Handler::Disabled
        }),
{
    match ix {
        BoostInstruction::UpdateBoost => Handler::UpdateBoost,
        _ => Handler::Disabled,
    }
}

/// Copies exactly eight bytes.
pub(crate) fn read8(data: &[u8], at: usize) -> (r: [u8; 8])
    requires
        at + 8 <= data@.len(),
    ensures
        r@ == data@.subrange(at as int, at + 8),
{
    let mut out = [0u8; 8];
    let n = data.len();
    let mut i: usize = 0;
    while i < 8
        invariant
            0 <= i <= 8,
            n == data@.len(),
            at + 8 <= n,
            forall|k: int| 0 <= k < i ==> out@[k] == data@[at + k],
        decreases 8 - i,
    {
        out[i] = data[at + i];
        i += 1;
    }
    assert(out@ =~= data@.subrange(at as int, at + 8));
    out
}

/// Copies exactly 32 bytes.
pub(crate) fn read32(data: &[u8], at: usize) -> (r: [u8; 32])
    requires
        at + 32 <= data@.len(),
    ensures
        r@ == data@.subrange(at as int, at + 32),
{
    let mut out = [0u8; 32];
    let n = data.len();
    let mut i: usize = 0;
    while i < 32
        invariant
            0 <= i <= 32,
            n == data@.len(),
            at + 32 <= n,
            forall|k: int| 0 <= k < i ==> out@[k] == data@[at + k],
        decreases 32 - i,
    {
        out[i] = data[at + i];
        i += 1;
    }
    assert(out@ =~= data@.subrange(at as int, at + 32));
    out
}

/// Appends bytes to a vector.
pub(crate) fn append_bytes(v: &mut Vec<u8>, bytes: &[u8])
    ensures
        final(v)@ == old(v)@ + bytes@,
{
    let mut i: usize = 0;
    while i < bytes.len()
        invariant
            0 <= i <= bytes@.len(),
            v@ == old(v)@ + bytes@.take(i as int),
        decreases bytes.len() - i,
    {
        v.push(bytes[i]);
        i += 1;
        assert(v@ =~= old(v)@ + bytes@.take(i as int));
    }
    assert(bytes@.take(bytes@.len() as int) =~= bytes@);
}

/// Instruction data: the discriminator followed by the argument bytes.
fn encode(ix: BoostInstruction, args: &[u8]) -> (r: Vec<u8>)
    ensures
        r@ == seq![discriminator_of(ix)] + args@,
{
    let mut v = ix.to_vec();
    append_bytes(&mut v, args);
    v
}

/// Arguments of `Claim`: an amount (little-endian).
#[derive(Clone, Copy, Debug)]
pub struct Claim {
    pub amount: [u8; 8],
}

impl Claim {
    /// The arguments for `amount`.
    pub fn new(amount: u64) -> (r: Claim)
        ensures
            r.amount@ == spec_u64_to_le_bytes(amount),
    {
        let v = vstd::bytes::u64_to_le_bytes(amount);
        Claim { amount: read8(v.as_slice(), 0) }
    }

    /// The instruction data.
    pub fn to_bytes(&self) -> (r: Vec<u8>)
        ensures
            r@ == seq![discriminator_of(BoostInstruction::Claim)] + self.amount@,
    {
        encode(BoostInstruction::Claim, vstd::array::array_as_slice(&self.amount))
    }

    /// Reads the arguments: exactly eight bytes.
    pub fn try_from_bytes(data: &[u8]) -> (r: Result<Claim, ProgramError>)
        ensures
            r is Ok <==> data@.len() == 8,
            r is Err ==> r == Err::<Claim, ProgramError>(ProgramError::InvalidInstructionData),
            r matches Ok(args) ==> args.amount@ == data@,
    {
        if data.len() != 8 {
            return Err(ProgramError::InvalidInstructionData);
        }
        let amount = read8(data, 0);
        assert(data@.subrange(0, 8) =~= data@);
        Ok(Claim { amount })
    }

    /// The amount.
    pub fn amount(&self) -> (r: u64)
        ensures
            r == spec_u64_from_le_bytes(self.amount@),
    {
        vstd::bytes::u64_from_le_bytes(vstd::array::array_as_slice(&self.amount))
    }
}

/// Arguments of `Close` (none).
#[derive(Clone, Copy, Debug)]
pub struct Close {}

impl Close {
    /// The instruction data.
    pub fn to_bytes(&self) -> (r: Vec<u8>)
        ensures
            r@ == seq![discriminator_of(BoostInstruction::Close)],
    {
        BoostInstruction::Close.to_vec()
    }

    /// Reads the arguments; they take no bytes.
    pub fn try_from_bytes(data: &[u8]) -> (r: Result<Close, ProgramError>)
        ensures
            r is Ok <==> data@.len() == 0,
            r is Err ==> r == Err::<Close, ProgramError>(ProgramError::InvalidInstructionData),
    {
        if data.len() != 0 {
            return Err(ProgramError::InvalidInstructionData);
        }
        Ok(Close {})
    }
}

/// Arguments of `Deposit`: an amount (little-endian).
#[derive(Clone, Copy, Debug)]
pub struct Deposit {
    pub amount: [u8; 8],
}

impl Deposit {
    /// The arguments for `amount`.
    pub fn new(amount: u64) -> (r: Deposit)
        ensures
            r.amount@ == spec_u64_to_le_bytes(amount),
    {
        let v = vstd::bytes::u64_to_le_bytes(amount);
        Deposit { amount: read8(v.as_slice(), 0) }
    }

    /// The instruction data.
    pub fn to_bytes(&self) -> (r: Vec<u8>)
        ensures
            r@ == seq![discriminator_of(BoostInstruction::Deposit)] + self.amount@,
    {
        encode(BoostInstruction::Deposit, vstd::array::array_as_slice(&self.amount))
    }

    /// Reads the arguments: exactly eight bytes.
    pub fn try_from_bytes(data: &[u8]) -> (r: Result<Deposit, ProgramError>)
        ensures
            r is Ok <==> data@.len() == 8,
            r is Err ==> r == Err::<Deposit, ProgramError>(ProgramError::InvalidInstructionData),
            r matches Ok(args) ==> args.amount@ == data@,
    {
        if data.len() != 8 {
            return Err(ProgramError::InvalidInstructionData);
        }
        let amount = read8(data, 0);
        assert(data@.subrange(0, 8) =~= data@);
        Ok(Deposit { amount })
    }

    /// The amount.
    pub fn amount(&self) -> (r: u64)
        ensures
            r == spec_u64_from_le_bytes(self.amount@),
    {
        vstd::bytes::u64_from_le_bytes(vstd::array::array_as_slice(&self.amount))
    }
}

/// Arguments of `Open` (none).
#[derive(Clone, Copy, Debug)]
pub struct Open {}

impl Open {
    /// The instruction data.
    pub fn to_bytes(&self) -> (r: Vec<u8>)
        ensures
            r@ == seq![discriminator_of(BoostInstruction::Open)],
    {
        BoostInstruction::Open.to_vec()
    }

    /// Reads the arguments; they take no bytes.
    pub fn try_from_bytes(data: &[u8]) -> (r: Result<Open, ProgramError>)
        ensures
            r is Ok <==> data@.len() == 0,
            r is Err ==> r == Err::<Open, ProgramError>(ProgramError::InvalidInstructionData),
    {
        if data.len() != 0 {
            return Err(ProgramError::InvalidInstructionData);
        }
        Ok(Open {})
    }
}

/// Arguments of `Rotate` (none).
#[derive(Clone, Copy, Debug)]
pub struct Rotate {}

impl Rotate {
    /// The instruction data.
    pub fn to_bytes(&self) -> (r: Vec<u8>)
        ensures
            r@ == seq![discriminator_of(BoostInstruction::Rotate)],
    {
        BoostInstruction::Rotate.to_vec()
    }

    /// Reads the arguments; they take no bytes.
    pub fn try_from_bytes(data: &[u8]) -> (r: Result<Rotate, ProgramError>)
        ensures
            r is Ok <==> data@.len() == 0,
            r is Err ==> r == Err::<Rotate, ProgramError>(ProgramError::InvalidInstructionData),
    {
        if data.len() != 0 {
            return Err(ProgramError::InvalidInstructionData);
        }
        Ok(Rotate {})
    }
}

/// Arguments of `Withdraw`: an amount (little-endian).
#[derive(Clone, Copy, Debug)]
pub struct Withdraw {
    pub amount: [u8; 8],
}

impl Withdraw {
    /// The arguments for `amount`.
    pub fn new(amount: u64) -> (r: Withdraw)
        ensures
            r.amount@ == spec_u64_to_le_bytes(amount),
    {
        let v = vstd::bytes::u64_to_le_bytes(amount);
        Withdraw { amount: read8(v.as_slice(), 0) }
    }

    /// The instruction data.
    pub fn to_bytes(&self) -> (r: Vec<u8>)
        ensures
            r@ == seq![discriminator_of(BoostInstruction::Withdraw)] + self.amount@,
    {
        encode(BoostInstruction::Withdraw, vstd::array::array_as_slice(&self.amount))
    }

    /// Reads the arguments: exactly eight bytes.
    pub fn try_from_bytes(data: &[u8]) -> (r: Result<Withdraw, ProgramError>)
        ensures
            r is Ok <==> data@.len() == 8,
            r is Err ==> r == Err::<Withdraw, ProgramError>(ProgramError::InvalidInstructionData),
            r matches Ok(args) ==> args.amount@ == data@,
    {
        if data.len() != 8 {
            return Err(ProgramError::InvalidInstructionData);
        }
        let amount = read8(data, 0);
        assert(data@.subrange(0, 8) =~= data@);
        Ok(Withdraw { amount })
    }

    /// The amount.
    pub fn amount(&self) -> (r: u64)
        ensures
            r == spec_u64_from_le_bytes(self.amount@),
    {
        vstd::bytes::u64_from_le_bytes(vstd::array::array_as_slice(&self.amount))
    }
}

/// Arguments of `Activate` (none).
#[derive(Clone, Copy, Debug)]
pub struct Activate {}

impl Activate {
    /// The instruction data.
    pub fn to_bytes(&self) -> (r: Vec<u8>)
        ensures
            r@ == seq![discriminator_of(BoostInstruction::Activate)],
    {
        BoostInstruction::Activate.to_vec()
    }

    /// Reads the arguments; they take no bytes.
    pub fn try_from_bytes(data: &[u8]) -> (r: Result<Activate, ProgramError>)
        ensures
            r is Ok <==> data@.len() == 0,
            r is Err ==> r == Err::<Activate, ProgramError>(ProgramError::InvalidInstructionData),
    {
        if data.len() != 0 {
            return Err(ProgramError::InvalidInstructionData);
        }
        Ok(Activate {})
    }
}

/// Arguments of `Deactivate` (none).
#[derive(Clone, Copy, Debug)]
pub struct Deactivate {}

impl Deactivate {
    /// The instruction data.
    pub fn to_bytes(&self) -> (r: Vec<u8>)
        ensures
            r@ == seq![discriminator_of(BoostInstruction::Deactivate)],
    {
        BoostInstruction::Deactivate.to_vec()
    }

    /// Reads the arguments; they take no bytes.
    pub fn try_from_bytes(data: &[u8]) -> (r: Result<Deactivate, ProgramError>)
        ensures
            r is Ok <==> data@.len() == 0,
            r is Err ==> r == Err::<Deactivate, ProgramError>(ProgramError::InvalidInstructionData),
    {
        if data.len() != 0 {
            return Err(ProgramError::InvalidInstructionData);
        }
        Ok(Deactivate {})
    }
}

/// Arguments of `Initialize` (none).
#[derive(Clone, Copy, Debug)]
pub struct Initialize {}

impl Initialize {
    /// The instruction data.
    pub fn to_bytes(&self) -> (r: Vec<u8>)
        ensures
            r@ == seq![discriminator_of(BoostInstruction::Initialize)],
    {
        BoostInstruction::Initialize.to_vec()
    }

    /// Reads the arguments; they take no bytes.
    pub fn try_from_bytes(data: &[u8]) -> (r: Result<Initialize, ProgramError>)
        ensures
            r is Ok <==> data@.len() == 0,
            r is Err ==> r == Err::<Initialize, ProgramError>(ProgramError::InvalidInstructionData),
    {
        if data.len() != 0 {
            return Err(ProgramError::InvalidInstructionData);
        }
        Ok(Initialize {})
    }
}

/// Arguments of `New`: an expiry time and a weight (little-endian).
#[derive(Clone, Copy, Debug)]
pub struct New {
    pub expires_at: [u8; 8],
    pub weight: [u8; 8],
}

impl New {
    /// The arguments for `expires_at` and `weight`.
    pub fn new(expires_at: i64, weight: u64) -> (r: New)
        ensures
            r.expires_at@ == spec_u64_to_le_bytes(expires_at as u64),
            r.weight@ == spec_u64_to_le_bytes(weight),
    {
        let e = vstd::bytes::u64_to_le_bytes(expires_at as u64);
        let w = vstd::bytes::u64_to_le_bytes(weight);
        New { expires_at: read8(e.as_slice(), 0), weight: read8(w.as_slice(), 0) }
    }

    /// The instruction data.
    pub fn to_bytes(&self) -> (r: Vec<u8>)
        ensures
            r@ == seq![discriminator_of(BoostInstruction::New)] + self.expires_at@ + self.weight@,
    {
        let mut v = encode(BoostInstruction::New, vstd::array::array_as_slice(&self.expires_at));
        append_bytes(&mut v, vstd::array::array_as_slice(&self.weight));
        v
    }

    /// Reads the arguments: exactly sixteen bytes.
    pub fn try_from_bytes(data: &[u8]) -> (r: Result<New, ProgramError>)
        ensures
            r is Ok <==> data@.len() == 16,
            r is Err ==> r == Err::<New, ProgramError>(ProgramError::InvalidInstructionData),
            r matches Ok(args) ==> args.expires_at@ + args.weight@ == data@,
    {
        if data.len() != 16 {
            return Err(ProgramError::InvalidInstructionData);
        }
        let expires_at = read8(data, 0);
        let weight = read8(data, 8);
        assert(data@.subrange(0, 8) + data@.subrange(8, 16) =~= data@);
        Ok(New { expires_at, weight })
    }

    /// The expiry time.
    pub fn expires_at(&self) -> (r: i64)
        ensures
            r == spec_u64_from_le_bytes(self.expires_at@) as i64,
    {
        vstd::bytes::u64_from_le_bytes(vstd::array::array_as_slice(&self.expires_at)) as i64
    }

    /// The weight.
    pub fn weight(&self) -> (r: u64)
        ensures
            r == spec_u64_from_le_bytes(self.weight@),
    {
        vstd::bytes::u64_from_le_bytes(vstd::array::array_as_slice(&self.weight))
    }
}

/// Arguments of `UpdateAdmin`: the new admin.
#[derive(Clone, Copy, Debug)]
pub struct UpdateAdmin {
    pub new_admin: Pubkey,
}

impl UpdateAdmin {
    /// The instruction data.
    pub fn to_bytes(&self) -> (r: Vec<u8>)
        ensures
            r@ == seq![discriminator_of(BoostInstruction::UpdateAdmin)] + self.new_admin.bytes@,
    {
        encode(BoostInstruction::UpdateAdmin, vstd::array::array_as_slice(&self.new_admin.bytes))
    }

    /// Reads the arguments: exactly 32 bytes.
    pub fn try_from_bytes(data: &[u8]) -> (r: Result<UpdateAdmin, ProgramError>)
        ensures
            r is Ok <==> data@.len() == 32,
            r is Err ==> r == Err::<UpdateAdmin, ProgramError>(ProgramError::InvalidInstructionData),
            r matches Ok(args) ==> args.new_admin.bytes@ == data@,
    {
        if data.len() != 32 {
            return Err(ProgramError::InvalidInstructionData);
        }
        let bytes = read32(data, 0);
        assert(data@.subrange(0, 32) =~= data@);
        Ok(UpdateAdmin { new_admin: Pubkey { bytes } })
    }
}

/// Arguments of `UpdateBoost`: an expiry time and a weight (little-endian).
#[derive(Clone, Copy, Debug)]
pub struct UpdateBoost {
    pub expires_at: [u8; 8],
    pub weight: [u8; 8],
}

impl UpdateBoost {
    /// The arguments for `expires_at` and `weight`.
    pub fn new(expires_at: i64, weight: u64) -> (r: UpdateBoost)
        ensures
            r.expires_at@ == spec_u64_to_le_bytes(expires_at as u64),
            r.weight@ == spec_u64_to_le_bytes(weight),
    {
        let e = vstd::bytes::u64_to_le_bytes(expires_at as u64);
        let w = vstd::bytes::u64_to_le_bytes(weight);
        UpdateBoost { expires_at: read8(e.as_slice(), 0), weight: read8(w.as_slice(), 0) }
    }

    /// The instruction data.
    pub fn to_bytes(&self) -> (r: Vec<u8>)
        ensures
            r@ == seq![discriminator_of(BoostInstruction::UpdateBoost)] + self.expires_at@ + self.weight@,
    {
        let mut v = encode(BoostInstruction::UpdateBoost, vstd::array::array_as_slice(&self.expires_at));
        append_bytes(&mut v, vstd::array::array_as_slice(&self.weight));
        v
    }

    /// Reads the arguments: exactly sixteen bytes.
    pub fn try_from_bytes(data: &[u8]) -> (r: Result<UpdateBoost, ProgramError>)
        ensures
            r is Ok <==> data@.len() == 16,
            r is Err ==> r == Err::<UpdateBoost, ProgramError>(ProgramError::InvalidInstructionData),
            r matches Ok(args) ==> args.expires_at@ + args.weight@ == data@,
    {
        if data.len() != 16 {
            return Err(ProgramError::InvalidInstructionData);
        }
        let expires_at = read8(data, 0);
        let weight = read8(data, 8);
        assert(data@.subrange(0, 8) + data@.subrange(8, 16) =~= data@);
        Ok(UpdateBoost { expires_at, weight })
    }

    /// The expiry time.
    pub fn expires_at(&self) -> (r: i64)
        ensures
            r == spec_u64_from_le_bytes(self.expires_at@) as i64,
    {
        vstd::bytes::u64_from_le_bytes(vstd::array::array_as_slice(&self.expires_at)) as i64
    }

    /// The weight.
    pub fn weight(&self) -> (r: u64)
        ensures
            r == spec_u64_from_le_bytes(self.weight@),
    {
        vstd::bytes::u64_from_le_bytes(vstd::array::array_as_slice(&self.weight))
    }
}

/// Law: instruction arguments read back as written: an amount or weight encoded by `new`
/// decodes (by `amount`/`weight`) to the same number, and so does an expiry (by `expires_at`).
pub proof fn law_args_round_trip(amount: u64, expires_at: i64)
    ensures
        spec_u64_from_le_bytes(spec_u64_to_le_bytes(amount)) == amount,
        spec_u64_from_le_bytes(spec_u64_to_le_bytes(expires_at as u64)) as i64 == expires_at,
{
    vstd::bytes::lemma_auto_spec_u64_to_from_le_bytes();
    assert(spec_u64_from_le_bytes(spec_u64_to_le_bytes(amount)) == amount);
    assert(spec_u64_from_le_bytes(spec_u64_to_le_bytes(expires_at as u64)) == expires_at as u64);
    assert((expires_at as u64) as i64 == expires_at) by (bit_vector);
}

} // verus!
