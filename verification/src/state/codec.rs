//! The byte layout of boost and stake accounts: an eight-byte header whose first byte is the
//! account's discriminator, then the fields in declaration order, little-endian.
use vstd::prelude::*;
use vstd::bytes::{
    spec_u128_from_le_bytes, spec_u128_to_le_bytes, spec_u64_from_le_bytes, spec_u64_to_le_bytes,
    u128_from_le_bytes, u128_to_le_bytes, u64_from_le_bytes, u64_to_le_bytes,
};

use crate::error::ProgramError;
use crate::instruction::{append_bytes, read32};
use crate::numeric::Numeric;
use crate::pubkey::Pubkey;
use crate::state::boost::Boost;
use crate::state::config::Config;
use crate::state::stake::Stake;

verus! {

/// The first byte of a boost account.
pub const BOOST_DISCRIMINATOR: u8 = 100;
/// The first byte of a config account.
pub const CONFIG_DISCRIMINATOR: u8 = 101;
/// The first byte of a stake account.
pub const STAKE_DISCRIMINATOR: u8 = 102;
/// The bytes before an account's fields.
pub const HEADER_LEN: usize = 8;
/// The bytes of a boost's fields.
pub const BOOST_LEN: usize = 104;
/// The bytes of a config's fields.
pub const CONFIG_LEN: usize = 8264;
/// The bytes of a stake's fields.
pub const STAKE_LEN: usize = 1144;

/// An `i64` in little-endian bytes.
pub open spec fn i64_bytes(x: i64) -> Seq<u8> {
    spec_u64_to_le_bytes(x as u64)
}

/// A fixed-point number in little-endian bytes of its raw bits.
pub open spec fn numeric_bytes(x: Numeric) -> Seq<u8> {
    spec_u128_to_le_bytes(x.bits as u128)
}

/// `s` holds the fields of boost `b`.
pub open spec fn boost_layout(b: Boost, s: Seq<u8>) -> bool {
    &&& s.len() == BOOST_LEN
    &&& s.subrange(0, 8) == i64_bytes(b.expires_at)
    &&& s.subrange(8, 24) == numeric_bytes(b.last_rewards_factor)
    &&& s.subrange(24, 56) == b.mint.bytes@
    &&& s.subrange(56, 72) == numeric_bytes(b.rewards_factor)
    &&& s.subrange(72, 80) == spec_u64_to_le_bytes(b.total_deposits)
    &&& s.subrange(80, 88) == spec_u64_to_le_bytes(b.total_stakers)
    &&& s.subrange(88, 96) == spec_u64_to_le_bytes(b.weight)
    &&& s.subrange(96, 104) == spec_u64_to_le_bytes(b.withdraw_fee)
}

/// `s` holds the fields of stake `st`.
pub open spec fn stake_layout(st: Stake, s: Seq<u8>) -> bool {
    &&& s.len() == STAKE_LEN
    &&& s.subrange(0, 32) == st.authority.bytes@
    &&& s.subrange(32, 40) == spec_u64_to_le_bytes(st.balance)
    &&& s.subrange(40, 72) == st.boost.bytes@
    &&& s.subrange(72, 80) == i64_bytes(st.last_claim_at)
    &&& s.subrange(80, 88) == i64_bytes(st.last_deposit_at)
    &&& s.subrange(88, 96) == i64_bytes(st.last_withdraw_at)
    &&& s.subrange(96, 112) == numeric_bytes(st.last_rewards_factor)
    &&& s.subrange(112, 120) == spec_u64_to_le_bytes(st.rewards)
    &&& s.subrange(120, 1144) == st._buffer@
}

proof fn lemma_i64_bytes_injective(x: i64, y: i64)
    requires
        i64_bytes(x) == i64_bytes(y),
    ensures
        x == y,
{
    vstd::bytes::lemma_auto_spec_u64_to_from_le_bytes();
    assert(spec_u64_from_le_bytes(i64_bytes(x)) == x as u64);
    assert(spec_u64_from_le_bytes(i64_bytes(y)) == y as u64);
    assert((x as u64) == (y as u64) ==> x == y) by (bit_vector);
}

proof fn lemma_u64_bytes_injective(x: u64, y: u64)
    requires
        spec_u64_to_le_bytes(x) == spec_u64_to_le_bytes(y),
    ensures
        x == y,
{
    vstd::bytes::lemma_auto_spec_u64_to_from_le_bytes();
    assert(spec_u64_from_le_bytes(spec_u64_to_le_bytes(x)) == x);
}

proof fn lemma_numeric_bytes_injective(x: Numeric, y: Numeric)
    requires
        numeric_bytes(x) == numeric_bytes(y),
    ensures
        x == y,
{
    vstd::bytes::lemma_auto_spec_u128_to_from_le_bytes();
    assert(numeric_bytes(x).len() == 16);
    assert(numeric_bytes(y).len() == 16);
    assert(spec_u128_from_le_bytes(numeric_bytes(x)) == x.bits as u128);
    assert(spec_u128_from_le_bytes(numeric_bytes(y)) == y.bits as u128);
    let a = x.bits;
    let b = y.bits;
    assert((a as u128) == (b as u128) ==> a == b) by (bit_vector);
}

proof fn lemma_key_bytes_injective(x: Pubkey, y: Pubkey)
    requires
        x.bytes@ == y.bytes@,
    ensures
        x == y,
{
    assert(x.bytes =~= y.bytes);
}

/// A boost's layout determines the boost: two boosts laid out as the same bytes are equal.
pub proof fn lemma_boost_layout_unique(a: Boost, b: Boost, s: Seq<u8>)
    requires
        boost_layout(a, s),
        boost_layout(b, s),
    ensures
        a == b,
{
    lemma_i64_bytes_injective(a.expires_at, b.expires_at);
    lemma_numeric_bytes_injective(a.last_rewards_factor, b.last_rewards_factor);
    lemma_key_bytes_injective(a.mint, b.mint);
    lemma_numeric_bytes_injective(a.rewards_factor, b.rewards_factor);
    lemma_u64_bytes_injective(a.total_deposits, b.total_deposits);
    lemma_u64_bytes_injective(a.total_stakers, b.total_stakers);
    lemma_u64_bytes_injective(a.weight, b.weight);
    lemma_u64_bytes_injective(a.withdraw_fee, b.withdraw_fee);
}

/// A stake's layout determines the stake: two stakes laid out as the same bytes are equal.
pub proof fn lemma_stake_layout_unique(a: Stake, b: Stake, s: Seq<u8>)
    requires
        stake_layout(a, s),
        stake_layout(b, s),
    ensures
        a == b,
{
    lemma_key_bytes_injective(a.authority, b.authority);
    lemma_u64_bytes_injective(a.balance, b.balance);
    lemma_key_bytes_injective(a.boost, b.boost);
    lemma_i64_bytes_injective(a.last_claim_at, b.last_claim_at);
    lemma_i64_bytes_injective(a.last_deposit_at, b.last_deposit_at);
    lemma_i64_bytes_injective(a.last_withdraw_at, b.last_withdraw_at);
    lemma_numeric_bytes_injective(a.last_rewards_factor, b.last_rewards_factor);
    lemma_u64_bytes_injective(a.rewards, b.rewards);
    assert(a._buffer =~= b._buffer);
}

fn read_i64(data: &[u8], at: usize) -> (r: i64)
    requires
        at + 8 <= data@.len(),
    ensures
        i64_bytes(r) == data@.subrange(at as int, at + 8),
{
    let _n = data.len();
    let x = u64_from_le_bytes(vstd::slice::slice_subrange(data, at, at + 8));
    let r = x as i64;
    proof {
        vstd::bytes::lemma_auto_spec_u64_to_from_le_bytes();
        assert((x as i64) as u64 == x) by (bit_vector);
        assert(spec_u64_to_le_bytes(spec_u64_from_le_bytes(data@.subrange(at as int, at + 8)))
            == data@.subrange(at as int, at + 8));
    }
    r
}

fn read_u64(data: &[u8], at: usize) -> (r: u64)
    requires
        at + 8 <= data@.len(),
    ensures
        spec_u64_to_le_bytes(r) == data@.subrange(at as int, at + 8),
{
    let _n = data.len();
    let r = u64_from_le_bytes(vstd::slice::slice_subrange(data, at, at + 8));
    proof {
        vstd::bytes::lemma_auto_spec_u64_to_from_le_bytes();
        assert(spec_u64_to_le_bytes(spec_u64_from_le_bytes(data@.subrange(at as int, at + 8)))
            == data@.subrange(at as int, at + 8));
    }
    r
}

fn read_numeric(data: &[u8], at: usize) -> (r: Numeric)
    requires
        at + 16 <= data@.len(),
    ensures
        numeric_bytes(r) == data@.subrange(at as int, at + 16),
{
    let _n = data.len();
    let x = u128_from_le_bytes(vstd::slice::slice_subrange(data, at, at + 16));
    let bits = x as i128;
    proof {
        vstd::bytes::lemma_auto_spec_u128_to_from_le_bytes();
        assert((x as i128) as u128 == x) by (bit_vector);
    }
    Numeric { bits }
}

fn write_i64(out: &mut Vec<u8>, x: i64)
    ensures
        final(out)@ == old(out)@ + i64_bytes(x),
{
    let b = u64_to_le_bytes(x as u64);
    append_bytes(out, b.as_slice());
}

fn write_u64(out: &mut Vec<u8>, x: u64)
    ensures
        final(out)@ == old(out)@ + spec_u64_to_le_bytes(x),
{
    let b = u64_to_le_bytes(x);
    append_bytes(out, b.as_slice());
}

fn write_numeric(out: &mut Vec<u8>, x: Numeric)
    ensures
        final(out)@ == old(out)@ + numeric_bytes(x),
{
    let b = u128_to_le_bytes(x.bits as u128);
    append_bytes(out, b.as_slice());
}

/// The header of an account with the given discriminator and the body that follows it are
/// well formed: the discriminator matches and the body has exactly `len` bytes.
pub open spec fn account_ok(data: Seq<u8>, discriminator: u8, len: int) -> bool {
    data[0] == discriminator && data.len() == HEADER_LEN + len
}

impl Boost {
    /// The boost's fields as bytes (without the account header).
    pub fn to_bytes(&self) -> (r: Vec<u8>)
        ensures
            boost_layout(*self, r@),
    {
        let mut out: Vec<u8> = Vec::new();
        write_i64(&mut out, self.expires_at);
        write_numeric(&mut out, self.last_rewards_factor);
        append_bytes(&mut out, &self.mint.bytes);
        write_numeric(&mut out, self.rewards_factor);
        write_u64(&mut out, self.total_deposits);
        write_u64(&mut out, self.total_stakers);
        write_u64(&mut out, self.weight);
        write_u64(&mut out, self.withdraw_fee);
        proof {
            vstd::bytes::lemma_auto_spec_u64_to_from_le_bytes();
            vstd::bytes::lemma_auto_spec_u128_to_from_le_bytes();
            let a = i64_bytes(self.expires_at);
            let b = numeric_bytes(self.last_rewards_factor);
            let c = self.mint.bytes@;
            let d = numeric_bytes(self.rewards_factor);
            let e = spec_u64_to_le_bytes(self.total_deposits);
            let f = spec_u64_to_le_bytes(self.total_stakers);
            let g = spec_u64_to_le_bytes(self.weight);
            let h = spec_u64_to_le_bytes(self.withdraw_fee);
            assert(a.len() == 8 && b.len() == 16 && d.len() == 16);
            assert(e.len() == 8 && f.len() == 8 && g.len() == 8 && h.len() == 8);
            let all = a + b + c + d + e + f + g + h;
            assert(out@ =~= all);
            assert(all.subrange(0, 8) =~= a);
            assert(all.subrange(8, 24) =~= b);
            assert(all.subrange(24, 56) =~= c);
            assert(all.subrange(56, 72) =~= d);
            assert(all.subrange(72, 80) =~= e);
            assert(all.subrange(80, 88) =~= f);
            assert(all.subrange(88, 96) =~= g);
            assert(all.subrange(96, 104) =~= h);
        }
        out
    }

    /// Reads a boost account: its discriminator, then its fields. `InvalidAccountData` when
    /// the discriminator is not the boost's or the size is not a boost's.
    pub fn try_from_bytes(data: &[u8]) -> (r: Result<Boost, ProgramError>)
        requires
            data@.len() > 0,
            data@[0] == BOOST_DISCRIMINATOR ==> data@.len() >= HEADER_LEN,
        ensures
            r is Ok <==> account_ok(data@, BOOST_DISCRIMINATOR, BOOST_LEN as int),
            r matches Ok(b) ==> boost_layout(b, data@.skip(HEADER_LEN as int)),
            r matches Err(e) ==> e == ProgramError::InvalidAccountData,
    {
        if data[0] != BOOST_DISCRIMINATOR || data.len() != HEADER_LEN + BOOST_LEN {
            return Err(ProgramError::InvalidAccountData);
        }
        let b = Boost {
            expires_at: read_i64(data, 8),
            last_rewards_factor: read_numeric(data, 16),
            mint: Pubkey { bytes: read32(data, 32) },
            rewards_factor: read_numeric(data, 64),
            total_deposits: read_u64(data, 80),
            total_stakers: read_u64(data, 88),
            weight: read_u64(data, 96),
            withdraw_fee: read_u64(data, 104),
        };
        proof {
            let s = data@.skip(8);
            assert(s.subrange(0, 8) =~= data@.subrange(8, 16));
            assert(s.subrange(8, 24) =~= data@.subrange(16, 32));
            assert(s.subrange(24, 56) =~= data@.subrange(32, 64));
            assert(s.subrange(56, 72) =~= data@.subrange(64, 80));
            assert(s.subrange(72, 80) =~= data@.subrange(80, 88));
            assert(s.subrange(80, 88) =~= data@.subrange(88, 96));
            assert(s.subrange(88, 96) =~= data@.subrange(96, 104));
            assert(s.subrange(96, 104) =~= data@.subrange(104, 112));
        }
        Ok(b)
    }
}

fn read_buffer(data: &[u8], at: usize) -> (r: [u8; 1024])
    requires
        at + 1024 <= data@.len(),
    ensures
        r@ == data@.subrange(at as int, at + 1024),
{
    let mut out = [0u8; 1024];
    let n = data.len();
    let mut i: usize = 0;
    while i < 1024
        invariant
            0 <= i <= 1024,
            n == data@.len(),
            at + 1024 <= n,
            forall|k: int| 0 <= k < i ==> out@[k] == data@[at + k],
        decreases 1024 - i,
    {
        out[i] = data[at + i];
        i += 1;
    }
    assert(out@ =~= data@.subrange(at as int, at + 1024));
    out
}

impl Stake {
    /// The stake's fields as bytes (without the account header).
    pub fn to_bytes(&self) -> (r: Vec<u8>)
        ensures
            stake_layout(*self, r@),
    {
        let mut out: Vec<u8> = Vec::new();
        append_bytes(&mut out, &self.authority.bytes);
        write_u64(&mut out, self.balance);
        append_bytes(&mut out, &self.boost.bytes);
        write_i64(&mut out, self.last_claim_at);
        write_i64(&mut out, self.last_deposit_at);
        write_i64(&mut out, self.last_withdraw_at);
        write_numeric(&mut out, self.last_rewards_factor);
        write_u64(&mut out, self.rewards);
        append_bytes(&mut out, &self._buffer);
        proof {
            vstd::bytes::lemma_auto_spec_u64_to_from_le_bytes();
            vstd::bytes::lemma_auto_spec_u128_to_from_le_bytes();
            let a = self.authority.bytes@;
            let b = spec_u64_to_le_bytes(self.balance);
            let c = self.boost.bytes@;
            let d = i64_bytes(self.last_claim_at);
            let e = i64_bytes(self.last_deposit_at);
            let f = i64_bytes(self.last_withdraw_at);
            let g = numeric_bytes(self.last_rewards_factor);
            let h = spec_u64_to_le_bytes(self.rewards);
            let k = self._buffer@;
            assert(b.len() == 8 && d.len() == 8 && e.len() == 8 && f.len() == 8);
            assert(g.len() == 16 && h.len() == 8);
            let all = a + b + c + d + e + f + g + h + k;
            assert(out@ =~= all);
            assert(all.subrange(0, 32) =~= a);
            assert(all.subrange(32, 40) =~= b);
            assert(all.subrange(40, 72) =~= c);
            assert(all.subrange(72, 80) =~= d);
            assert(all.subrange(80, 88) =~= e);
            assert(all.subrange(88, 96) =~= f);
            assert(all.subrange(96, 112) =~= g);
            assert(all.subrange(112, 120) =~= h);
            assert(all.subrange(120, 1144) =~= k);
        }
        out
    }

    /// Reads a stake account: its discriminator, then its fields. `InvalidAccountData` when
    /// the discriminator is not the stake's or the size is not a stake's.
    pub fn try_from_bytes(data: &[u8]) -> (r: Result<Stake, ProgramError>)
        requires
            data@.len() > 0,
            data@[0] == STAKE_DISCRIMINATOR ==> data@.len() >= HEADER_LEN,
        ensures
            r is Ok <==> account_ok(data@, STAKE_DISCRIMINATOR, STAKE_LEN as int),
            r matches Ok(st) ==> stake_layout(st, data@.skip(HEADER_LEN as int)),
            r matches Err(e) ==> e == ProgramError::InvalidAccountData,
    {
        if data[0] != STAKE_DISCRIMINATOR || data.len() != HEADER_LEN + STAKE_LEN {
            return Err(ProgramError::InvalidAccountData);
        }
        let st = Stake {
            authority: Pubkey { bytes: read32(data, 8) },
            balance: read_u64(data, 40),
            boost: Pubkey { bytes: read32(data, 48) },
            last_claim_at: read_i64(data, 80),
            last_deposit_at: read_i64(data, 88),
            last_withdraw_at: read_i64(data, 96),
            last_rewards_factor: read_numeric(data, 104),
            rewards: read_u64(data, 120),
            _buffer: read_buffer(data, 128),
        };
        proof {
            let s = data@.skip(8);
            assert(s.subrange(0, 32) =~= data@.subrange(8, 40));
            assert(s.subrange(32, 40) =~= data@.subrange(40, 48));
            assert(s.subrange(40, 72) =~= data@.subrange(48, 80));
            assert(s.subrange(72, 80) =~= data@.subrange(80, 88));
            assert(s.subrange(80, 88) =~= data@.subrange(88, 96));
            assert(s.subrange(88, 96) =~= data@.subrange(96, 104));
            assert(s.subrange(96, 112) =~= data@.subrange(104, 120));
            assert(s.subrange(112, 120) =~= data@.subrange(120, 128));
            assert(s.subrange(120, 1144) =~= data@.subrange(128, 1152));
        }
        Ok(st)
    }
}

/// Reading back a boost written under a boost header gives the same boost: the data is a
/// well-formed boost account, and whatever boost its body lays out is the written one.
pub proof fn law_boost_read_after_write(b: Boost, body: Seq<u8>, header: Seq<u8>, read: Boost)
    requires
        boost_layout(b, body),
        header.len() == HEADER_LEN,
        header[0] == BOOST_DISCRIMINATOR,
        boost_layout(read, (header + body).skip(HEADER_LEN as int)),
    ensures
        account_ok(header + body, BOOST_DISCRIMINATOR, BOOST_LEN as int),
        read == b,
{
    assert((header + body).skip(HEADER_LEN as int) =~= body);
    lemma_boost_layout_unique(read, b, body);
}

/// Reading back a stake written under a stake header gives the same stake.
pub proof fn law_stake_read_after_write(st: Stake, body: Seq<u8>, header: Seq<u8>, read: Stake)
    requires
        stake_layout(st, body),
        header.len() == HEADER_LEN,
        header[0] == STAKE_DISCRIMINATOR,
        stake_layout(read, (header + body).skip(HEADER_LEN as int)),
    ensures
        account_ok(header + body, STAKE_DISCRIMINATOR, STAKE_LEN as int),
        read == st,
{
    assert((header + body).skip(HEADER_LEN as int) =~= body);
    lemma_stake_layout_unique(read, st, body);
}

/// `s` holds the fields of config `c`; the boost list takes 32 bytes per slot.
pub open spec fn config_layout(c: Config, s: Seq<u8>) -> bool {
    &&& s.len() == CONFIG_LEN
    &&& s.subrange(0, 32) == c.admin.bytes@
    &&& forall|i: int| 0 <= i < 256 ==> #[trigger] s.subrange(32 + 32 * i, 64 + 32 * i) == c.boosts@[i].bytes@
    &&& s.subrange(8224, 8232) == spec_u64_to_le_bytes(c.len)
    &&& s.subrange(8232, 8240) == spec_u64_to_le_bytes(c.take_rate)
    &&& s.subrange(8240, 8248) == spec_u64_to_le_bytes(c.total_weight)
    &&& s.subrange(8248, 8264) == numeric_bytes(c.rewards_factor)
}

/// A config's layout determines the config.
pub proof fn lemma_config_layout_unique(a: Config, b: Config, s: Seq<u8>)
    requires
        config_layout(a, s),
        config_layout(b, s),
    ensures
        a == b,
{
    lemma_key_bytes_injective(a.admin, b.admin);
    assert forall|i: int| 0 <= i < 256 implies a.boosts@[i] == b.boosts@[i] by {
        assert(s.subrange(32 + 32 * i, 64 + 32 * i) == a.boosts@[i].bytes@);
        lemma_key_bytes_injective(a.boosts@[i], b.boosts@[i]);
    }
    assert(a.boosts =~= b.boosts);
    lemma_u64_bytes_injective(a.len, b.len);
    lemma_u64_bytes_injective(a.take_rate, b.take_rate);
    lemma_u64_bytes_injective(a.total_weight, b.total_weight);
    lemma_numeric_bytes_injective(a.rewards_factor, b.rewards_factor);
}

/// Reading back a config written under a config header gives the same config.
pub proof fn law_config_read_after_write(c: Config, body: Seq<u8>, header: Seq<u8>, read: Config)
    requires
        config_layout(c, body),
        header.len() == HEADER_LEN,
        header[0] == CONFIG_DISCRIMINATOR,
        config_layout(read, (header + body).skip(HEADER_LEN as int)),
    ensures
        account_ok(header + body, CONFIG_DISCRIMINATOR, CONFIG_LEN as int),
        read == c,
{
    assert((header + body).skip(HEADER_LEN as int) =~= body);
    lemma_config_layout_unique(read, c, body);
}

impl Config {
    /// The config's fields as bytes (without the account header).
    pub fn to_bytes(&self) -> (r: Vec<u8>)
        ensures
            config_layout(*self, r@),
    {
        let mut out: Vec<u8> = Vec::new();
        append_bytes(&mut out, &self.admin.bytes);
        let mut i: usize = 0;
        while i < 256
            invariant
                0 <= i <= 256,
                out@.len() == 32 + 32 * i,
                out@.subrange(0, 32) == self.admin.bytes@,
                forall|k: int| 0 <= k < i ==> #[trigger] out@.subrange(32 + 32 * k, 64 + 32 * k) == self.boosts@[k].bytes@,
            decreases 256 - i,
        {
            let ghost before = out@;
            append_bytes(&mut out, &self.boosts[i].bytes);
            proof {
                assert(out@.subrange(0, 32) =~= before.subrange(0, 32));
                assert forall|k: int| 0 <= k < i + 1 implies #[trigger] out@.subrange(32 + 32 * k, 64 + 32 * k)
                    == self.boosts@[k].bytes@ by {
                    if k < i {
                        assert(out@.subrange(32 + 32 * k, 64 + 32 * k) =~= before.subrange(32 + 32 * k, 64 + 32 * k));
                    } else {
                        assert(out@.subrange(32 + 32 * k, 64 + 32 * k) =~= self.boosts@[k].bytes@);
                    }
                }
            }
            i += 1;
        }
        let ghost listed = out@;
        write_u64(&mut out, self.len);
        write_u64(&mut out, self.take_rate);
        write_u64(&mut out, self.total_weight);
        write_numeric(&mut out, self.rewards_factor);
        proof {
            vstd::bytes::lemma_auto_spec_u64_to_from_le_bytes();
            vstd::bytes::lemma_auto_spec_u128_to_from_le_bytes();
            let a = spec_u64_to_le_bytes(self.len);
            let b = spec_u64_to_le_bytes(self.take_rate);
            let c = spec_u64_to_le_bytes(self.total_weight);
            let d = numeric_bytes(self.rewards_factor);
            assert(a.len() == 8 && b.len() == 8 && c.len() == 8 && d.len() == 16);
            assert(out@ =~= listed + a + b + c + d);
            assert(out@.subrange(0, 32) =~= listed.subrange(0, 32));
            assert forall|k: int| 0 <= k < 256 implies #[trigger] out@.subrange(32 + 32 * k, 64 + 32 * k)
                == self.boosts@[k].bytes@ by {
                assert(out@.subrange(32 + 32 * k, 64 + 32 * k) =~= listed.subrange(32 + 32 * k, 64 + 32 * k));
            }
            assert(out@.subrange(8224, 8232) =~= a);
            assert(out@.subrange(8232, 8240) =~= b);
            assert(out@.subrange(8240, 8248) =~= c);
            assert(out@.subrange(8248, 8264) =~= d);
        }
        out
    }

    /// Reads a config account: its discriminator, then its fields. `InvalidAccountData` when
    /// the discriminator is not the config's or the size is not a config's.
    pub fn try_from_bytes(data: &[u8]) -> (r: Result<Config, ProgramError>)
        requires
            data@.len() > 0,
            data@[0] == CONFIG_DISCRIMINATOR ==> data@.len() >= HEADER_LEN,
        ensures
            r is Ok <==> account_ok(data@, CONFIG_DISCRIMINATOR, CONFIG_LEN as int),
            r matches Ok(c) ==> config_layout(c, data@.skip(HEADER_LEN as int)),
            r matches Err(e) ==> e == ProgramError::InvalidAccountData,
    {
        if data[0] != CONFIG_DISCRIMINATOR || data.len() != HEADER_LEN + CONFIG_LEN {
            return Err(ProgramError::InvalidAccountData);
        }
        let ghost s = data@.skip(8);
        let mut boosts = [Pubkey { bytes: [0u8; 32] }; 256];
        let mut i: usize = 0;
        while i < 256
            invariant
                0 <= i <= 256,
                data@.len() == 8 + CONFIG_LEN,
                s == data@.skip(8),
                forall|k: int| 0 <= k < i ==> #[trigger] s.subrange(32 + 32 * k, 64 + 32 * k) == boosts@[k].bytes@,
            decreases 256 - i,
        {
            let key = Pubkey { bytes: read32(data, 40 + 32 * i) };
            boosts[i] = key;
            proof {
                assert(s.subrange(32 + 32 * i, 64 + 32 * i) =~= data@.subrange(40 + 32 * i, 72 + 32 * i));
            }
            i += 1;
        }
        let c = Config {
            admin: Pubkey { bytes: read32(data, 8) },
            boosts,
            len: read_u64(data, 8232),
            take_rate: read_u64(data, 8240),
            total_weight: read_u64(data, 8248),
            rewards_factor: read_numeric(data, 8256),
        };
        proof {
            assert(s.subrange(0, 32) =~= data@.subrange(8, 40));
            assert(s.subrange(8224, 8232) =~= data@.subrange(8232, 8240));
            assert(s.subrange(8232, 8240) =~= data@.subrange(8240, 8248));
            assert(s.subrange(8240, 8248) =~= data@.subrange(8248, 8256));
            assert(s.subrange(8248, 8264) =~= data@.subrange(8256, 8272));
        }
        Ok(c)
    }
}

} // verus!
