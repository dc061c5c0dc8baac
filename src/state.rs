use vstd::prelude::*;

use crate::error::ProcessError;

verus! {

/// Width of an encoded profile record in bytes.
pub const PROFILE_LEN: usize = 106;

/// The profile record as mathematical values.
pub struct ProfileModel {
    pub is_initialized: bool,
    pub version: u8,
    pub owner: Seq<u8>,
    pub nft_mint: Seq<u8>,
    pub nft_token: Seq<u8>,
    pub updated_at: u64,
}

/// A holder's profile record.
pub struct NFTProfile {
    pub is_initialized: bool,
    pub version: u8,
    pub owner: [u8; 32],
    pub nft_mint: [u8; 32],
    pub nft_token: [u8; 32],
    pub updated_at: u64,
}

impl View for NFTProfile {
    type V = ProfileModel;

    open spec fn view(&self) -> ProfileModel {
        ProfileModel {
            is_initialized: self.is_initialized,
            version: self.version,
            owner: self.owner@,
            nft_mint: self.nft_mint@,
            nft_token: self.nft_token@,
            updated_at: self.updated_at,
        }
    }
}

/// The eight little-endian bytes of `v`.
pub open spec fn le_bytes_of(v: u64) -> Seq<u8> {
    seq![
        (v & 0xff) as u8,
        ((v >> 8u64) & 0xff) as u8,
        ((v >> 16u64) & 0xff) as u8,
        ((v >> 24u64) & 0xff) as u8,
        ((v >> 32u64) & 0xff) as u8,
        ((v >> 40u64) & 0xff) as u8,
        ((v >> 48u64) & 0xff) as u8,
        ((v >> 56u64) & 0xff) as u8,
    ]
}

/// The integer whose little-endian bytes are the first eight of `b`.
pub open spec fn u64_from_le(b: Seq<u8>) -> u64 {
    (b[0] as u64) | ((b[1] as u64) << 8u64) | ((b[2] as u64) << 16u64) | ((b[3] as u64)
        << 24u64) | ((b[4] as u64) << 32u64) | ((b[5] as u64) << 40u64) | ((b[6] as u64)
        << 48u64) | ((b[7] as u64) << 56u64)
}

/// Keys of a model have the width of an identity.
pub open spec fn model_well_formed(m: ProfileModel) -> bool {
    m.owner.len() == 32 && m.nft_mint.len() == 32 && m.nft_token.len() == 32
}

/// The 106 bytes of a record: flag, version, owner, mint, token account,
/// timestamp.
pub open spec fn encode_model(m: ProfileModel) -> Seq<u8> {
    seq![if m.is_initialized { 1u8 } else { 0u8 }, m.version] + m.owner + m.nft_mint + m.nft_token
        + le_bytes_of(m.updated_at)
}

/// The record held in the first 106 bytes of `s`; none where `s` is shorter
/// or its flag byte is neither 0 nor 1.
pub open spec fn decode_model(s: Seq<u8>) -> Option<ProfileModel> {
    if s.len() >= PROFILE_LEN && s[0] <= 1 {
        Some(
            ProfileModel {
                is_initialized: s[0] == 1,
                version: s[1],
                owner: s.subrange(2, 34),
                nft_mint: s.subrange(34, 66),
                nft_token: s.subrange(66, 98),
                updated_at: u64_from_le(s.subrange(98, 106)),
            },
        )
    } else {
        None
    }
}

proof fn lemma_le_bytes_of_u64(v: u64)
    ensures
        u64_from_le(le_bytes_of(v)) == v,
{
    assert(((v & 0xff) as u8 as u64) | ((((v >> 8u64) & 0xff) as u8 as u64) << 8u64) | ((((v
        >> 16u64) & 0xff) as u8 as u64) << 16u64) | ((((v >> 24u64) & 0xff) as u8 as u64)
        << 24u64) | ((((v >> 32u64) & 0xff) as u8 as u64) << 32u64) | ((((v >> 40u64) & 0xff) as u8
        as u64) << 40u64) | ((((v >> 48u64) & 0xff) as u8 as u64) << 48u64) | ((((v >> 56u64)
        & 0xff) as u8 as u64) << 56u64) == v) by (bit_vector);
}

proof fn lemma_u64_of_le_bytes(b: Seq<u8>)
    requires
        b.len() == 8,
    ensures
        le_bytes_of(u64_from_le(b)) == b,
{
    let b0 = b[0];
    let b1 = b[1];
    let b2 = b[2];
    let b3 = b[3];
    let b4 = b[4];
    let b5 = b[5];
    let b6 = b[6];
    let b7 = b[7];
    let v = u64_from_le(b);
    assert(v == (b0 as u64) | ((b1 as u64) << 8u64) | ((b2 as u64) << 16u64) | ((b3 as u64)
        << 24u64) | ((b4 as u64) << 32u64) | ((b5 as u64) << 40u64) | ((b6 as u64) << 48u64) | ((
    b7 as u64) << 56u64));
    assert(v == (b0 as u64) | ((b1 as u64) << 8u64) | ((b2 as u64) << 16u64) | ((b3 as u64)
        << 24u64) | ((b4 as u64) << 32u64) | ((b5 as u64) << 40u64) | ((b6 as u64) << 48u64) | ((
    b7 as u64) << 56u64) ==> (v & 0xff) as u8 == b0 && ((v >> 8u64) & 0xff) as u8 == b1 && ((v
        >> 16u64) & 0xff) as u8 == b2 && ((v >> 24u64) & 0xff) as u8 == b3 && ((v >> 32u64)
        & 0xff) as u8 == b4 && ((v >> 40u64) & 0xff) as u8 == b5 && ((v >> 48u64) & 0xff) as u8
        == b6 && ((v >> 56u64) & 0xff) as u8 == b7) by (bit_vector);
    assert(le_bytes_of(v) =~= b);
}

/// Decoding a well-formed buffer and encoding the result gives the buffer
/// back, and a buffer whose flag byte is neither 0 nor 1 does not decode.
pub proof fn lemma_decode_encode(s: Seq<u8>)
    requires
        s.len() == PROFILE_LEN,
    ensures
        s[0] <= 1 ==> decode_model(s) is Some && encode_model(decode_model(s)->0) == s,
        s[0] > 1 ==> decode_model(s) is None,
{
    if s[0] <= 1 {
        let m = decode_model(s)->0;
        lemma_u64_of_le_bytes(s.subrange(98, 106));
        assert(encode_model(m) =~= s);
    }
}

/// Encoding a record and decoding the bytes gives the record back.
pub proof fn lemma_encode_decode(m: ProfileModel)
    requires
        model_well_formed(m),
    ensures
        decode_model(encode_model(m)) == Some(m),
{
    let s = encode_model(m);
    lemma_le_bytes_of_u64(m.updated_at);
    assert(s.subrange(2, 34) =~= m.owner);
    assert(s.subrange(34, 66) =~= m.nft_mint);
    assert(s.subrange(66, 98) =~= m.nft_token);
    assert(s.subrange(98, 106) =~= le_bytes_of(m.updated_at));
}

/// Copies the 32 bytes of `src` that start at `at`.
pub fn read_key(src: &[u8], at: usize) -> (r: [u8; 32])
    requires
        at + 32 <= src@.len(),
    ensures
        r@ == src@.subrange(at as int, at + 32),
{
    let n: usize = src.len();
    let mut r: [u8; 32] = [0u8; 32];
    let mut i: usize = 0;
    while i < 32
        invariant
            i <= 32,
            n == src@.len(),
            at + 32 <= src@.len(),
            r@.len() == 32,
            forall|j: int| 0 <= j < i ==> r@[j] == src@[at + j],
        decreases 32 - i,
    {
        r[i] = src[at + i];
        i = i + 1;
    }
    assert(r@ =~= src@.subrange(at as int, at + 32));
    r
}

fn read_u64_le(src: &[u8], at: usize) -> (r: u64)
    requires
        at + 8 <= src@.len(),
    ensures
        r == u64_from_le(src@.subrange(at as int, at + 8)),
{
    (src[at] as u64) | ((src[at + 1] as u64) << 8u64) | ((src[at + 2] as u64) << 16u64) | ((
    src[at + 3] as u64) << 24u64) | ((src[at + 4] as u64) << 32u64) | ((src[at + 5] as u64)
        << 40u64) | ((src[at + 6] as u64) << 48u64) | ((src[at + 7] as u64) << 56u64)
}

fn push_key(out: &mut Vec<u8>, key: &[u8; 32])
    ensures
        final(out)@ == old(out)@ + key@,
{
    let mut i: usize = 0;
    while i < 32
        invariant
            i <= 32,
            key@.len() == 32,
            out@ == old(out)@ + key@.subrange(0, i as int),
        decreases 32 - i,
    {
        out.push(key[i]);
        i = i + 1;
        assert(key@.subrange(0, i as int) =~= key@.subrange(0, i - 1) + seq![key@[i - 1]]);
    }
    assert(key@.subrange(0, 32) =~= key@);
}

impl NFTProfile {
    pub fn is_initialized(&self) -> (r: bool)
        ensures
            r == self.is_initialized,
    {
        self.is_initialized
    }

    /// Reads the record from the first 106 bytes of `src`.
    pub fn unpack_from_slice(src: &[u8]) -> (r: Result<NFTProfile, ProcessError>)
        requires
            src@.len() >= PROFILE_LEN,
        ensures
            match r {
                Ok(p) => decode_model(src@) == Some(p@),
                Err(e) => decode_model(src@) is None && e == ProcessError::InvalidAccountData,
            },
    {
        let flag = src[0];
        let is_initialized = if flag == 0 {
            false
        } else if flag == 1 {
            true
        } else {
            return Err(ProcessError::InvalidAccountData);
        };
        let p = NFTProfile {
            is_initialized,
            version: src[1],
            owner: read_key(src, 2),
            nft_mint: read_key(src, 34),
            nft_token: read_key(src, 66),
            updated_at: read_u64_le(src, 98),
        };
        Ok(p)
    }

    /// Reads a record from storage of exactly the record's width, whatever
    /// its flag says.
    pub fn unpack_unchecked(src: &[u8]) -> (r: Result<NFTProfile, ProcessError>)
        ensures
            match r {
                Ok(p) => src@.len() == PROFILE_LEN && decode_model(src@) == Some(p@),
                Err(e) => (src@.len() != PROFILE_LEN || decode_model(src@) is None) && e
                    == ProcessError::InvalidAccountData,
            },
    {
        if src.len() != PROFILE_LEN {
            return Err(ProcessError::InvalidAccountData);
        }
        NFTProfile::unpack_from_slice(src)
    }

    /// The record's 106 bytes.
    pub fn pack(&self) -> (r: Vec<u8>)
        ensures
            r@ == encode_model(self@),
    {
        let mut out: Vec<u8> = Vec::new();
        out.push(if self.is_initialized { 1u8 } else { 0u8 });
        out.push(self.version);
        push_key(&mut out, &self.owner);
        push_key(&mut out, &self.nft_mint);
        push_key(&mut out, &self.nft_token);
        let v = self.updated_at;
        out.push((v & 0xff) as u8);
        out.push(((v >> 8u64) & 0xff) as u8);
        out.push(((v >> 16u64) & 0xff) as u8);
        out.push(((v >> 24u64) & 0xff) as u8);
        out.push(((v >> 32u64) & 0xff) as u8);
        out.push(((v >> 40u64) & 0xff) as u8);
        out.push(((v >> 48u64) & 0xff) as u8);
        out.push(((v >> 56u64) & 0xff) as u8);
        assert(out@ =~= encode_model(self@));
        out
    }

    /// Writes the record over the first 106 bytes of `dst`; the rest stays.
    pub fn pack_into_slice(&self, dst: &mut Vec<u8>)
        requires
            old(dst)@.len() >= PROFILE_LEN,
        ensures
            final(dst)@ == encode_model(self@) + old(dst)@.subrange(PROFILE_LEN as int, old(dst)@.len() as int),
    {
        let bytes = self.pack();
        let mut i: usize = 0;
        while i < PROFILE_LEN
            invariant
                i <= PROFILE_LEN,
                old(dst)@.len() >= PROFILE_LEN,
                bytes@.len() == PROFILE_LEN,
                dst@.len() == old(dst)@.len(),
                forall|j: int| 0 <= j < i ==> dst@[j] == bytes@[j],
                forall|j: int| i <= j < dst@.len() ==> dst@[j] == old(dst)@[j],
            decreases PROFILE_LEN - i,
        {
            dst.set(i, bytes[i]);
            i = i + 1;
        }
        assert(dst@ =~= encode_model(self@) + old(dst)@.subrange(PROFILE_LEN as int, old(dst)@.len() as int));
    }
}

} // verus!
