use vstd::prelude::*;

use crate::logic::{choice_byte, RPS};
use crate::pubkey::{bytes32_eq, Pubkey};

verus! {

broadcast use vstd::array::group_array_axioms;

/// The Keccak-256 digest of a byte string.
pub uninterp spec fn keccak256_of(data: Seq<u8>) -> Seq<u8>;

/// Relies on `solana_program::keccak::hashv`: the Keccak-256 digest of the
/// bytes of the one slice handed to it.
#[verifier::external_body]
fn keccak256(data: &[u8]) -> (r: [u8; 32])
    ensures
        r@ == keccak256_of(data@),
{
    solana_program::keccak::hashv(&[data]).0
}

/// The eight little-endian bytes of `x`.
pub open spec fn u64_le_bytes(x: u64) -> Seq<u8> {
    seq![
        x as u8,
        (x >> 8u64) as u8,
        (x >> 16u64) as u8,
        (x >> 24u64) as u8,
        (x >> 32u64) as u8,
        (x >> 40u64) as u8,
        (x >> 48u64) as u8,
        (x >> 56u64) as u8,
    ]
}

/// What a commitment hashes: the player's address, the salt in little-endian
/// order, then the byte of the choice.
pub open spec fn commitment_preimage(player: Seq<u8>, salt: u64, choice: RPS) -> Seq<u8> {
    player + u64_le_bytes(salt) + seq![choice_byte(choice)]
}

/// What an entry proof hashes: the game's address, then the secret in
/// little-endian order.
pub open spec fn entry_preimage(game: Seq<u8>, secret: u64) -> Seq<u8> {
    game + u64_le_bytes(secret)
}

/// The commitment a player publishes for `salt` and `choice`.
pub open spec fn commitment_of(player: Pubkey, salt: u64, choice: RPS) -> Seq<u8> {
    keccak256_of(commitment_preimage(player@, salt, choice))
}

/// The entry proof that admits the holder of `secret` to the game at `game`.
pub open spec fn entry_proof_of(game: Pubkey, secret: u64) -> Seq<u8> {
    keccak256_of(entry_preimage(game@, secret))
}

/// Appends the little-endian bytes of `x` to `out`.
fn push_u64_le(out: &mut Vec<u8>, x: u64)
    ensures
        final(out)@ == old(out)@ + u64_le_bytes(x),
{
    out.push(x as u8);
    out.push((x >> 8u64) as u8);
    out.push((x >> 16u64) as u8);
    out.push((x >> 24u64) as u8);
    out.push((x >> 32u64) as u8);
    out.push((x >> 40u64) as u8);
    out.push((x >> 48u64) as u8);
    out.push((x >> 56u64) as u8);
    assert(final(out)@ =~= old(out)@ + u64_le_bytes(x));
}

/// Appends the 32 bytes of `bytes` to `out`.
fn push_bytes32(out: &mut Vec<u8>, bytes: &[u8; 32])
    ensures
        final(out)@ == old(out)@ + bytes@,
{
    let ghost start = out@;
    let mut i: usize = 0;
    while i < 32
        invariant
            0 <= i <= 32,
            bytes@.len() == 32,
            out@ == start + bytes@.subrange(0, i as int),
        decreases 32 - i,
    {
        out.push(bytes[i]);
        i = i + 1;
        assert(out@ =~= start + bytes@.subrange(0, i as int));
    }
    assert(bytes@.subrange(0, 32) =~= bytes@);
}

/// The commitment that binds `pubkey` to `choice` under `salt`.
pub fn create_commitment(pubkey: Pubkey, salt: u64, choice: RPS) -> (r: [u8; 32])
    ensures
        r@ == commitment_of(pubkey, salt, choice),
{
    let mut data: Vec<u8> = Vec::new();
    push_bytes32(&mut data, &pubkey.bytes);
    push_u64_le(&mut data, salt);
    data.push(u8::from(choice));
    assert(data@ =~= commitment_preimage(pubkey@, salt, choice));
    keccak256(data.as_slice())
}

/// The entry proof that admits the holder of `secret` to the game at `pubkey`.
pub fn create_entry_proof(pubkey: Pubkey, secret: u64) -> (r: [u8; 32])
    ensures
        r@ == entry_proof_of(pubkey, secret),
{
    let mut data: Vec<u8> = Vec::new();
    push_bytes32(&mut data, &pubkey.bytes);
    push_u64_le(&mut data, secret);
    assert(data@ =~= entry_preimage(pubkey@, secret));
    keccak256(data.as_slice())
}

/// Whether `salt` and `choice` reproduce `commitment` for `pubkey`.
pub fn verify_commitment(pubkey: Pubkey, commitment: [u8; 32], salt: u64, choice: RPS) -> (r: bool)
    ensures
        r == (commitment@ == commitment_of(pubkey, salt, choice)),
{
    let hash = create_commitment(pubkey, salt, choice);
    bytes32_eq(&hash, &commitment)
}

/// Whether `secret` reproduces `entry_proof` for the game at `pubkey`.
pub fn verify_entry(pubkey: Pubkey, entry_proof: [u8; 32], secret: u64) -> (r: bool)
    ensures
        r == (entry_proof@ == entry_proof_of(pubkey, secret)),
{
    let hash = create_entry_proof(pubkey, secret);
    bytes32_eq(&hash, &entry_proof)
}

/// Different numbers have different little-endian bytes.
pub proof fn lemma_u64_le_bytes_injective(x: u64, y: u64)
    requires
        u64_le_bytes(x) == u64_le_bytes(y),
    ensures
        x == y,
{
    assert(u64_le_bytes(x)[0] == u64_le_bytes(y)[0]);
    assert(u64_le_bytes(x)[1] == u64_le_bytes(y)[1]);
    assert(u64_le_bytes(x)[2] == u64_le_bytes(y)[2]);
    assert(u64_le_bytes(x)[3] == u64_le_bytes(y)[3]);
    assert(u64_le_bytes(x)[4] == u64_le_bytes(y)[4]);
    assert(u64_le_bytes(x)[5] == u64_le_bytes(y)[5]);
    assert(u64_le_bytes(x)[6] == u64_le_bytes(y)[6]);
    assert(u64_le_bytes(x)[7] == u64_le_bytes(y)[7]);
    assert(x == y) by (bit_vector)
        requires
            x as u8 == y as u8,
            (x >> 8u64) as u8 == (y >> 8u64) as u8,
            (x >> 16u64) as u8 == (y >> 16u64) as u8,
            (x >> 24u64) as u8 == (y >> 24u64) as u8,
            (x >> 32u64) as u8 == (y >> 32u64) as u8,
            (x >> 40u64) as u8 == (y >> 40u64) as u8,
            (x >> 48u64) as u8 == (y >> 48u64) as u8,
            (x >> 56u64) as u8 == (y >> 56u64) as u8,
    ;
}

/// A commitment binds all it hashes: changing the player, the salt or the
/// hand changes the bytes hashed, so a changed reveal can only match the
/// stored commitment through a Keccak-256 collision.
pub proof fn lemma_commitment_preimage_injective(
    pubkey: Pubkey,
    salt: u64,
    choice: RPS,
    other_pubkey: Pubkey,
    other_salt: u64,
    other_choice: RPS,
)
    requires
        commitment_preimage(pubkey@, salt, choice) == commitment_preimage(
            other_pubkey@,
            other_salt,
            other_choice,
        ),
    ensures
        pubkey == other_pubkey,
        salt == other_salt,
        choice == other_choice,
{
    let a = commitment_preimage(pubkey@, salt, choice);
    let b = commitment_preimage(other_pubkey@, other_salt, other_choice);
    assert(a.subrange(0, 32) =~= pubkey@);
    assert(b.subrange(0, 32) =~= other_pubkey@);
    assert(pubkey.bytes =~= other_pubkey.bytes);
    assert(a.subrange(32, 40) =~= u64_le_bytes(salt));
    assert(b.subrange(32, 40) =~= u64_le_bytes(other_salt));
    lemma_u64_le_bytes_injective(salt, other_salt);
    assert(a[40] == choice_byte(choice));
    assert(b[40] == choice_byte(other_choice));
}

/// An entry proof binds the game and the secret in the same way.
pub proof fn lemma_entry_preimage_injective(game: Pubkey, secret: u64, other_game: Pubkey, other_secret: u64)
    requires
        entry_preimage(game@, secret) == entry_preimage(other_game@, other_secret),
    ensures
        game == other_game,
        secret == other_secret,
{
    let a = entry_preimage(game@, secret);
    let b = entry_preimage(other_game@, other_secret);
    assert(a.subrange(0, 32) =~= game@);
    assert(b.subrange(0, 32) =~= other_game@);
    assert(game.bytes =~= other_game.bytes);
    assert(a.subrange(32, 40) =~= u64_le_bytes(secret));
    assert(b.subrange(32, 40) =~= u64_le_bytes(other_secret));
    lemma_u64_le_bytes_injective(secret, other_secret);
}

} // verus!
