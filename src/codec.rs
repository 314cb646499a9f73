//! The creation prelude: a minimal program that, run at contract creation,
//! copies the payload that follows it into the new contract's code.
use vstd::prelude::*;
use vstd::slice::{slice_subrange, slice_to_vec};

verus! {

/// Bytes taken by the prelude: 42 bytes of opcodes and immediates, and one
/// version byte. Encoder and decoder both split here.
pub const PRELUDE_LEN: usize = 43;

/// The last `k` base-256 digits of `n`, most significant first.
pub open spec fn be_bytes(n: nat, k: nat) -> Seq<u8>
    decreases k,
{
    if k == 0 {
        seq![]
    } else {
        be_bytes(n / 256, (k - 1) as nat).push((n % 256) as u8)
    }
}

/// `n` with its last `k` base-256 digits dropped.
pub open spec fn shift_bytes(n: nat, k: nat) -> nat
    decreases k,
{
    if k == 0 {
        n
    } else {
        shift_bytes(n / 256, (k - 1) as nat)
    }
}

/// The prelude for a payload of `len` bytes:
/// PUSH32 len, DUP1, PUSH1 43, PUSH1 0, CODECOPY, PUSH1 0, RETURN, version 0.
pub open spec fn prelude_of(len: nat) -> Seq<u8> {
    seq![0x7fu8] + be_bytes(len, 32) + seq![
        0x80u8, 0x60u8, 43u8, 0x60u8, 0x00u8, 0x39u8, 0x60u8, 0x00u8, 0xf3u8, 0x00u8,
    ]
}

/// The creation bytecode that deploys `payload`.
pub open spec fn encoded(payload: Seq<u8>) -> Seq<u8> {
    prelude_of(payload.len()) + payload
}

proof fn lemma_be_bytes_len(n: nat, k: nat)
    ensures
        be_bytes(n, k).len() == k,
    decreases k,
{
    if k > 0 {
        lemma_be_bytes_len(n / 256, (k - 1) as nat);
    }
}

proof fn lemma_shift_step(n: nat, k: nat)
    ensures
        shift_bytes(n, k + 1) == shift_bytes(n, k) / 256,
    decreases k,
{
    if k > 0 {
        lemma_shift_step(n / 256, (k - 1) as nat);
    } else {
        assert(shift_bytes(n / 256, 0) == n / 256);
    }
}

/// One more digit of `be_bytes` is the next digit of `n`, put in front.
proof fn lemma_be_bytes_front(n: nat, k: nat)
    ensures
        be_bytes(n, k + 1) == seq![(shift_bytes(n, k) % 256) as u8] + be_bytes(n, k),
    decreases k,
{
    if k > 0 {
        let k1 = (k - 1) as nat;
        lemma_be_bytes_front(n / 256, k1);
        assert(be_bytes(n, k + 1) =~= seq![(shift_bytes(n, k) % 256) as u8] + be_bytes(n, k));
    } else {
        assert(be_bytes(n / 256, 0) == Seq::<u8>::empty());
        assert(be_bytes(n, 1) =~= seq![(n % 256) as u8]);
    }
}

/// The 32-byte big-endian encoding of `n`.
fn be32(n: u64) -> (r: Vec<u8>)
    ensures
        r@ == be_bytes(n as nat, 32),
{
    let mut out: Vec<u8> = Vec::new();
    while out.len() < 32
        invariant
            out@.len() <= 32,
        decreases 32 - out@.len(),
    {
        out.push(0u8);
    }
    let mut x: u64 = n;
    let mut i: usize = 32;
    while i > 0
        invariant
            i <= 32,
            out@.len() == 32,
            x as nat == shift_bytes(n as nat, (32 - i) as nat),
            out@.subrange(i as int, 32) == be_bytes(n as nat, (32 - i) as nat),
        decreases i,
    {
        let ghost j = (32 - i) as nat;
        let ghost before = out@;
        proof {
            lemma_be_bytes_front(n as nat, j);
            lemma_shift_step(n as nat, j);
        }
        i = i - 1;
        out.set(i, (x % 256) as u8);
        assert(out@.subrange(i as int, 32) =~= seq![(x % 256) as u8] + before.subrange(i + 1, 32));
        x = x / 256;
    }
    assert(out@ =~= out@.subrange(0, 32));
    out
}

/// Appends `src` to `out`, byte by byte.
pub(crate) fn push_all(out: &mut Vec<u8>, src: &[u8])
    ensures
        final(out)@ == old(out)@ + src@,
{
    let mut i: usize = 0;
    while i < src.len()
        invariant
            i <= src@.len(),
            out@ == old(out)@ + src@.subrange(0, i as int),
        decreases src@.len() - i,
    {
        out.push(src[i]);
        i = i + 1;
        assert(out@ =~= old(out)@ + src@.subrange(0, i as int));
    }
    assert(src@.subrange(0, i as int) =~= src@);
}

/// Prepares an EVM bytecode prelude for contract creation, followed by `code`.
pub fn contract_deployment_calldata(code: &[u8]) -> (r: Vec<u8>)
    ensures
        r@ == encoded(code@),
        r@.len() == PRELUDE_LEN + code@.len(),
{
    let len = be32(code.len() as u64);
    let mut deploy: Vec<u8> = Vec::new();
    deploy.push(0x7fu8); // PUSH32
    push_all(&mut deploy, len.as_slice());
    deploy.push(0x80u8); // DUP1
    deploy.push(0x60u8); // PUSH1
    deploy.push(PRELUDE_LEN as u8); // prelude + version
    deploy.push(0x60u8); // PUSH1
    deploy.push(0x00u8);
    deploy.push(0x39u8); // CODECOPY
    deploy.push(0x60u8); // PUSH1
    deploy.push(0x00u8);
    deploy.push(0xf3u8); // RETURN
    deploy.push(0x00u8); // version
    push_all(&mut deploy, code);
    proof {
        lemma_be_bytes_len(code@.len(), 32);
    }
    assert(deploy@ =~= encoded(code@));
    deploy
}

/// The prelude of a creation blob: its first `PRELUDE_LEN` bytes.
pub fn extract_contract_evm_deployment_prelude(calldata: &[u8]) -> (r: Vec<u8>)
    requires
        calldata@.len() >= PRELUDE_LEN,
    ensures
        r@ == calldata@.subrange(0, PRELUDE_LEN as int),
{
    slice_to_vec(slice_subrange(calldata, 0, PRELUDE_LEN))
}

/// The payload of a creation blob: all that follows the prelude.
pub fn extract_compressed_wasm(calldata: &[u8]) -> (r: Vec<u8>)
    requires
        calldata@.len() >= PRELUDE_LEN,
    ensures
        r@ == calldata@.subrange(PRELUDE_LEN as int, calldata@.len() as int),
{
    slice_to_vec(slice_subrange(calldata, PRELUDE_LEN, calldata.len()))
}

/// Encoding adds exactly the prelude's length, and decoding the payload of an
/// encoding gives back the payload.
pub proof fn lemma_encode_then_payload(p: Seq<u8>)
    ensures
        encoded(p).len() == PRELUDE_LEN + p.len(),
        encoded(p).subrange(PRELUDE_LEN as int, encoded(p).len() as int) == p,
{
    lemma_be_bytes_len(p.len(), 32);
    assert(encoded(p).subrange(PRELUDE_LEN as int, encoded(p).len() as int) =~= p);
}

/// The preludes of any two encodings agree byte for byte outside the 32-byte
/// length field at offsets 1 to 32, and that field holds the payload's
/// length in big-endian order.
pub proof fn lemma_prelude_fixed_but_length(p: Seq<u8>, q: Seq<u8>)
    ensures
        encoded(p).subrange(0, PRELUDE_LEN as int).len() == PRELUDE_LEN,
        forall|i: int|
            0 <= i < PRELUDE_LEN && !(1 <= i < 33) ==> #[trigger] encoded(p)[i] == encoded(q)[i],
        encoded(p).subrange(1, 33) == be_bytes(p.len(), 32),
{
    lemma_be_bytes_len(p.len(), 32);
    lemma_be_bytes_len(q.len(), 32);
    assert(encoded(p).subrange(1, 33) =~= be_bytes(p.len(), 32));
}

/// Taking the payload of an encoding is idempotent: encoding the recovered
/// payload and decoding again gives the same bytes, which are the payload.
pub proof fn lemma_round_trip_idempotent(p: Seq<u8>)
    ensures
        ({
            let once = encoded(p).subrange(PRELUDE_LEN as int, encoded(p).len() as int);
            let twice = encoded(once).subrange(PRELUDE_LEN as int, encoded(once).len() as int);
            twice == once && once == p
        }),
{
    lemma_encode_then_payload(p);
    let once = encoded(p).subrange(PRELUDE_LEN as int, encoded(p).len() as int);
    lemma_encode_then_payload(once);
}

} // verus!
