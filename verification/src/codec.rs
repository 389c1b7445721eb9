//! Byte-level framing: the synchronisation token, the acknowledgment bytes,
//! the 5-byte transfer header and the 256-byte payload chunking.

use vstd::prelude::*;

use crate::arch::Arch;

verus! {

/// The synchronisation token: the 8 ASCII bytes `DEADBEEF`.
pub open spec fn token_spec() -> Seq<u8> {
    seq![0x44u8, 0x45u8, 0x41u8, 0x44u8, 0x42u8, 0x45u8, 0x45u8, 0x46u8]
}

/// The acknowledgment the target sends after each phase: the 3 ASCII bytes
/// `ACK`.
pub open spec fn ack_spec() -> Seq<u8> {
    seq![0x41u8, 0x43u8, 0x4Bu8]
}

/// Whether three received bytes are exactly the acknowledgment `ACK`.
pub open spec fn is_ack_spec(b0: u8, b1: u8, b2: u8) -> bool {
    seq![b0, b1, b2] == ack_spec()
}

/// The transfer header: the payload length in 4 little-endian bytes, then the
/// architecture code.
pub open spec fn header_spec(len: u32, arch: Arch) -> Seq<u8> {
    seq![
        (len % 256) as u8,
        ((len / 256) % 256) as u8,
        ((len / 65536) % 256) as u8,
        ((len / 16777216) % 256) as u8,
        arch.code_spec(),
    ]
}

/// How many chunks a payload of `len` bytes is sent in: `ceil(len / 256)`,
/// and none at all for an empty payload.
pub open spec fn chunk_count(len: nat) -> nat {
    if len % 256 == 0 {
        len / 256
    } else {
        len / 256 + 1
    }
}

/// The bytes of chunk `i`: the 256-byte slice starting at `256 * i`, cut
/// short at the end of the payload.
pub open spec fn chunk_spec(data: Seq<u8>, i: int) -> Seq<u8>
    recommends
        0 <= i < chunk_count(data.len()),
{
    data.subrange(
        256 * i,
        if 256 * (i + 1) <= data.len() {
            256 * (i + 1)
        } else {
            data.len() as int
        },
    )
}

/// The token as a concrete byte vector, ready to be written to the line.
pub fn token_bytes() -> (v: Vec<u8>)
    ensures
        v@ == token_spec(),
{
    let mut v: Vec<u8> = Vec::new();
    v.push(0x44);
    v.push(0x45);
    v.push(0x41);
    v.push(0x44);
    v.push(0x42);
    v.push(0x45);
    v.push(0x45);
    v.push(0x46);
    proof {
        assert(v@ =~= token_spec());
    }
    v
}

/// Whether three received bytes are exactly `ACK`.
pub fn is_ack(b0: u8, b1: u8, b2: u8) -> (r: bool)
    ensures
        r == is_ack_spec(b0, b1, b2),
{
    proof {
        if b0 == 0x41 && b1 == 0x43 && b2 == 0x4B {
            assert(seq![b0, b1, b2] =~= ack_spec());
        } else {
            assert(seq![b0, b1, b2] != ack_spec()) by {
                if seq![b0, b1, b2] == ack_spec() {
                    assert(b0 == ack_spec()[0] && b1 == ack_spec()[1] && b2 == ack_spec()[2]);
                }
            }
        }
    }
    b0 == 0x41 && b1 == 0x43 && b2 == 0x4B
}

/// Encodes the transfer header for a payload of `len` bytes: 4 bytes
/// little-endian length, then the architecture code.
pub fn encode_header(len: u32, arch: Arch) -> (v: Vec<u8>)
    ensures
        v@ == header_spec(len, arch),
        v@.len() == 5,
{
    let mut v: Vec<u8> = Vec::new();
    v.push((len % 256) as u8);
    v.push(((len / 256) % 256) as u8);
    v.push(((len / 65536) % 256) as u8);
    v.push(((len / 16777216) % 256) as u8);
    v.push(arch.code());
    proof {
        assert(v@ =~= header_spec(len, arch));
    }
    v
}

/// How many chunks a payload of `len` bytes is sent in.
pub fn chunk_count_exec(len: usize) -> (n: usize)
    ensures
        n == chunk_count(len as nat),
{
    if len % 256 == 0 {
        len / 256
    } else {
        len / 256 + 1
    }
}

/// Chunk `i` starts strictly inside the payload and ends within it.
pub proof fn lemma_chunk_bounds(len: nat, i: int)
    requires
        0 <= i < chunk_count(len),
    ensures
        256 * i < len,
        256 * i + 256 <= 256 * chunk_count(len),
        len <= 256 * chunk_count(len),
    decreases i,
{
    if i == 0 {
        assert(len > 0);
        assert(len <= 256 * chunk_count(len)) by (nonlinear_arith)
            requires
                chunk_count(len) == if len % 256 == 0 { len / 256 } else { len / 256 + 1 },
        ;
    } else {
        lemma_chunk_bounds(len, i - 1);
        assert(256 * i < len) by (nonlinear_arith)
            requires
                0 <= i < chunk_count(len),
                chunk_count(len) == if len % 256 == 0 { len / 256 } else { len / 256 + 1 },
        ;
        assert(256 * i + 256 <= 256 * chunk_count(len)) by (nonlinear_arith)
            requires
                0 <= i < chunk_count(len),
        ;
    }
}

/// Every chunk is non-empty and at most 256 bytes; every chunk but the last
/// is exactly 256 bytes, and the last ends exactly at the payload's end.
pub proof fn lemma_chunk_sizes(data: Seq<u8>, i: int)
    requires
        0 <= i < chunk_count(data.len()),
    ensures
        0 < chunk_spec(data, i).len() <= 256,
        i < chunk_count(data.len()) - 1 ==> chunk_spec(data, i).len() == 256,
        i == chunk_count(data.len()) - 1 ==> 256 * i + chunk_spec(data, i).len() == data.len(),
{
    lemma_chunk_bounds(data.len(), i);
    if i < chunk_count(data.len()) - 1 {
        lemma_chunk_bounds(data.len(), i + 1);
    }
}

/// The concatenation of the first `n` chunks, in order.
pub open spec fn concat_chunks(data: Seq<u8>, n: int) -> Seq<u8>
    decreases n,
{
    if n <= 0 {
        Seq::empty()
    } else {
        concat_chunks(data, n - 1) + chunk_spec(data, n - 1)
    }
}

/// Concatenating the first `n` chunks yields exactly the payload's first
/// `min(256 * n, len)` bytes.
proof fn lemma_concat_chunks_prefix(data: Seq<u8>, n: int)
    requires
        0 <= n <= chunk_count(data.len()),
    ensures
        concat_chunks(data, n) == data.subrange(
            0,
            if 256 * n <= data.len() {
                256 * n
            } else {
                data.len() as int
            },
        ),
    decreases n,
{
    if n == 0 {
        assert(concat_chunks(data, 0) =~= data.subrange(0, 0));
    } else {
        lemma_concat_chunks_prefix(data, n - 1);
        lemma_chunk_bounds(data.len(), n - 1);
        assert(concat_chunks(data, n) =~= data.subrange(
            0,
            if 256 * n <= data.len() {
                256 * n
            } else {
                data.len() as int
            },
        ));
    }
}

/// Reassembly: concatenating all chunks, in order, reproduces the payload
/// exactly.
pub proof fn lemma_chunks_reassemble(data: Seq<u8>)
    ensures
        concat_chunks(data, chunk_count(data.len()) as int) == data,
{
    let n = chunk_count(data.len()) as int;
    if n > 0 {
        lemma_chunk_bounds(data.len(), n - 1);
    }
    lemma_concat_chunks_prefix(data, n);
    assert(data.subrange(0, data.len() as int) =~= data);
}

/// Copies chunk `i` of the payload out as its own vector.
pub fn chunk_at(data: &Vec<u8>, i: usize) -> (c: Vec<u8>)
    requires
        (i as nat) < chunk_count(data@.len()),
    ensures
        c@ == chunk_spec(data@, i as int),
{
    let len: usize = data.len();
    proof {
        lemma_chunk_bounds(data@.len(), i as int);
        lemma_chunk_sizes(data@, i as int);
        assert(256 * (i as int) < len);
    }
    let start: usize = i * 256;
    let end: usize = if data.len() - start >= 256 {
        start + 256
    } else {
        data.len()
    };
    let mut c: Vec<u8> = Vec::new();
    let mut j: usize = start;
    while j < end
        invariant
            start <= j <= end,
            end <= data@.len(),
            c@ =~= data@.subrange(start as int, j as int),
        decreases end - j,
    {
        c.push(data[j]);
        j = j + 1;
    }
    proof {
        assert(c@ =~= chunk_spec(data@, i as int));
    }
    c
}

} // verus!
