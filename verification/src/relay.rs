//! Relay decisions.
//!
//! An established session runs two independent directional copies, each
//! reading chunks of at most the chunk size and writing the exact bytes read
//! to the opposite socket. A copy ends when a read returns no bytes
//! (graceful close) or fails; the socket it was writing to is then shut down
//! in both directions, which ends the paired copy as well. This module
//! decides, per chunk, whether to forward or to shut down, and states what a
//! whole directional copy writes: the unaltered concatenation of the chunks
//! read before the first end-of-stream or failure.

use vstd::prelude::*;

use crate::sniff::push_all;

verus! {

/// Size of the buffer each directional copy reads into.
pub const CHUNK_SIZE: usize = 2048;

/// One read observed by a directional copy: the bytes it got (none at all
/// meaning end-of-stream), or a failed read.
pub enum ChunkRead {
    Data(Vec<u8>),
    Failed,
}

/// A read that ends the copy: end-of-stream or failure.
pub open spec fn ends_relay(c: ChunkRead) -> bool {
    match c {
        ChunkRead::Data(d) => d@.len() == 0,
        ChunkRead::Failed => true,
    }
}

/// The bytes a read contributes when forwarded.
pub open spec fn chunk_data(c: ChunkRead) -> Seq<u8> {
    match c {
        ChunkRead::Data(d) => d@,
        ChunkRead::Failed => Seq::empty(),
    }
}

/// What a directional copy does with one read.
#[derive(Clone, Copy, PartialEq, Eq, Debug)]
pub enum RelayVerdict {
    /// Write the bytes just read to the opposite socket, unaltered.
    Forward,
    /// Stop copying and shut down the opposite socket, both directions.
    Shutdown,
}

/// Decides one relay step: forward exactly when the read produced bytes,
/// shut down on end-of-stream or a failed read.
pub fn relay_decision(c: &ChunkRead) -> (v: RelayVerdict)
    ensures
        v == RelayVerdict::Forward <==> !ends_relay(*c),
        v == RelayVerdict::Shutdown <==> ends_relay(*c),
{
    match c {
        ChunkRead::Data(d) => {
            if d.len() == 0 {
                RelayVerdict::Shutdown
            } else {
                RelayVerdict::Forward
            }
        },
        ChunkRead::Failed => RelayVerdict::Shutdown,
    }
}

/// Everything a directional copy writes, given the reads it observes in
/// order: the concatenation of the chunks before the first end-of-stream or
/// failure, byte for byte.
pub open spec fn forwarded(reads: Seq<ChunkRead>) -> Seq<u8>
    decreases reads.len(),
{
    if reads.len() == 0 {
        Seq::empty()
    } else if ends_relay(reads[0]) {
        Seq::empty()
    } else {
        chunk_data(reads[0]) + forwarded(reads.drop_first())
    }
}

/// Replays a directional copy over the reads it observed, collecting the
/// bytes written to the opposite socket: exactly the concatenation of the
/// chunks before the first terminating read.
pub fn relay_transcript(reads: &Vec<ChunkRead>) -> (out: Vec<u8>)
    ensures
        out@ == forwarded(reads@),
{
    let mut out: Vec<u8> = Vec::new();
    let mut i: usize = 0;
    assert(reads@.skip(0) =~= reads@);
    while i < reads.len()
        invariant
            0 <= i <= reads@.len(),
            forwarded(reads@) == out@ + forwarded(reads@.skip(i as int)),
        decreases reads@.len() - i,
    {
        let c = &reads[i];
        assert(reads@.skip(i as int)[0] == reads@[i as int]);
        match relay_decision(c) {
            RelayVerdict::Shutdown => {
                assert(forwarded(reads@.skip(i as int)) =~= Seq::<u8>::empty());
                assert(out@ =~= forwarded(reads@));
                return out;
            },
            RelayVerdict::Forward => {
                match c {
                    ChunkRead::Data(d) => {
                        push_all(&mut out, d.as_slice());
                    },
                    ChunkRead::Failed => {
                        assert(false);
                    },
                }
                assert(reads@.skip(i as int).drop_first() =~= reads@.skip(i + 1));
            },
        }
        i += 1;
    }
    assert(reads@.skip(i as int) =~= Seq::<ChunkRead>::empty());
    assert(out@ =~= forwarded(reads@));
    out
}

} // verus!
