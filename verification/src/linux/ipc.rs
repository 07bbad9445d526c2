//! How messages and descriptors travel between the caller and the
//! zygote.
//!
//! A message is sent as two datagrams: its length as eight bytes, least
//! significant first, then its bytes. Descriptors travel as ancillary
//! data, at most eight with one datagram.
use crate::linux::error::IpcError;
use vstd::bytes::{
    lemma_auto_spec_u64_to_from_le_bytes, spec_u64_from_le_bytes, spec_u64_to_le_bytes,
    u64_from_le_bytes, u64_to_le_bytes,
};
use vstd::prelude::*;

verus! {

/// The largest number of descriptors that one datagram carries.
pub const FD_CHUNK_SIZE: usize = 8;

/// The number of bytes of the datagram that announces a message.
pub const HEADER_SIZE: usize = 8;

/// The two datagrams of a message.
#[derive(Debug)]
pub struct Frame {
    pub header: Vec<u8>,
    pub body: Vec<u8>,
}

/// Frames a message for sending: the header holds the length of the
/// message, the body the message itself.
pub fn send(message: Vec<u8>) -> (frame: Frame)
    ensures
        frame.header@ == spec_u64_to_le_bytes(message@.len() as u64),
        frame.header@.len() == HEADER_SIZE,
        frame.body@ == message@,
{
    let header = u64_to_le_bytes(message.len() as u64);
    Frame { header, body: message }
}

/// The length that a header announces, if it is a header.
pub open spec fn announced_len(header: Seq<u8>) -> Option<u64> {
    if header.len() == HEADER_SIZE {
        Some(spec_u64_from_le_bytes(header))
    } else {
        None
    }
}

/// The message that two datagrams carry: the second one, where the
/// first one is a header that announces its length.
pub open spec fn received_message(header: Seq<u8>, body: Seq<u8>) -> Option<Seq<u8>> {
    match announced_len(header) {
        Some(len) => if body.len() == len {
            Some(body)
        } else {
            None
        },
        None => None,
    }
}

/// Reads the length of the message that follows from the first datagram.
/// A datagram of another size than a header means that the peer is
/// gone; a length that this machine cannot hold cannot be served.
pub fn recv_header(header: &Vec<u8>) -> (r: Result<usize, IpcError>)
    ensures
        match announced_len(header@) {
            Some(len) => if len <= usize::MAX {
                r == Ok::<usize, IpcError>(len as usize)
            } else {
                r matches Err(IpcError::UnexpectedEof)
            },
            None => r matches Err(IpcError::UnexpectedEof),
        },
{
    if header.len() != HEADER_SIZE {
        return Err(IpcError::UnexpectedEof);
    }
    let len = u64_from_le_bytes(header.as_slice());
    if len > usize::MAX as u64 {
        return Err(IpcError::UnexpectedEof);
    }
    Ok(len as usize)
}

/// Takes the message out of the second datagram, which must be as long
/// as the header announced.
pub fn recv(header: &Vec<u8>, body: Vec<u8>) -> (r: Result<Vec<u8>, IpcError>)
    ensures
        match received_message(header@, body@) {
            Some(message) => r matches Ok(m) && m@ == message,
            None => r matches Err(IpcError::UnexpectedEof),
        },
{
    match recv_header(header) {
        Ok(len) => {
            if body.len() == len {
                Ok(body)
            } else {
                Err(IpcError::UnexpectedEof)
            }
        },
        Err(e) => {
            assert(body@.len() == body.len());
            Err(IpcError::UnexpectedEof)
        },
    }
}

/// A message that was framed and sent is received as it was.
pub proof fn lemma_frame_round_trip(message: Seq<u8>)
    requires
        message.len() <= u64::MAX,
    ensures
        received_message(spec_u64_to_le_bytes(message.len() as u64), message) == Some(message),
{
    lemma_auto_spec_u64_to_from_le_bytes();
}

/// The descriptors cut into chunks for sending: every chunk but the
/// last holds eight, the last one what is left, and no chunk is empty.
pub open spec fn chunks(fds: Seq<i32>) -> Seq<Seq<i32>>
    decreases fds.len(),
{
    if fds.len() == 0 {
        Seq::<Seq<i32>>::empty()
    } else if fds.len() <= FD_CHUNK_SIZE {
        seq![fds]
    } else {
        seq![fds.take(FD_CHUNK_SIZE as int)] + chunks(fds.skip(FD_CHUNK_SIZE as int))
    }
}

/// The views of a list of chunks.
pub open spec fn chunk_views(all: Seq<Vec<i32>>) -> Seq<Seq<i32>> {
    all.map_values(|c: Vec<i32>| c@)
}

/// The chunks one after another.
pub open spec fn flatten(all: Seq<Seq<i32>>) -> Seq<i32>
    decreases all.len(),
{
    if all.len() == 0 {
        Seq::<i32>::empty()
    } else {
        all[0] + flatten(all.skip(1))
    }
}

/// Chunking loses nothing and respects the limit of a datagram.
pub proof fn lemma_chunks(fds: Seq<i32>)
    ensures
        flatten(chunks(fds)) == fds,
        forall|i: int|
            0 <= i < chunks(fds).len() ==> 0 < (#[trigger] chunks(fds)[i]).len() <= FD_CHUNK_SIZE,
        forall|i: int|
            0 <= i < chunks(fds).len() - 1 ==> (#[trigger] chunks(fds)[i]).len() == FD_CHUNK_SIZE,
    decreases fds.len(),
{
    if fds.len() == 0 {
    } else if fds.len() <= FD_CHUNK_SIZE {
        let all = chunks(fds);
        assert(all.skip(1) =~= Seq::<Seq<i32>>::empty());
        assert(flatten(all.skip(1)) =~= Seq::<i32>::empty());
        assert(flatten(all) == all[0] + flatten(all.skip(1)));
        assert(flatten(all) =~= fds);
    } else {
        let rest = fds.skip(FD_CHUNK_SIZE as int);
        lemma_chunks(rest);
        let all = chunks(fds);
        assert(all.skip(1) =~= chunks(rest));
        assert(flatten(all) == all[0] + flatten(all.skip(1)));
        assert(flatten(all) =~= fds);
        assert forall|i: int| 0 <= i < all.len() implies 0 < (#[trigger] all[i]).len()
            <= FD_CHUNK_SIZE by {
            if i > 0 {
                assert(all[i] == chunks(rest)[i - 1]);
            }
        }
        assert forall|i: int| 0 <= i < all.len() - 1 implies (#[trigger] all[i]).len()
            == FD_CHUNK_SIZE by {
            if i > 0 {
                assert(all[i] == chunks(rest)[i - 1]);
            }
        }
    }
}

/// The number of datagrams that carry `fd_count` descriptors.
pub open spec fn datagram_count(fd_count: nat) -> nat {
    (fd_count + FD_CHUNK_SIZE - 1) as nat / (FD_CHUNK_SIZE as nat)
}

/// There are as many chunks as `datagram_count` tells.
pub proof fn lemma_chunk_count(fds: Seq<i32>)
    ensures
        chunks(fds).len() == datagram_count(fds.len()),
    decreases fds.len(),
{
    if fds.len() > FD_CHUNK_SIZE {
        lemma_chunk_count(fds.skip(FD_CHUNK_SIZE as int));
    }
}

/// Tells how many datagrams carry `fd_count` descriptors: one for every
/// eight, and one for what is left.
pub fn chunk_count(fd_count: usize) -> (r: usize)
    ensures
        r == datagram_count(fd_count as nat),
{
    if fd_count % FD_CHUNK_SIZE == 0 {
        fd_count / FD_CHUNK_SIZE
    } else {
        fd_count / FD_CHUNK_SIZE + 1
    }
}

/// Cuts the descriptors into the chunks in which they are sent, one
/// datagram each.
pub fn send_fds(fds: &Vec<i32>) -> (r: Vec<Vec<i32>>)
    ensures
        chunk_views(r@) == chunks(fds@),
{
    let mut r: Vec<Vec<i32>> = Vec::new();
    let mut start: usize = 0;
    let n = fds.len();
    assert(fds@.skip(0) == fds@);
    assert(chunk_views(r@) =~= Seq::<Seq<i32>>::empty());
    while start < n
        invariant
            start <= n,
            n == fds.len(),
            chunk_views(r@) + chunks(fds@.skip(start as int)) == chunks(fds@),
        decreases n - start,
    {
        let end: usize = if n - start <= FD_CHUNK_SIZE {
            n
        } else {
            start + FD_CHUNK_SIZE
        };
        let mut chunk: Vec<i32> = Vec::new();
        let mut i: usize = start;
        while i < end
            invariant
                start <= i <= end <= n,
                n == fds.len(),
                chunk@ == fds@.subrange(start as int, i as int),
            decreases end - i,
        {
            chunk.push(fds[i]);
            i += 1;
        }
        proof {
            let rest = fds@.skip(start as int);
            if end == n {
                assert(chunk@ =~= rest);
                assert(fds@.skip(end as int) =~= Seq::<i32>::empty());
                assert(chunks(rest) =~= seq![chunk@] + chunks(fds@.skip(end as int)));
            } else {
                assert(chunk@ =~= rest.take(FD_CHUNK_SIZE as int));
                assert(fds@.skip(end as int) =~= rest.skip(FD_CHUNK_SIZE as int));
            }
        }
        let ghost before = chunk_views(r@);
        r.push(chunk);
        assert(chunk_views(r@) =~= before.push(chunk@));
        assert(before.push(chunk@) + chunks(fds@.skip(end as int)) =~= before + (seq![chunk@]
            + chunks(fds@.skip(end as int))));
        start = end;
    }
    assert(chunk_views(r@) + Seq::<Seq<i32>>::empty() =~= chunk_views(r@));
    r
}

/// The first ancillary message of a received datagram.
#[derive(Debug)]
pub enum ControlMessage {
    /// Descriptors.
    ScmRights(Vec<i32>),
    /// Anything else.
    Other,
}

/// The descriptors that a received datagram carries, if its ancillary
/// data is a list of descriptors.
pub open spec fn rights_of(message: Option<ControlMessage>) -> Option<Seq<i32>> {
    match message {
        Some(ControlMessage::ScmRights(fds)) => Some(fds@),
        _ => None,
    }
}

/// The descriptors that the first datagrams of `messages` carry
/// together, where `fd_count` descriptors are expected: each datagram
/// must carry exactly the chunk that is due, eight descriptors or what
/// is left to come.
pub open spec fn received_fds(fd_count: nat, messages: Seq<Option<ControlMessage>>) -> Option<
    Seq<i32>,
>
    decreases fd_count,
{
    if fd_count == 0 {
        Some(Seq::<i32>::empty())
    } else if messages.len() == 0 {
        None
    } else {
        let due = if fd_count <= FD_CHUNK_SIZE {
            fd_count
        } else {
            FD_CHUNK_SIZE as nat
        };
        match rights_of(messages[0]) {
            Some(fds) => if fds.len() == due {
                match received_fds((fd_count - due) as nat, messages.skip(1)) {
                    Some(rest) => Some(fds + rest),
                    None => None,
                }
            } else {
                None
            },
            None => None,
        }
    }
}

/// Collects `fd_count` descriptors from the ancillary data of the
/// datagrams received, in order. A datagram without descriptors, or
/// with another number of them than is due, is a breach of the
/// protocol, and so is a missing datagram.
pub fn recv_fds(fd_count: usize, messages: &Vec<Option<ControlMessage>>) -> (r: Result<
    Vec<i32>,
    IpcError,
>)
    ensures
        match received_fds(fd_count as nat, messages@) {
            Some(fds) => r matches Ok(v) && v@ == fds,
            None => r matches Err(IpcError::Ancillary),
        },
{
    let mut received: Vec<i32> = Vec::new();
    let mut left: usize = fd_count;
    let mut k: usize = 0;
    assert(messages@.skip(0) == messages@);
    while left > 0
        invariant
            k <= messages.len(),
            received_fds(fd_count as nat, messages@) == match received_fds(
                left as nat,
                messages@.skip(k as int),
            ) {
                Some(rest) => Some(received@ + rest),
                None => None,
            },
        decreases left,
    {
        if k >= messages.len() {
            return Err(IpcError::Ancillary);
        }
        let due: usize = if left <= FD_CHUNK_SIZE {
            left
        } else {
            FD_CHUNK_SIZE
        };
        assert(messages@.skip(k as int)[0] == messages@[k as int]);
        assert(messages@.skip(k as int).skip(1) == messages@.skip(k + 1));
        match &messages[k] {
            Some(ControlMessage::ScmRights(fds)) => {
                if fds.len() != due {
                    return Err(IpcError::Ancillary);
                }
                let ghost before = received@;
                let mut i: usize = 0;
                while i < fds.len()
                    invariant
                        i <= fds.len(),
                        received@ == before + fds@.take(i as int),
                    decreases fds.len() - i,
                {
                    received.push(fds[i]);
                    assert(fds@.take(i + 1) == fds@.take(i as int).push(fds@[i as int]));
                    i += 1;
                }
                assert(fds@.take(fds.len() as int) == fds@);
                proof {
                    match received_fds((left - due) as nat, messages@.skip(k + 1)) {
                        Some(rest) => {
                            assert(before + (fds@ + rest) =~= (before + fds@) + rest);
                        },
                        None => {},
                    }
                }
            },
            _ => {
                return Err(IpcError::Ancillary);
            },
        }
        left = left - due;
        k += 1;
    }
    assert(received@ + Seq::<i32>::empty() =~= received@);
    Ok(received)
}

/// The datagrams that carry the chunks of `fds`, as they are received.
pub open spec fn datagrams_of(sent: Seq<Seq<i32>>, received: Seq<Option<ControlMessage>>) -> bool {
    &&& received.len() == sent.len()
    &&& forall|i: int| 0 <= i < sent.len() ==> rights_of(#[trigger] received[i]) == Some(sent[i])
}

/// Descriptors that were cut into chunks and sent are received as they
/// were, where each datagram arrives with the chunk it was sent with.
pub proof fn lemma_fds_round_trip(fds: Seq<i32>, received: Seq<Option<ControlMessage>>)
    requires
        datagrams_of(chunks(fds), received),
    ensures
        received_fds(fds.len(), received) == Some(fds),
    decreases fds.len(),
{
    if fds.len() == 0 {
    } else if fds.len() <= FD_CHUNK_SIZE {
        assert(chunks(fds)[0] == fds);
        assert(rights_of(received[0]) == Some(fds));
        assert(received_fds(0, received.skip(1)) == Some(Seq::<i32>::empty()));
        assert(fds + Seq::<i32>::empty() =~= fds);
    } else {
        let head = fds.take(FD_CHUNK_SIZE as int);
        let rest = fds.skip(FD_CHUNK_SIZE as int);
        assert(chunks(fds)[0] == head);
        assert(rights_of(received[0]) == Some(head));
        assert forall|i: int| 0 <= i < chunks(rest).len() implies rights_of(
            #[trigger] received.skip(1)[i],
        ) == Some(chunks(rest)[i]) by {
            assert(received.skip(1)[i] == received[i + 1]);
            assert(chunks(fds)[i + 1] == chunks(rest)[i]);
        }
        lemma_fds_round_trip(rest, received.skip(1));
        assert(head + rest =~= fds);
    }
}

} // verus!
