//! The byte-stream transport: the same request/response workload carried
//! over any connection that moves 8-byte frames.
//!
//! Each request is one 8-byte little-endian unsigned integer.  The server
//! folds every received value into a running sum and answers — only when the
//! value is odd — with the 8-byte little-endian sum; the exchange ends when
//! the stream does.  The connection itself (a socket of any kind) is
//! supplied by the caller through the [`ByteConn`] trait; everything the
//! roles decide and sum is verified here.

use vstd::prelude::*;

use crate::client::lemma_session_sum_mono;
use crate::client::req_value;
use crate::client::session_sum;
use crate::errors::Error;
use vstd::bytes::u64_from_le_bytes;
use vstd::bytes::u64_to_le_bytes;

verus! {

/// A byte-stream connection as the two transport roles see it.  Implemented
/// by the embedding program over its sockets, and by tests over buffers;
/// nothing is assumed of it — a frame either goes through or the stream is
/// over.
pub trait ByteConn {
    /// Write one frame to the peer; reports whether the write succeeded.
    fn send(&mut self, frame: &[u8]) -> bool;

    /// Read one 8-byte frame from the peer; `None` once the stream is
    /// closed, failed, or delivers no full frame.
    fn recv(&mut self) -> Option<Vec<u8>>;
}

/// Fold one received value into the running sum (wrapping, as a checksum
/// over an untrusted stream must) and say whether this transport owes a
/// response: only odd values are answered.
pub fn stream_absorb(sum: u64, value: u64) -> (r: (u64, bool))
    ensures
        r.0 == vstd::wrapping::u64_specs::wrapping_add(sum, value),
        r.1 <==> value % 2 == 1,
{
    (sum.wrapping_add(value), value % 2 == 1)
}

/// The client side of the byte-stream exchange: send `num` requests — the
/// fixed `value`, or the counter sequence when absent — reading the response
/// back exactly for odd request values, and return the locally accumulated
/// sum.
///
/// Whenever the connection carries every frame, the result is the sum of the
/// request sequence; a connection failing mid-exchange surfaces as an error,
/// never as a wrong sum.  With no requests to send the connection is never
/// touched and the zero sum is owed.
pub fn client_conn<C: ByteConn>(mut conn: C, value: Option<u64>, num: u32) -> (r: Result<
    u64,
    Error,
>)
    requires
        session_sum(value, num as int) <= u64::MAX,
    ensures
        num == 0 ==> r == Result::<u64, Error>::Ok(0),
        r is Ok ==> r->Ok_0 == session_sum(value, num as int),
        r is Err ==> r->Err_0 == Error::ConnectionClosed,
{
    let mut sum: u64 = 0;
    let mut i: u32 = 0;
    while i < num
        invariant
            i <= num,
            sum == session_sum(value, i as int),
            session_sum(value, num as int) <= u64::MAX,
        decreases num - i,
    {
        proof {
            lemma_session_sum_mono(value, i + 1, num as int);
        }
        let v = req_value(value, i);
        let frame = u64_to_le_bytes(v);
        if !conn.send(frame.as_slice()) {
            return Result::Err(Error::ConnectionClosed);
        }
        sum = sum + v;
        i = i + 1;
        if v % 2 == 1 {
            // a response is owed: consume it to stay in step with the server
            match conn.recv() {
                Some(_) => {},
                None => {
                    return Result::Err(Error::ConnectionClosed);
                },
            }
        }
    }
    Result::Ok(sum)
}

/// The server side of the byte-stream exchange: consume frames until the
/// stream ends, folding each value into the running sum with
/// [`stream_absorb`] and answering the odd ones with the sum, then return
/// the sum.  A failed response write surfaces as an error; a truncated final
/// frame ends the stream like a close does.
pub fn server_conn<C: ByteConn>(mut conn: C) -> (r: Result<u64, Error>)
    ensures
        r is Err ==> r->Err_0 == Error::ConnectionClosed,
{
    let mut sum: u64 = 0;
    // One frame is consumed per turn; the budget gives the loop its measure
    // and cuts off only a stream of more than 2^64 frames.
    let mut budget: u64 = u64::MAX;
    loop
        decreases budget,
    {
        if budget == 0 {
            return Result::Ok(sum);
        }
        budget = budget - 1;
        match conn.recv() {
            None => {
                return Result::Ok(sum);
            },
            Some(frame) => {
                if frame.len() != 8 {
                    return Result::Ok(sum);
                }
                let v = u64_from_le_bytes(frame.as_slice());
                let folded = stream_absorb(sum, v);
                sum = folded.0;
                if folded.1 {
                    let resp = u64_to_le_bytes(sum);
                    if !conn.send(resp.as_slice()) {
                        return Result::Err(Error::ConnectionClosed);
                    }
                }
            },
        }
    }
}

} // verus!
