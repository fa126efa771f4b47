use vstd::prelude::*;
use crate::error::{stream_bridged, stream_failure, Error, ErrorModel, ErrorReport};

verus! {

/// Native whence code: offset from the start of the stream.
pub const SEEK_SET: i32 = 0;

/// Native whence code: offset from the current position.
pub const SEEK_CUR: i32 = 1;

/// Native whence code: offset from the end of the stream.
pub const SEEK_END: i32 = 2;

/// A position to seek to.
#[derive(Clone, Copy, Debug, PartialEq, Eq, Structural)]
pub enum SeekPosition {
    /// An absolute offset from the start.
    Start(u64),
    /// An offset relative to the end.
    End(i64),
    /// An offset relative to the current position.
    Current(i64),
}

/// The arguments of one native seek call.
#[derive(Clone, Copy, Debug, PartialEq, Eq, Structural)]
pub struct SeekRequest {
    pub offset: i64,
    pub whence: i32,
}

/// The native seek call that stands for `pos`; `None` for an absolute
/// offset that the native signed offset cannot hold.
pub open spec fn request_for(pos: SeekPosition) -> Option<SeekRequest> {
    match pos {
        SeekPosition::Start(k) => if k <= i64::MAX {
            Some(SeekRequest { offset: k as i64, whence: SEEK_SET })
        } else {
            None
        },
        SeekPosition::End(k) => Some(SeekRequest { offset: k, whence: SEEK_END }),
        SeekPosition::Current(k) => Some(SeekRequest { offset: k, whence: SEEK_CUR }),
    }
}

/// A model of the native seek: where a stream of `size` bytes that stands at
/// `current` would stand after `req`, if the native library follows the usual
/// offset rules (the offset is added to the start, the current position or the
/// end, and a negative result or an unknown whence code is refused). No
/// contract ties the native call to this model; it serves to state what the
/// requests built by [`seek_request`] mean.
pub open spec fn seek_target(size: int, current: int, req: SeekRequest) -> Option<int> {
    let base = if req.whence == SEEK_SET {
        Some(0int)
    } else if req.whence == SEEK_CUR {
        Some(current)
    } else if req.whence == SEEK_END {
        Some(size)
    } else {
        None
    };
    match base {
        Some(b) => if b + req.offset >= 0 {
            Some(b + req.offset)
        } else {
            None
        },
        None => None,
    }
}

/// Translates a position into the arguments of the native seek call. An
/// absolute offset beyond the native signed range is refused here, before
/// any native call.
pub fn seek_request(pos: SeekPosition) -> (r: Result<SeekRequest, Error>)
    ensures
        r is Ok <==> request_for(pos) is Some,
        r is Ok ==> r->Ok_0 == request_for(pos)->Some_0,
        r is Err ==> r->Err_0@ == ErrorModel::StreamIoFailure(None),
{
    match pos {
        SeekPosition::Start(k) => {
            if k <= i64::MAX as u64 {
                Ok(SeekRequest { offset: k as i64, whence: SEEK_SET })
            } else {
                Err(Error::StreamIoFailure(None))
            }
        },
        SeekPosition::End(k) => Ok(SeekRequest { offset: k, whence: SEEK_END }),
        SeekPosition::Current(k) => Ok(SeekRequest { offset: k, whence: SEEK_CUR }),
    }
}

/// Outcome of the native seek call: a negative return is a failure, bridged
/// from the error slot; any other value is the new absolute offset.
pub fn seek_result(ret: i64, report: ErrorReport) -> (r: Result<u64, Error>)
    ensures
        ret >= 0 ==> r is Ok && r->Ok_0 == ret,
        ret < 0 ==> r is Err && r->Err_0@ == stream_bridged(report),
{
    if ret < 0 {
        Err(stream_failure(report))
    } else {
        Ok(ret as u64)
    }
}

/// Outcome of the native read call into a buffer of `requested` bytes: a
/// negative return is a failure, bridged from the error slot; otherwise it is
/// the number of bytes read, which may be short, and is zero at the end of the
/// stream. A count larger than the buffer broke the native contract and is
/// refused.
pub fn read_result(ret: isize, requested: usize, report: ErrorReport) -> (r: Result<usize, Error>)
    ensures
        0 <= ret <= requested ==> r is Ok && r->Ok_0 == ret,
        ret < 0 ==> r is Err && r->Err_0@ == stream_bridged(report),
        ret > requested ==> r is Err && r->Err_0@ == ErrorModel::StreamIoFailure(None),
        ret == 0 ==> r is Ok && r->Ok_0 == 0,
{
    if ret < 0 {
        Err(stream_failure(report))
    } else if ret as usize > requested {
        Err(Error::StreamIoFailure(None))
    } else {
        Ok(ret as usize)
    }
}

/// What a reader to the end does after one read.
#[derive(Debug)]
pub enum DrainStep {
    /// Bytes came: read again.
    Continue,
    /// A read of zero bytes: the stream is at its end.
    Finished,
    /// The read failed.
    Failed(Error),
}

/// Gathers a whole stream by reading until a read of zero bytes.
pub struct ReadToEnd {
    pub data: Vec<u8>,
}

impl ReadToEnd {
    /// Nothing gathered yet.
    pub fn new() -> (r: ReadToEnd)
        ensures
            r.data@ == Seq::<u8>::empty(),
    {
        ReadToEnd { data: Vec::new() }
    }

    /// Takes the outcome of one read into `buf` and says what comes next.
    pub fn step(&mut self, outcome: Result<usize, Error>, buf: &[u8]) -> (r: DrainStep)
        ensures
            outcome is Ok && outcome->Ok_0 == 0 ==> r is Finished && final(self).data@ == old(
                self,
            ).data@,
            outcome is Ok && 0 < outcome->Ok_0 <= buf@.len() ==> r is Continue && final(self).data@
                == old(self).data@ + buf@.take(outcome->Ok_0 as int),
            outcome is Ok && outcome->Ok_0 > buf@.len() ==> r is Failed && r->Failed_0@
                == ErrorModel::StreamIoFailure(None) && final(self).data@ == old(self).data@,
            outcome is Err ==> r is Failed && r->Failed_0 == outcome->Err_0 && final(self).data@
                == old(self).data@,
    {
        match outcome {
            Err(e) => DrainStep::Failed(e),
            Ok(n) => {
                if n == 0 {
                    DrainStep::Finished
                } else if n > buf.len() {
                    DrainStep::Failed(Error::StreamIoFailure(None))
                } else {
                    let ghost before = self.data@;
                    let mut i: usize = 0;
                    while i < n
                        invariant
                            n <= buf@.len(),
                            i <= n,
                            self.data@ == before + buf@.take(i as int),
                        decreases n - i,
                    {
                        self.data.push(buf[i]);
                        i = i + 1;
                        assert(buf@.take(i as int) =~= buf@.take(i - 1).push(buf@[i - 1]));
                    }
                    DrainStep::Continue
                }
            },
        }
    }
}

/// In the seek model [`seek_target`]: the request for an absolute offset `k`
/// brings a stream of `size` bytes where the requests for rewinding to the
/// start and then moving forward by `k` bring it, wherever it stood before
/// either. This is a statement about the requests and the model, not about
/// the bytes that the native library then reads.
pub proof fn lemma_seek_start_matches_rewind_then_advance(
    size: int,
    first: int,
    second: int,
    k: u64,
)
    requires
        0 <= first,
        0 <= second,
        k <= i64::MAX,
    ensures
        request_for(SeekPosition::Start(k)) is Some,
        request_for(SeekPosition::Start(0)) is Some,
        request_for(SeekPosition::Current(k as i64)) is Some,
        ({
            let direct = seek_target(size, first, request_for(SeekPosition::Start(k))->Some_0);
            let rewound = seek_target(size, second, request_for(SeekPosition::Start(0))->Some_0);
            &&& direct == Some(k as int)
            &&& rewound is Some
            &&& seek_target(
                size,
                rewound->Some_0,
                request_for(SeekPosition::Current(k as i64))->Some_0,
            ) == direct
        }),
{
}

} // verus!
