//! Record marking: one message travels over a byte stream as one record, and a
//! record is a run of fragments. Each fragment starts with four bytes in network
//! order: the top bit says whether the fragment is the last of its record, the
//! other 31 bits give the number of bytes that follow.

use crate::error::KrbError;
use crate::proto::reply::{spec_decode_response, KerberosResponse, KerberosResponseView};
use crate::proto::request::{spec_to_der, KerberosRequest};
use std::io::Write;
use vstd::prelude::*;
use xdr_codec::record::XdrRecordWriter;

verus! {

/// Largest fragment that a codec sends or accepts unless it is told otherwise.
pub const DEFAULT_MAX_SIZE: usize = 32768;

/// Largest fragment that a header can announce.
pub const MAX_FRAGMENT_SIZE: usize = 0x7fff_ffff;

/// The four bytes in front of a fragment of `len` bytes.
#[verifier::opaque]
pub open spec fn fragment_header(len: nat, last: bool) -> Seq<u8> {
    seq![
        ((len / 0x100_0000) % 0x80 + if last { 0x80nat } else { 0nat }) as u8,
        ((len / 0x1_0000) % 0x100) as u8,
        ((len / 0x100) % 0x100) as u8,
        (len % 0x100) as u8,
    ]
}

/// The fragment length that the first four bytes of `input` announce.
pub open spec fn header_length(input: Seq<u8>) -> nat
    recommends
        input.len() >= 4,
{
    ((input[0] as nat % 0x80) * 0x100_0000 + (input[1] as nat) * 0x1_0000 + (input[2] as nat)
        * 0x100 + (input[3] as nat)) as nat
}

/// Whether the first byte of `input` marks the last fragment of a record.
pub open spec fn header_is_last(input: Seq<u8>) -> bool
    recommends
        input.len() >= 4,
{
    input[0] >= 0x80
}

/// The bytes that carry `message` as one record in fragments of at most `max`
/// bytes.
///
/// With `mark_last` the fragment that holds the end of the message carries the
/// end marker, as the standard asks. Without it no fragment that holds data
/// carries the marker, and an empty fragment that does follows the data. That
/// second form is a workaround for servers that read the marker of a data
/// fragment as part of its length; it is not what the standard describes.
pub open spec fn record_stream(message: Seq<u8>, max: nat, mark_last: bool) -> Seq<u8>
    decreases message.len(),
{
    if message.len() <= max || max == 0 {
        if mark_last {
            fragment_header(message.len(), true) + message
        } else if message.len() > 0 {
            fragment_header(message.len(), false) + message + fragment_header(0, true)
        } else {
            fragment_header(0, true)
        }
    } else {
        fragment_header(max, false) + message.subrange(0, max as int) + record_stream(
            message.subrange(max as int, message.len() as int),
            max,
            mark_last,
        )
    }
}

/// The number of fragments in `record_stream` for a message of `len` bytes.
pub open spec fn fragment_count(len: nat, max: nat, mark_last: bool) -> nat
    decreases len,
{
    if len <= max || max == 0 {
        if mark_last || len == 0 {
            1
        } else {
            2
        }
    } else {
        1 + fragment_count((len - max) as nat, max, mark_last)
    }
}

/// What a receiver makes of the bytes it holds.
pub enum Deframed {
    /// A record is complete. `rest` is what follows it in the input.
    Record { message: Seq<u8>, rest: Seq<u8> },
    /// More bytes are needed. `partial` holds the fragments that are complete,
    /// `rest` the bytes of the fragment that is not.
    Pending { partial: Seq<u8>, rest: Seq<u8> },
    /// The header at the start of `rest` announces more than the maximum.
    TooLarge { partial: Seq<u8>, rest: Seq<u8> },
}

/// Reads fragments from `input` and appends them to `partial` until a record
/// ends, the input runs out, or a header announces more than `max` bytes.
pub open spec fn deframe(partial: Seq<u8>, input: Seq<u8>, max: nat) -> Deframed
    decreases input.len(),
{
    if input.len() < 4 {
        Deframed::Pending { partial, rest: input }
    } else if header_length(input) > max {
        Deframed::TooLarge { partial, rest: input }
    } else if input.len() < 4 + header_length(input) {
        Deframed::Pending { partial, rest: input }
    } else {
        let end = 4 + header_length(input) as int;
        let gathered = partial + input.subrange(4, end);
        let rest = input.subrange(end, input.len() as int);
        if header_is_last(input) {
            Deframed::Record { message: gathered, rest }
        } else {
            deframe(gathered, rest, max)
        }
    }
}

/// A header announces the length and the marker that it was made from.
pub proof fn lemma_header_roundtrip(len: nat, last: bool, tail: Seq<u8>)
    requires
        len <= MAX_FRAGMENT_SIZE,
    ensures
        header_length(fragment_header(len, last) + tail) == len,
        header_is_last(fragment_header(len, last) + tail) == last,
        fragment_header(len, last).len() == 4,
{
    reveal(fragment_header);
    let h = fragment_header(len, last);
    let s = h + tail;
    assert(s[0] == h[0] && s[1] == h[1] && s[2] == h[2] && s[3] == h[3]);
}

/// One fragment that is wholly there is taken off the input: its bytes are
/// gathered, and it ends the record where it carries the marker.
proof fn lemma_deframe_step(
    partial: Seq<u8>,
    last: bool,
    body: Seq<u8>,
    after: Seq<u8>,
    max: nat,
)
    requires
        body.len() <= max <= MAX_FRAGMENT_SIZE,
    ensures
        deframe(partial, fragment_header(body.len(), last) + body + after, max) == if last {
            Deframed::Record { message: partial + body, rest: after }
        } else {
            deframe(partial + body, after, max)
        },
{
    let n = body.len();
    let input = fragment_header(n, last) + body + after;
    assert(input =~= fragment_header(n, last) + (body + after));
    lemma_header_roundtrip(n, last, body + after);
    assert(input.subrange(4, 4 + n as int) =~= body);
    assert(input.subrange(4 + n as int, input.len() as int) =~= after);
}

/// A receiver that holds `partial` and is handed the stream of `message`,
/// followed by anything, completes the record: it yields `partial` and then
/// `message`, and leaves what followed the stream.
pub proof fn lemma_deframe_record_stream(
    partial: Seq<u8>,
    message: Seq<u8>,
    max: nat,
    mark_last: bool,
    tail: Seq<u8>,
)
    requires
        0 < max <= MAX_FRAGMENT_SIZE,
    ensures
        deframe(partial, record_stream(message, max, mark_last) + tail, max) == (Deframed::Record {
            message: partial + message,
            rest: tail,
        }),
    decreases message.len(),
{
    let n = message.len();
    let empty = Seq::<u8>::empty();
    let stream = record_stream(message, max, mark_last);
    if n <= max {
        if mark_last {
            lemma_deframe_step(partial, true, message, tail, max);
        } else if n > 0 {
            let after = fragment_header(0, true) + tail;
            lemma_deframe_step(partial, false, message, after, max);
            lemma_deframe_step(partial + message, true, empty, tail, max);
            assert(fragment_header(0, true) + empty + tail =~= after);
            assert(stream + tail =~= fragment_header(n, false) + message + after);
            assert(partial + message + empty =~= partial + message);
        } else {
            lemma_deframe_step(partial, true, empty, tail, max);
            assert(stream + tail =~= fragment_header(0, true) + empty + tail);
            assert(partial + empty =~= partial + message);
        }
    } else {
        let head = message.subrange(0, max as int);
        let more = message.subrange(max as int, n as int);
        let after = record_stream(more, max, mark_last) + tail;
        lemma_deframe_step(partial, false, head, after, max);
        assert(stream + tail =~= fragment_header(max, false) + head + after);
        lemma_deframe_record_stream(partial + head, more, max, mark_last, tail);
        assert(partial + head + more =~= partial + message);
    }
}

/// Where the bytes arrive in two pieces, the receiver ends as if it had been
/// handed both at once: what it held back after the first piece, with the
/// second piece behind it, reads as the whole input does.
pub proof fn lemma_deframe_resume(partial: Seq<u8>, first: Seq<u8>, second: Seq<u8>, max: nat)
    ensures
        match deframe(partial, first, max) {
            Deframed::Pending { partial: held, rest } => deframe(held, rest + second, max)
                == deframe(partial, first + second, max),
            Deframed::Record { message, rest } => deframe(partial, first + second, max) == (
            Deframed::Record { message, rest: rest + second }),
            Deframed::TooLarge { partial: held, rest } => deframe(partial, first + second, max) == (
            Deframed::TooLarge { partial: held, rest: rest + second }),
        },
    decreases first.len(),
{
    let whole = first + second;
    if first.len() >= 4 {
        assert(whole[0] == first[0] && whole[1] == first[1] && whole[2] == first[2] && whole[3]
            == first[3]);
        let n = header_length(first);
        if n <= max && first.len() >= 4 + n {
            let end = 4 + n as int;
            assert(whole.subrange(4, end) =~= first.subrange(4, end));
            assert(whole.subrange(end, whole.len() as int) =~= first.subrange(
                end,
                first.len() as int,
            ) + second);
            if !header_is_last(first) {
                lemma_deframe_resume(
                    partial + first.subrange(4, end),
                    first.subrange(end, first.len() as int),
                    second,
                    max,
                );
            }
        }
    }
}

/// A message that is sent as a record and received in two pieces, cut
/// anywhere, comes out as it went in, with nothing left over.
pub proof fn lemma_record_survives_any_cut(
    message: Seq<u8>,
    max: nat,
    mark_last: bool,
    cut: int,
)
    requires
        0 < max <= MAX_FRAGMENT_SIZE,
        0 <= cut <= record_stream(message, max, mark_last).len(),
    ensures
        ({
            let stream = record_stream(message, max, mark_last);
            let first = stream.subrange(0, cut);
            let second = stream.subrange(cut, stream.len() as int);
            match deframe(Seq::<u8>::empty(), first, max) {
                Deframed::Pending { partial, rest } => deframe(partial, rest + second, max) == (
                Deframed::Record { message, rest: Seq::<u8>::empty() }),
                Deframed::Record { message: got, rest } => got == message && rest + second
                    == Seq::<u8>::empty(),
                Deframed::TooLarge { .. } => false,
            }
        }),
{
    let stream = record_stream(message, max, mark_last);
    let first = stream.subrange(0, cut);
    let second = stream.subrange(cut, stream.len() as int);
    assert(first + second =~= stream);
    assert(stream + Seq::<u8>::empty() =~= stream);
    assert(Seq::<u8>::empty() + message =~= message);
    lemma_deframe_record_stream(
        Seq::<u8>::empty(),
        message,
        max,
        mark_last,
        Seq::<u8>::empty(),
    );
    lemma_deframe_resume(Seq::<u8>::empty(), first, second, max);
}

/// The stream of a message is the message and four bytes for each fragment, and
/// no fragment is longer than the maximum.
pub proof fn lemma_record_stream_len(message: Seq<u8>, max: nat, mark_last: bool)
    requires
        0 < max,
    ensures
        record_stream(message, max, mark_last).len() == message.len() + 4 * fragment_count(
            message.len(),
            max,
            mark_last,
        ),
    decreases message.len(),
{
    reveal(fragment_header);
    if message.len() > max {
        lemma_record_stream_len(
            message.subrange(max as int, message.len() as int),
            max,
            mark_last,
        );
    }
}

/// What a codec is set up with and what it holds.
pub struct CodecState {
    /// Largest fragment that the codec sends or accepts.
    pub max_fragment_size: nat,
    /// Whether the fragment that ends a message carries the end marker.
    pub mark_last: bool,
    /// The fragments received so far of a record that is not complete.
    pub partial: Seq<u8>,
}

/// The fragment size nearest to `size` that a header can announce and that lets
/// a message advance.
pub open spec fn clamp_fragment_size(size: usize) -> usize {
    if size == 0 {
        1
    } else if size > MAX_FRAGMENT_SIZE {
        MAX_FRAGMENT_SIZE
    } else {
        size
    }
}

/// Frames outgoing messages and gathers incoming ones, for one connection.
pub struct KerberosTcpCodec {
    max_size: usize,
    mark_last: bool,
    partial: Vec<u8>,
}

impl View for KerberosTcpCodec {
    type V = CodecState;

    closed spec fn view(&self) -> CodecState {
        CodecState {
            max_fragment_size: clamp_fragment_size(self.max_size) as nat,
            mark_last: self.mark_last,
            partial: self.partial@,
        }
    }
}

impl Default for KerberosTcpCodec {
    /// A codec for fragments of up to `DEFAULT_MAX_SIZE` bytes that marks the
    /// last fragment as the standard asks.
    fn default() -> (codec: Self)
        ensures
            codec@ == (CodecState {
                max_fragment_size: DEFAULT_MAX_SIZE as nat,
                mark_last: true,
                partial: Seq::empty(),
            }),
    {
        KerberosTcpCodec { max_size: DEFAULT_MAX_SIZE, mark_last: true, partial: Vec::new() }
    }
}

/// Writes `message` through `XdrRecordWriter::with_buffer`, `write_all` and
/// `flush_eor`, and lets the writer go out of scope.
///
/// The writer cuts the message into fragments of `max_fragment` bytes and keeps
/// the last one, which may be shorter, in its buffer. `flush_eor(true)` sends
/// that fragment with the end marker. `flush_eor(false)` sends it without, and
/// nothing if it is empty; the writer then sends an empty fragment with the end
/// marker when it is dropped. Writing into a `Vec` does not fail.
#[verifier::external_body]
fn xdr_write_record(message: &[u8], max_fragment: usize, mark_last: bool) -> (stream: Vec<u8>)
    requires
        0 < max_fragment <= MAX_FRAGMENT_SIZE,
    ensures
        stream@ == record_stream(message@, max_fragment as nat, mark_last),
{
    let mut stream: Vec<u8> = Vec::new();
    {
        let mut writer = XdrRecordWriter::with_buffer(&mut stream, max_fragment);
        let _ = writer.write_all(message);
        let _ = writer.flush_eor(mark_last);
    }
    stream
}

impl KerberosTcpCodec {
    /// A codec for fragments of up to `max_size` bytes, or nothing where no
    /// header can announce such a fragment.
    pub fn new(max_size: usize, mark_last: bool) -> (r: Option<Self>)
        ensures
            r is Some <==> 0 < max_size <= MAX_FRAGMENT_SIZE,
            r matches Some(codec) ==> codec@ == (CodecState {
                max_fragment_size: max_size as nat,
                mark_last,
                partial: Seq::empty(),
            }),
    {
        if 0 < max_size && max_size <= MAX_FRAGMENT_SIZE {
            Some(KerberosTcpCodec { max_size, mark_last, partial: Vec::new() })
        } else {
            None
        }
    }

    /// Largest fragment that the codec sends or accepts.
    pub fn max_fragment_size(&self) -> (max: usize)
        ensures
            max == self@.max_fragment_size,
            0 < max <= MAX_FRAGMENT_SIZE,
    {
        if self.max_size == 0 {
            1
        } else if self.max_size > MAX_FRAGMENT_SIZE {
            MAX_FRAGMENT_SIZE
        } else {
            self.max_size
        }
    }

    /// Whether the fragment that ends a message carries the end marker.
    pub fn marks_last_fragment(&self) -> (mark: bool)
        ensures
            mark == self@.mark_last,
    {
        self.mark_last
    }

    /// The number of bytes gathered for a record that is not complete yet.
    pub fn pending_len(&self) -> (len: usize)
        ensures
            len == self@.partial.len(),
    {
        self.partial.len()
    }

    /// Appends to `buf` the record that carries `message`.
    pub fn encode_record(&self, message: &[u8], buf: &mut Vec<u8>)
        ensures
            final(buf)@ == old(buf)@ + record_stream(
                message@,
                self@.max_fragment_size,
                self@.mark_last,
            ),
    {
        let max = self.max_fragment_size();
        // The writer allocates its whole buffer at once: ask for no more than the
        // message can fill.
        let buffer: usize = if message.len() >= max {
            max
        } else if message.len() == 0 {
            1
        } else {
            message.len()
        };
        let mut stream = xdr_write_record(message, buffer, self.mark_last);
        buf.append(&mut stream);
    }

    /// Takes complete fragments from the front of `buf` until a record ends.
    ///
    /// Returns the record once its last fragment is there, and nothing while
    /// bytes are missing: a header or a fragment that is only partly there stays
    /// in `buf`. A header that announces more than the maximum is an error, and
    /// it stays in `buf` with all that follows it.
    pub fn decode_record(&mut self, buf: &mut Vec<u8>) -> (r: Result<Option<Vec<u8>>, KrbError>)
        ensures
            final(self)@.max_fragment_size == old(self)@.max_fragment_size,
            final(self)@.mark_last == old(self)@.mark_last,
            match deframe(old(self)@.partial, old(buf)@, old(self)@.max_fragment_size) {
                Deframed::Record { message, rest } => {
                    &&& r matches Ok(Some(m))
                    &&& m@ == message
                    &&& final(self)@.partial == Seq::<u8>::empty()
                    &&& final(buf)@ == rest
                },
                Deframed::Pending { partial, rest } => {
                    &&& r == Ok::<Option<Vec<u8>>, KrbError>(None)
                    &&& final(self)@.partial == partial
                    &&& final(buf)@ == rest
                },
                Deframed::TooLarge { partial, rest } => {
                    &&& r == Err::<Option<Vec<u8>>, KrbError>(KrbError::FrameTooLarge)
                    &&& final(self)@.partial == partial
                    &&& final(buf)@ == rest
                },
            },
            old(buf)@.len() >= 4 && header_length(old(buf)@) > old(self)@.max_fragment_size ==> {
                &&& r == Err::<Option<Vec<u8>>, KrbError>(KrbError::FrameTooLarge)
                &&& final(buf)@ == old(buf)@
                &&& final(self)@.partial == old(self)@.partial
            },
    {
        let ghost goal = deframe(self@.partial, buf@, self@.max_fragment_size);
        let max = self.max_fragment_size();
        let mut pos: usize = 0;
        let mut outcome: Result<Option<Vec<u8>>, KrbError> = Ok(None);
        assert(buf@.subrange(0, buf@.len() as int) =~= buf@);
        loop
            invariant_except_break
                outcome == Ok::<Option<Vec<u8>>, KrbError>(None),
                goal == deframe(self.partial@, buf@.subrange(pos as int, buf@.len() as int),
                    max as nat),
            invariant
                pos <= buf.len(),
                buf@ == old(buf)@,
                self.max_size == old(self).max_size,
                max == clamp_fragment_size(self.max_size),
                self.mark_last == old(self).mark_last,
                0 < max <= MAX_FRAGMENT_SIZE,
            ensures
                match goal {
                    Deframed::Record { message, rest } => {
                        &&& outcome matches Ok(Some(m))
                        &&& m@ == message
                        &&& self.partial@ == Seq::<u8>::empty()
                        &&& rest == buf@.subrange(pos as int, buf@.len() as int)
                    },
                    Deframed::Pending { partial, rest } => {
                        &&& outcome == Ok::<Option<Vec<u8>>, KrbError>(None)
                        &&& self.partial@ == partial
                        &&& rest == buf@.subrange(pos as int, buf@.len() as int)
                    },
                    Deframed::TooLarge { partial, rest } => {
                        &&& outcome == Err::<Option<Vec<u8>>, KrbError>(KrbError::FrameTooLarge)
                        &&& self.partial@ == partial
                        &&& rest == buf@.subrange(pos as int, buf@.len() as int)
                    },
                },
            decreases buf.len() - pos,
        {
            let ghost input = buf@.subrange(pos as int, buf@.len() as int);
            if buf.len() - pos < 4 {
                break ;
            }
            let b0: u8 = buf[pos];
            let b1: u8 = buf[pos + 1];
            let b2: u8 = buf[pos + 2];
            let b3: u8 = buf[pos + 3];
            assert(input[0] == b0 && input[1] == b1 && input[2] == b2 && input[3] == b3);
            let announced: u32 = ((b0 % 0x80) as u32) * 0x100_0000 + (b1 as u32) * 0x1_0000 + (
            b2 as u32) * 0x100 + (b3 as u32);
            let last: bool = b0 >= 0x80;
            assert(announced == header_length(input));
            let n: usize = announced as usize;
            if n > max {
                outcome = Err(KrbError::FrameTooLarge);
                break ;
            }
            if buf.len() - pos - 4 < n {
                break ;
            }
            let start: usize = pos + 4;
            let end: usize = start + n;
            let piece = vstd::slice::slice_subrange(buf.as_slice(), start, end);
            let mut copy = vstd::slice::slice_to_vec(piece);
            assert(copy@ =~= input.subrange(4, 4 + n as int));
            self.partial.append(&mut copy);
            assert(buf@.subrange(end as int, buf@.len() as int) =~= input.subrange(
                4 + n as int,
                input.len() as int,
            ));
            pos = end;
            if last {
                let message = self.partial.split_off(0);
                outcome = Ok(Some(message));
                break ;
            }
        }
        let rest = buf.split_off(pos);
        *buf = rest;
        outcome
    }

    /// Appends to `buf` the record that carries the request `msg`. A request
    /// that cannot be written leaves `buf` as it is.
    pub fn encode(&self, msg: &KerberosRequest, buf: &mut Vec<u8>) -> (r: Result<(), KrbError>)
        ensures
            match r {
                Ok(()) => spec_to_der(msg@) matches Some(der) && final(buf)@ == old(buf)@
                    + record_stream(der, self@.max_fragment_size, self@.mark_last),
                Err(e) => e == KrbError::DerEncodeKdcReq && spec_to_der(msg@) is None
                    && final(buf)@ == old(buf)@,
            },
    {
        match msg.to_der() {
            Ok(der) => {
                self.encode_record(der.as_slice(), buf);
                Ok(())
            },
            Err(e) => Err(e),
        }
    }

    /// Takes complete fragments from the front of `buf` until a record ends,
    /// and reads the reply that the record carries.
    ///
    /// Returns nothing while bytes are missing. A header that announces more
    /// than the maximum is an error before anything of the fragment is taken,
    /// and a record that is no reply is the error that reading it gives.
    pub fn decode(&mut self, buf: &mut Vec<u8>) -> (r: Result<Option<KerberosResponse>, KrbError>)
        ensures
            final(self)@.max_fragment_size == old(self)@.max_fragment_size,
            final(self)@.mark_last == old(self)@.mark_last,
            match deframe(old(self)@.partial, old(buf)@, old(self)@.max_fragment_size) {
                Deframed::Record { message, rest } => {
                    &&& final(self)@.partial == Seq::<u8>::empty()
                    &&& final(buf)@ == rest
                    &&& match r {
                        Ok(Some(response)) => spec_decode_response(message) == Ok::<
                            KerberosResponseView,
                            KrbError,
                        >(response@),
                        Ok(None) => false,
                        Err(e) => spec_decode_response(message) == Err::<
                            KerberosResponseView,
                            KrbError,
                        >(e),
                    }
                },
                Deframed::Pending { partial, rest } => {
                    &&& r is Ok && r->Ok_0 is None
                    &&& final(self)@.partial == partial
                    &&& final(buf)@ == rest
                },
                Deframed::TooLarge { partial, rest } => {
                    &&& r is Err && r->Err_0 == KrbError::FrameTooLarge
                    &&& final(self)@.partial == partial
                    &&& final(buf)@ == rest
                },
            },
    {
        match self.decode_record(buf) {
            Ok(Some(message)) => match KerberosResponse::decode(message.as_slice()) {
                Ok(response) => Ok(Some(response)),
                Err(e) => Err(e),
            },
            Ok(None) => Ok(None),
            Err(e) => Err(e),
        }
    }
}

} // verus!
