//! Control messages between peers.

use crate::error::Status;
use crate::text;
use buf_list::BufList;
use thin_status::ErrorCode;
use vstd::prelude::*;

pub mod v1;

verus! {

/// How many bytes a message takes at most, this number itself left out.
pub const MAX_MESSAGE_SIZE: usize = 2048;

/// Makes the response that reports an error.
pub fn status_to_control(status: Status) -> (r: v1::ControlResponse)
    ensures
        r.status is Some,
        r.status->0.code == status.code,
        r.status->0.message is Some,
        r.status->0.message->0@ == status.message@,
{
    v1::ControlResponse {
        status: Some(v1::Status { code: status.code, message: Some(status.message) }),
    }
}

/// Whether a response reports an error: it has a status with a number other than 0.
pub open spec fn is_failure(response: v1::ControlResponse) -> bool {
    response.status is Some && response.status->0.code != 0
}

/// The message of the error that a response reports.
pub open spec fn failure_message(response: v1::ControlResponse) -> Seq<char> {
    match response.status->0.message {
        Some(message) => message@,
        None => ""@,
    }
}

/// Makes a result of a response.
pub fn control_to_status(response: v1::ControlResponse) -> (r: Result<(), Status>)
    ensures
        r is Err <==> is_failure(response),
        r is Err <==> response.status is Some && response.status->0.code != 0,
        r is Err && response.status->0.message is Some ==> r->Err_0.message@
            == response.status->0.message->0@,
        r is Err && response.status->0.message is None ==> r->Err_0.message@ == ""@,
        r is Err ==> {
            &&& r->Err_0.wf()
            &&& r->Err_0.code == response.status->0.code
            &&& r->Err_0.message@ == failure_message(response)
        },
{
    match response.status {
        Some(status) => {
            if status.code == 0 {
                return Ok(());
            }
            let message = match status.message {
                Some(message) => message,
                None => "".to_owned(),
            };
            Err(Status { code: status.code, message })
        },
        None => Ok(()),
    }
}

/// Whether a response reports how handling a request went: it has no status for a success, and the
/// number and the message of an error.
pub open spec fn reports(response: v1::ControlResponse, handled: Result<(), Status>) -> bool {
    match handled {
        Ok(_) => response.status is None,
        Err(status) => {
            &&& response.status is Some
            &&& response.status->0.code == status.code
            &&& response.status->0.message is Some
            &&& response.status->0.message->0@ == status.message@
        },
    }
}

/// Makes the response to a request, given how handling it went.
pub fn response_to(handled: Result<(), Status>) -> (r: v1::ControlResponse)
    ensures
        reports(r, handled),
        r.status is Some <==> handled is Err,
        handled is Err ==> {
            &&& r.status->0.code == handled->Err_0.code
            &&& r.status->0.message is Some
            &&& r.status->0.message->0@ == handled->Err_0.message@
        },
{
    match handled {
        Ok(()) => v1::ControlResponse { status: None },
        Err(status) => status_to_control(status),
    }
}

/// A peer learns from the response just how handling its request went: `control_to_status` undoes
/// `response_to`.
pub proof fn responses_tell_the_result(response: v1::ControlResponse, handled: Result<(), Status>)
    requires
        reports(response, handled),
        handled is Err ==> handled->Err_0.wf(),
    ensures
        is_failure(response) <==> handled is Err,
        handled is Err ==> response.status->0.code == handled->Err_0.code && failure_message(
            response,
        ) == handled->Err_0.message@,
{
}

/// The code with which a stream is stopped after a message was read from it: 0, or that of `Aborted`
/// if the message is malformed.
pub fn stop_code(decoded: bool) -> (r: u32)
    ensures
        r == (if decoded {
            0u32
        } else {
            10
        }),
{
    if decoded {
        0
    } else {
        Status::new(ErrorCode::Aborted, "".to_owned()).close_frame().0
    }
}

/// `buf_list::BufList`.
#[verifier::external_type_specification]
#[verifier::external_body]
pub struct ExBufList(buf_list::BufList);

/// The bytes of all chunks of a list, in order.
pub uninterp spec fn list_bytes(list: BufList) -> Seq<u8>;

/// Calls `BufList::new`: the list is empty.
#[verifier::external_body]
fn new_list() -> (r: BufList)
    ensures
        list_bytes(r).len() == 0,
{
    BufList::new()
}

/// Calls `BufList::push_chunk`: the bytes of the chunk come after those that the list has already.
#[verifier::external_body]
fn list_push(list: &mut BufList, chunk: Vec<u8>)
    ensures
        list_bytes(*final(list)) == list_bytes(*old(list)) + chunk@,
{
    list.push_chunk(bytes::Bytes::from(chunk));
}

/// Calls `BufList::num_bytes`: it counts the bytes of all chunks. The count has to fit in its type.
#[verifier::external_body]
fn list_len(list: &BufList) -> (r: usize)
    requires
        list_bytes(*list).len() <= usize::MAX,
    ensures
        r == list_bytes(*list).len(),
{
    list.num_bytes()
}

/// Accumulates the chunks of a stream, up to a limit.
pub struct StreamReader {
    list: BufList,
    max_bytes: usize,
}

/// The bytes of chunks, in order.
pub open spec fn joined(chunks: Seq<Vec<u8>>) -> Seq<u8> {
    chunks.map_values(|chunk: Vec<u8>| chunk@).flatten()
}

/// Whether chunks can be added to what was read without reaching the limit.
pub open spec fn fits(limit: nat, read: Seq<u8>, chunks: Seq<Vec<u8>>) -> bool {
    chunks.len() == 0 || read.len() + joined(chunks).len() < limit
}

/// The message for a stream that reaches the limit.
pub open spec fn too_long_message(max_bytes: nat) -> Seq<char> {
    "stream longer than the limit of "@ + text::decimal(max_bytes) + " bytes"@
}

fn too_long(max_bytes: usize) -> (r: Status)
    ensures
        r.wf(),
        r.is(ErrorCode::OutOfRange, too_long_message(max_bytes as nat)),
{
    let mut message = "stream longer than the limit of ".to_owned();
    message.append(text::decimal_text(max_bytes).as_str());
    message.append(" bytes");
    Status::new(ErrorCode::OutOfRange, message)
}

impl StreamReader {
    /// The bytes read so far.
    pub closed spec fn read(self) -> Seq<u8> {
        list_bytes(self.list)
    }

    /// The number of bytes that is too many.
    pub closed spec fn limit(self) -> nat {
        self.max_bytes as nat
    }

    /// The limit was not reached, unless nothing was read.
    pub open spec fn wf(self) -> bool {
        self.read().len() == 0 || self.read().len() < self.limit()
    }

    /// A reader that has read nothing.
    pub fn new(max_bytes: usize) -> (r: StreamReader)
        ensures
            r.wf(),
            r.read().len() == 0,
            r.limit() == max_bytes,
    {
        StreamReader { list: new_list(), max_bytes }
    }

    /// Adds chunks to what was read. Fails if the limit is reached.
    pub fn accept(self, chunks: Vec<Vec<u8>>) -> (r: Result<StreamReader, Status>)
        requires
            self.wf(),
        ensures
            r is Ok <==> fits(self.limit(), self.read(), chunks@),
            r is Ok <==> chunks@.len() == 0 || self.read().len() + joined(chunks@).len()
                < self.limit(),
            r is Ok ==> {
                &&& r->Ok_0.wf()
                &&& r->Ok_0.read() == self.read() + joined(chunks@)
                &&& r->Ok_0.limit() == self.limit()
            },
            r is Err ==> r->Err_0.is(ErrorCode::OutOfRange, too_long_message(self.limit())),
            r is Err ==> r->Err_0.code == 11 && r->Err_0.message@
                == "stream longer than the limit of "@ + text::decimal(self.limit()) + " bytes"@,
    {
        let mut reader = self;
        let ghost all = chunks@;
        let ghost mut done: int = 0;
        for chunk in it: chunks
            invariant
                reader.wf(),
                reader.limit() == self.limit(),
                it.seq() == all,
                done == it.index(),
                reader.read() == self.read() + joined(all.take(done)),
                done > 0 ==> reader.read().len() < self.limit(),
        {
            let len: usize = chunk.len();
            let have: usize = list_len(&reader.list);
            proof {
                joined_with_one_more(all, done);
                joined_is_no_shorter(all, done + 1);
            }
            list_push(&mut reader.list, chunk);
            if have >= reader.max_bytes || len >= reader.max_bytes - have {
                return Err(too_long(reader.max_bytes));
            }
            proof {
                done = done + 1;
            }
        }
        assert(all.take(done) == all);
        Ok(reader)
    }

    /// Gives what was read, at the end of the stream.
    pub fn finish(self) -> (r: BufList)
        ensures
            list_bytes(r) == self.read(),
    {
        self.list
    }
}

proof fn joined_with_one_more(chunks: Seq<Vec<u8>>, i: int)
    requires
        0 <= i < chunks.len(),
    ensures
        joined(chunks.take(i + 1)) == joined(chunks.take(i)) + chunks[i]@,
{
    let f = |chunk: Vec<u8>| chunk@;
    assert(chunks.take(i + 1).map_values(f) == chunks.take(i).map_values(f).push(chunks[i]@));
    chunks.take(i).map_values(f).lemma_flatten_push(chunks[i]@);
}

proof fn joined_is_no_shorter(chunks: Seq<Vec<u8>>, i: int)
    requires
        0 <= i <= chunks.len(),
    ensures
        joined(chunks.take(i)).len() <= joined(chunks).len(),
    decreases chunks.len() - i,
{
    if i < chunks.len() {
        joined_with_one_more(chunks, i);
        joined_is_no_shorter(chunks, i + 1);
    } else {
        assert(chunks.take(i) == chunks);
    }
}

/// A reader goes on exactly as long as it has read fewer bytes than its limit: chunks are accepted if
/// there are none, or if the bytes read so far and theirs are fewer than the limit together; and they
/// are refused if there are any and the sum reaches the limit.
pub proof fn the_limit_is_where_it_is_said(limit: nat, read: Seq<u8>, chunks: Seq<Vec<u8>>)
    ensures
        chunks.len() == 0 ==> fits(limit, read, chunks),
        read.len() + joined(chunks).len() < limit ==> fits(limit, read, chunks),
        chunks.len() > 0 && read.len() + joined(chunks).len() >= limit ==> !fits(
            limit,
            read,
            chunks,
        ),
{
}

/// A message that is shorter than the limit is read whole, however it is cut into chunks and however
/// the chunks are handed over: `a` in one go and `b` in another. One that is not is refused.
pub proof fn messages_below_the_limit_are_read(
    limit: nat,
    message: Seq<u8>,
    a: Seq<Vec<u8>>,
    b: Seq<Vec<u8>>,
)
    requires
        joined(a + b) == message,
        a.len() > 0,
        b.len() > 0,
    ensures
        message.len() < limit ==> fits(limit, Seq::empty(), a) && fits(limit, joined(a), b)
            && joined(a) + joined(b) == message,
        message.len() >= limit ==> !fits(limit, Seq::empty(), a) || !fits(limit, joined(a), b),
        message.len() < 2048 <==> fits(MAX_MESSAGE_SIZE as nat, Seq::empty(), a) && fits(
            MAX_MESSAGE_SIZE as nat,
            joined(a),
            b,
        ),
{
    let empty: Seq<u8> = Seq::empty();
    let f = |chunk: Vec<u8>| chunk@;
    assert((a + b).map_values(f) == a.map_values(f) + b.map_values(f));
    vstd::seq_lib::lemma_flatten_concat(a.map_values(f), b.map_values(f));
    assert(joined(a + b) == joined(a) + joined(b));
}

/// What chunks hold together: a single chunk its own bytes, and one more chunk its bytes after those of
/// the others.
pub proof fn chunks_are_joined_in_order(chunks: Seq<Vec<u8>>, chunk: Vec<u8>)
    ensures
        joined(Seq::empty()) == Seq::<u8>::empty(),
        joined(seq![chunk]) == chunk@,
        joined(chunks.push(chunk)) == joined(chunks) + chunk@,
        joined(chunks.push(chunk)).len() == joined(chunks).len() + chunk@.len(),
{
    let none: Seq<Vec<u8>> = Seq::empty();
    let f = |chunk: Vec<u8>| chunk@;
    let all = chunks.push(chunk);
    joined_with_one_more(all, chunks.len() as int);
    assert(all.take(chunks.len() as int) == chunks);
    assert(all.take(chunks.len() as int + 1) == all);
    assert(none.map_values(f).len() == 0);
    assert(joined(none) == Seq::<u8>::empty());
    let one = seq![chunk];
    joined_with_one_more(one, 0);
    assert(one.take(0) == none);
    assert(one.take(1) == one);
}

/// A response is an error exactly if it has a status whose number is not 0; without a message, the
/// message is empty.
pub proof fn responses_are_errors_by_their_number(response: v1::ControlResponse)
    ensures
        is_failure(response) <==> response.status is Some && response.status->0.code != 0,
        response.status is Some && response.status->0.message is Some ==> failure_message(response)
            == response.status->0.message->0@,
        response.status is Some && response.status->0.message is None ==> failure_message(response)
            == ""@,
{
}

/// It does not matter how a stream is cut: chunks that are added in two goes are read, or found to be
/// too long, just as if they were added in one.
pub proof fn cuts_do_not_matter(limit: nat, read: Seq<u8>, a: Seq<Vec<u8>>, b: Seq<Vec<u8>>)
    requires
        read.len() == 0 || read.len() < limit,
    ensures
        read + joined(a + b) == read + joined(a) + joined(b),
        fits(limit, read, a + b) <==> fits(limit, read, a) && fits(limit, read + joined(a), b),
{
    let f = |chunk: Vec<u8>| chunk@;
    assert((a + b).map_values(f) == a.map_values(f) + b.map_values(f));
    vstd::seq_lib::lemma_flatten_concat(a.map_values(f), b.map_values(f));
    if a.len() == 0 {
        assert(joined(a).len() == 0);
    }
    if b.len() == 0 {
        assert(joined(b).len() == 0);
    }
}

} // verus!
