//! The configuration of TUN interfaces, and the loops that read and write their frames.

use crate::buffer_pool;
use crate::error::IoFailure;
use crate::osal::buffer_pool::PooledSlice;
use crate::text;
use error::{transient_errors, TransientErrors};
use std::io::ErrorKind;
use vstd::prelude::*;
use vstd::utf8;

pub mod error;

verus! {

/// The flags that an interface can be asked for with.
struct InterfaceFlags {
    /// Carry IP packets.
    tun: i32,
    /// Carry nothing but the packets.
    no_pi: i32,
    /// Let the interface be opened more than once, each time for a queue of its own.
    multi_queue: i32,
}

/// Reads the constants `IFF_TUN`, `IFF_NO_PI` and `IFF_MULTI_QUEUE` of `libc`, which are the same on
/// all processors that Linux and Android run on.
#[verifier::external_body]
fn interface_flags() -> (r: InterfaceFlags)
    ensures
        r.tun == 0x0001,
        r.no_pi == 0x1000,
        r.multi_queue == 0x0100,
{
    InterfaceFlags {
        tun: libc::IFF_TUN,
        no_pi: libc::IFF_NO_PI,
        multi_queue: libc::IFF_MULTI_QUEUE,
    }
}

/// Gives the flags that an interface is asked for with: a TUN interface with several queues, whose
/// frames are IP packets and nothing else.
pub fn tun_flags() -> (r: i16)
    ensures
        r == 0x0001 + 0x1000 + 0x0100,
        r & 0x0100 == 0x0100,
{
    let flags = interface_flags();
    assert(0x0001i32 | 0x1000i32 | 0x0100i32 == 0x1101i32) by (bit_vector);
    assert(0x1101i16 & 0x0100i16 == 0x0100i16) by (bit_vector);
    (flags.tun | flags.no_pi | flags.multi_queue) as i16
}

/// What follows a read of a frame.
pub enum FrameAction {
    /// Hand on the frame.
    Forward(PooledSlice),
    /// The frame is empty: give back its buffer, and read on.
    Skip(PooledSlice),
    /// Count a transient error under its name, and read on.
    Retry(&'static str),
    /// End with the error.
    Fail(IoFailure),
}

impl FrameAction {
    /// Whether this is what follows a read, given which errors are transient: a frame that holds
    /// anything is handed on, an empty one is skipped, a transient error is passed over, and any other
    /// one ends the loop.
    pub open spec fn follows(
        self,
        transient: TransientErrors,
        frame: Result<PooledSlice, IoFailure>,
    ) -> bool {
        match frame {
            Ok(frame) => if frame.owned().filled().len() > 0 {
                self == FrameAction::Forward(frame)
            } else {
                self == FrameAction::Skip(frame)
            },
            Err(failure) => match transient.name(failure.raw_os_error) {
                Some(name) => self is Retry && self->Retry_0@ == name,
                None => self == FrameAction::Fail(failure),
            },
        }
    }
}

/// A frame is handed on exactly if it holds anything, and then it is that frame; an empty one is
/// skipped. An error with one of the numbers of the transient ones is passed over, and any other one
/// ends the loop.
pub proof fn frames_are_handed_on(
    transient: TransientErrors,
    frame: Result<PooledSlice, IoFailure>,
    action: FrameAction,
)
    requires
        action.follows(transient, frame),
    ensures
        action is Forward <==> frame is Ok && frame->Ok_0.owned().filled().len() > 0,
        action is Forward ==> action->Forward_0 == frame->Ok_0,
        action is Skip <==> frame is Ok && frame->Ok_0.owned().filled().len() == 0,
        action is Skip ==> action->Skip_0 == frame->Ok_0,
        action is Retry <==> frame is Err && frame->Err_0.raw_os_error is Some && {
            let number = frame->Err_0.raw_os_error->0;
            ||| number == transient.eagain
            ||| number == transient.eintr
            ||| number == transient.einval
            ||| number == transient.emsgsize
            ||| number == transient.enobufs
        },
        action is Retry ==> Some(action->Retry_0@) == transient.name(frame->Err_0.raw_os_error),
        action is Fail <==> frame is Err && !(action is Retry),
        action is Fail ==> action->Fail_0 == frame->Err_0,
{
}

/// A frame is done with exactly if all its bytes were written. A write of only some of them ends the
/// loop, with an error that tells both numbers. An error with one of the numbers of the transient ones
/// loses the frame, and any other one ends the loop.
pub proof fn frames_are_written_whole(
    transient: TransientErrors,
    frame: PooledSlice,
    written: Result<usize, IoFailure>,
    action: WriteAction,
)
    requires
        action.follows(transient, frame, written),
    ensures
        action is Done <==> written is Ok && written->Ok_0 == frame.owned().filled().len(),
        action is Lost <==> written is Err && written->Err_0.raw_os_error is Some && {
            let number = written->Err_0.raw_os_error->0;
            ||| number == transient.eagain
            ||| number == transient.eintr
            ||| number == transient.einval
            ||| number == transient.emsgsize
            ||| number == transient.enobufs
        },
        action is Lost ==> Some(action->Lost_0@) == transient.name(written->Err_0.raw_os_error),
        action is Fail <==> !(action is Done) && !(action is Lost),
        action is Fail && written is Err ==> action->Fail_0 == written->Err_0,
        action is Fail && written is Ok ==> {
            &&& action->Fail_0.raw_os_error is None
            &&& action->Fail_0.kind == ErrorKind::Other
            &&& action->Fail_0.message@ == "Buffer length "@ + text::decimal(
                frame.owned().filled().len(),
            ) + " != written "@ + text::decimal(written->Ok_0 as nat)
        },
{
}

/// Decides what follows a read of a frame, given which errors are transient.
pub fn after_read(
    transient: &TransientErrors,
    frame: Result<PooledSlice, IoFailure>,
) -> (r: FrameAction)
    ensures
        r.follows(*transient, frame),
        r is Forward <==> frame is Ok && frame->Ok_0.owned().filled().len() > 0,
        r is Skip <==> frame is Ok && frame->Ok_0.owned().filled().len() == 0,
{
    match frame {
        Ok(frame) => {
            if frame.as_slice().len() > 0 {
                FrameAction::Forward(frame)
            } else {
                FrameAction::Skip(frame)
            }
        },
        Err(failure) => match transient.label(&failure) {
            Some(name) => FrameAction::Retry(name),
            None => FrameAction::Fail(failure),
        },
    }
}

/// Decides what follows a read of a frame. The errors that are transient are those of the system.
pub fn received(frame: Result<PooledSlice, IoFailure>) -> (r: FrameAction)
    ensures
        exists|errors: TransientErrors|
            #![trigger errors.of_linux()]
            errors.of_linux() && r.follows(errors, frame),
{
    let errors = transient_errors();
    assert(errors.of_linux());
    after_read(&errors, frame)
}

/// What follows a write of a frame.
pub enum WriteAction {
    /// The frame was written.
    Done,
    /// Count a transient error under its name. The frame is lost.
    Lost(&'static str),
    /// End with the error.
    Fail(IoFailure),
}

impl WriteAction {
    /// Whether this is what follows a write, given which errors are transient: a frame that was written
    /// as a whole is done with, one that was written in part ends the loop, a transient error is passed
    /// over, and any other one ends the loop.
    pub open spec fn follows(
        self,
        transient: TransientErrors,
        frame: PooledSlice,
        written: Result<usize, IoFailure>,
    ) -> bool {
        let len = frame.owned().filled().len();
        match written {
            Ok(written_len) => if written_len == len {
                self is Done
            } else {
                &&& self is Fail
                &&& self->Fail_0.raw_os_error is None
                &&& self->Fail_0.kind == ErrorKind::Other
                &&& self->Fail_0.message@ == buffer_pool::short_write_message(
                    len,
                    written_len as nat,
                )
            },
            Err(failure) => match transient.name(failure.raw_os_error) {
                Some(name) => self is Lost && self->Lost_0@ == name,
                None => self == WriteAction::Fail(failure),
            },
        }
    }
}

/// Decides what follows a write of a frame, given which errors are transient. `written` is how many
/// bytes of the frame were written.
pub fn after_write(
    transient: &TransientErrors,
    frame: &PooledSlice,
    written: Result<usize, IoFailure>,
) -> (r: WriteAction)
    ensures
        r.follows(*transient, *frame, written),
        r is Done <==> written is Ok && written->Ok_0 == frame.owned().filled().len(),
{
    let result = match written {
        Ok(written_len) => buffer_pool::write_frame(frame.as_slice(), written_len),
        Err(failure) => Err(failure),
    };
    match result {
        Ok(()) => WriteAction::Done,
        Err(failure) => match transient.label(&failure) {
            Some(name) => WriteAction::Lost(name),
            None => WriteAction::Fail(failure),
        },
    }
}

/// Decides what follows a write of a frame. The errors that are transient are those of the system.
pub fn sent(frame: &PooledSlice, written: Result<usize, IoFailure>) -> (r: WriteAction)
    ensures
        exists|errors: TransientErrors|
            #![trigger errors.of_linux()]
            errors.of_linux() && r.follows(errors, *frame, written),
{
    let errors = transient_errors();
    assert(errors.of_linux());
    after_write(&errors, frame, written)
}

/// The size of the buffer for the name of an interface, with the NUL that ends it.
pub const IF_NAME_SIZE: usize = 16;

/// Makes the buffer that asks for an interface of the given name: the name, padded with NULs. Without
/// a name, the system chooses one.
pub fn encode_if_name(if_name: Option<&str>) -> (r: Result<Vec<u8>, IoFailure>)
    ensures
        r is Err <==> if_name is Some && utf8::encode_utf8(if_name->0@).len() >= IF_NAME_SIZE,
        r is Err ==> {
            &&& r->Err_0.raw_os_error is None
            &&& r->Err_0.kind == ErrorKind::InvalidInput
            &&& r->Err_0.message@ == "Name too long"@
        },
        r is Ok ==> r->Ok_0@.len() == 16,
        r is Ok && if_name is Some ==> r->Ok_0@.take(
            utf8::encode_utf8(if_name->0@).len() as int,
        ) == utf8::encode_utf8(if_name->0@),
        r is Ok ==> r->Ok_0@ == padded(
            match if_name {
                Some(name) => utf8::encode_utf8(name@),
                None => Seq::empty(),
            },
        ),
{
    let mut buffer: Vec<u8> = Vec::new();
    if let Some(name) = if_name {
        let bytes = name.as_bytes();
        if bytes.len() >= IF_NAME_SIZE {
            return Err(
                IoFailure {
                    raw_os_error: None,
                    kind: ErrorKind::InvalidInput,
                    message: "Name too long".to_owned(),
                },
            );
        }
        buffer.extend_from_slice(bytes);
        assert(buffer@ == bytes@);
    }
    let ghost name = buffer@;
    buffer.resize(IF_NAME_SIZE, 0);
    assert(buffer@ == padded(name));
    assert(buffer@.take(name.len() as int) == name);
    Ok(buffer)
}

/// Bytes, followed by NULs up to the size of the buffer.
pub open spec fn padded(bytes: Seq<u8>) -> Seq<u8> {
    bytes + Seq::new((IF_NAME_SIZE - bytes.len()) as nat, |i: int| 0u8)
}

/// Where the first NUL is; the length if there is none.
pub open spec fn first_nul(bytes: Seq<u8>) -> int
    decreases bytes.len(),
{
    if bytes.len() == 0 || bytes[0] == 0 {
        0
    } else {
        1 + first_nul(bytes.skip(1))
    }
}

/// The text that tells why bytes are no UTF-8.
pub uninterp spec fn utf8_error_text(bytes: Seq<u8>) -> Seq<char>;

/// Calls `String::from_utf8`: it gives the text that the bytes encode, and fails exactly if they are
/// no UTF-8. The text of its error depends on the bytes alone.
#[verifier::external_body]
fn text_of(bytes: Vec<u8>) -> (r: Result<String, String>)
    ensures
        r is Ok <==> utf8::valid_utf8(bytes@),
        r is Ok ==> r->Ok_0@ == utf8::decode_utf8(bytes@),
        r is Err ==> r->Err_0@ == utf8_error_text(bytes@),
{
    String::from_utf8(bytes).map_err(|e| e.utf8_error().to_string())
}

/// Finds the first NUL.
fn find_nul(bytes: &[u8]) -> (r: usize)
    ensures
        r == first_nul(bytes@),
        r <= bytes@.len(),
        r < bytes@.len() ==> bytes@[r as int] == 0,
        forall|i: int| 0 <= i < r ==> bytes@[i] != 0,
{
    let mut at: usize = 0;
    assert(bytes@.skip(0) == bytes@);
    while at < bytes.len() && bytes[at] != 0
        invariant
            at <= bytes.len(),
            forall|i: int| 0 <= i < at ==> bytes@[i] != 0,
            first_nul(bytes@) == at + first_nul(bytes@.skip(at as int)),
        decreases bytes.len() - at,
    {
        assert(bytes@.skip(at as int).skip(1) == bytes@.skip(at + 1));
        at = at + 1;
    }
    at
}

/// Reads the name that the system gave an interface: the text up to the first NUL of the buffer.
pub fn decode_if_name(buffer: &[u8]) -> (r: Result<String, IoFailure>)
    ensures
        ({
            let name = buffer@.take(first_nul(buffer@));
            &&& r is Ok <==> first_nul(buffer@) < buffer@.len() && utf8::valid_utf8(name)
            &&& r is Ok ==> r->Ok_0@ == utf8::decode_utf8(name)
        }),
        r is Err ==> {
            &&& r->Err_0.raw_os_error is None
            &&& r->Err_0.kind == ErrorKind::InvalidData
        },
        r is Err ==> r->Err_0.message@ == (if first_nul(buffer@) == buffer@.len() {
            "data provided does not contain a nul"@
        } else {
            utf8_error_text(buffer@.take(first_nul(buffer@)))
        }),
{
    let end: usize = find_nul(buffer);
    if end == buffer.len() {
        return Err(
            IoFailure {
                raw_os_error: None,
                kind: ErrorKind::InvalidData,
                message: "data provided does not contain a nul".to_owned(),
            },
        );
    }
    let name = vstd::slice::slice_subrange(buffer, 0, end);
    assert(name@ == buffer@.take(end as int));
    match text_of(vstd::slice::slice_to_vec(name)) {
        Ok(text) => Ok(text),
        Err(message) => Err(
            IoFailure { raw_os_error: None, kind: ErrorKind::InvalidData, message },
        ),
    }
}

/// The first NUL is where there is one and none before it; if there is none, it is told to be at the
/// end.
pub proof fn first_nul_is_the_first(bytes: Seq<u8>)
    ensures
        0 <= first_nul(bytes) <= bytes.len(),
        first_nul(bytes) < bytes.len() ==> bytes[first_nul(bytes)] == 0,
        forall|i: int| 0 <= i < first_nul(bytes) ==> #[trigger] bytes[i] != 0,
    decreases bytes.len(),
{
    if bytes.len() > 0 && bytes[0] != 0 {
        let rest = bytes.skip(1);
        first_nul_is_the_first(rest);
        assert forall|i: int| 0 <= i < first_nul(bytes) implies #[trigger] bytes[i] != 0 by {
            if i > 0 {
                assert(rest[i - 1] == bytes[i]);
            }
        }
    }
}

/// The buffer for a name has 16 bytes: those of the name, and zeros.
pub proof fn names_are_padded_with_zeros(bytes: Seq<u8>)
    requires
        bytes.len() <= 16,
    ensures
        padded(bytes).len() == 16,
        padded(bytes).take(bytes.len() as int) == bytes,
        forall|i: int| bytes.len() <= i < 16 ==> #[trigger] padded(bytes)[i] == 0,
{
    assert(padded(bytes).take(bytes.len() as int) == bytes);
}

proof fn first_nul_of_padded(bytes: Seq<u8>, padding: Seq<u8>)
    requires
        padding.len() > 0,
        padding[0] == 0,
        forall|i: int| 0 <= i < bytes.len() ==> bytes[i] != 0,
    ensures
        first_nul(bytes + padding) == bytes.len(),
    decreases bytes.len(),
{
    let all = bytes + padding;
    if bytes.len() > 0 {
        assert(all[0] == bytes[0]);
        assert(all.skip(1) == bytes.skip(1) + padding);
        first_nul_of_padded(bytes.skip(1), padding);
    } else {
        assert(all[0] == padding[0]);
    }
}

/// A name is read back from the buffer that it was written to, if it is short enough and holds no
/// NUL.
pub proof fn names_are_read_back(name: Seq<char>)
    requires
        utf8::encode_utf8(name).len() < IF_NAME_SIZE,
        forall|i: int|
            0 <= i < utf8::encode_utf8(name).len() ==> (#[trigger] utf8::encode_utf8(name)[i]) != 0,
    ensures
        ({
            let buffer = padded(utf8::encode_utf8(name));
            let read = buffer.take(first_nul(buffer));
            &&& first_nul(buffer) < buffer.len()
            &&& utf8::valid_utf8(read)
            &&& utf8::decode_utf8(read) == name
        }),
{
    let bytes = utf8::encode_utf8(name);
    let buffer = padded(bytes);
    first_nul_of_padded(bytes, Seq::new((IF_NAME_SIZE - bytes.len()) as nat, |i: int| 0u8));
    assert(buffer.take(bytes.len() as int) == bytes);
    utf8::encode_utf8_valid_utf8(name);
    utf8::encode_utf8_decode_utf8(name);
}

} // verus!
