//! The TUN device: the packets that go through it, and the loops that read and write them.

use crate::buffer_pool::{write_frame, PooledSlice};
use crate::error::{self, ExtractedErrorCode, IoFailure, Label};
use crate::osal::tun::error::{transient_errors, TransientErrors};
use crate::text;
use packet::{RxPacket, TxPacket};
use vstd::prelude::*;

pub mod packet;

verus! {

/// A TUN device.
#[derive(Debug)]
pub struct Tun {
    pub if_name: String,
    pub if_index: u32,
}

/// What follows a read from the device.
pub enum RxAction {
    /// Record the size, and hand on the packet.
    Forward(u32, RxPacket),
    /// The packet is empty: record the size, which is 0, give back its buffer, and read on.
    Skip(PooledSlice),
    /// Count a transient error under the labels, and read on.
    Retry(Vec<Label>),
    /// End with the error.
    Fail(IoFailure),
}

/// What follows a write to the device.
pub enum TxAction {
    /// The packet was written.
    Done,
    /// Count a transient error under the labels. The packet is lost.
    Lost(Vec<Label>),
    /// End with the error.
    Fail(IoFailure),
}

/// The size that is recorded for a packet: its length modulo 2^32.
pub open spec fn recorded(len: nat) -> int {
    len as int % 0x1_0000_0000
}

/// Gives the size that is recorded for a packet.
pub fn recorded_size(len: usize) -> (r: u32)
    ensures
        r == recorded(len as nat),
        len < 0x1_0000_0000 ==> r == len,
{
    let wide: u64 = len as u64;
    assert(wide as u32 == wide % 0x1_0000_0000) by (bit_vector);
    wide as u32
}

impl Tun {
    pub fn new(if_name: String, if_index: u32) -> (r: Tun)
        ensures
            r.if_name == if_name,
            r.if_index == if_index,
    {
        Tun { if_name, if_index }
    }

    /// The index of the interface.
    pub fn if_index(&self) -> (r: u32)
        ensures
            r == self.if_index,
    {
        self.if_index
    }

    /// Whether labels are those of a transient error of this device.
    pub open spec fn labels_error(self, labels: Seq<Label>, failure: IoFailure) -> bool {
        &&& labels.len() == 3
        &&& labels[0].is("ERROR_CODE"@, error::code_name(error::kind_code(failure.kind)))
        &&& labels[1].is("ERROR_KIND"@, error::kind_name(failure.kind))
        &&& labels[2].is("if_name"@, self.if_name@)
    }

    /// Whether an action is what follows a read that failed: one that failed for a reason that passes
    /// by itself is counted and tried again, any other one ends the loop.
    pub open spec fn after_read_error(
        self,
        transient: TransientErrors,
        failure: IoFailure,
        action: RxAction,
    ) -> bool {
        if transient.name(failure.raw_os_error) is Some {
            action is Retry && self.labels_error(action->Retry_0@, failure)
        } else {
            action == RxAction::Fail(failure)
        }
    }

    /// Whether an action is what follows a write that failed: one that failed for a reason that passes
    /// by itself is counted, any other one ends the loop.
    pub open spec fn after_write_error(
        self,
        transient: TransientErrors,
        failure: IoFailure,
        action: TxAction,
    ) -> bool {
        if transient.name(failure.raw_os_error) is Some {
            action is Lost && self.labels_error(action->Lost_0@, failure)
        } else {
            action == TxAction::Fail(failure)
        }
    }

    /// Whether an action is what follows a read.
    pub open spec fn reads(
        self,
        transient: TransientErrors,
        frame: Result<PooledSlice, IoFailure>,
        action: RxAction,
    ) -> bool {
        match frame {
            Ok(frame) => if frame.owned().filled().len() > 0 {
                &&& action is Forward
                &&& action->Forward_0 == recorded(frame.owned().filled().len())
                &&& action->Forward_1.data == frame
            } else {
                action == RxAction::Skip(frame)
            },
            Err(failure) => self.after_read_error(transient, failure, action),
        }
    }

    /// Whether an action is what follows a write.
    pub open spec fn writes(
        self,
        transient: TransientErrors,
        packet: TxPacket,
        written: Result<usize, IoFailure>,
        action: TxAction,
    ) -> bool {
        match written {
            Ok(written_len) => if written_len == packet.data@.len() {
                action is Done
            } else {
                &&& action is Fail
                &&& action->Fail_0.raw_os_error is None
                &&& action->Fail_0.kind == std::io::ErrorKind::Other
                &&& action->Fail_0.message@ == crate::buffer_pool::short_write_message(
                    packet.data@.len(),
                    written_len as nat,
                )
            },
            Err(failure) => self.after_write_error(transient, failure, action),
        }
    }

    fn error_labels(&self, failure: &IoFailure) -> (r: Vec<Label>)
        ensures
            self.labels_error(r@, *failure),
    {
        ExtractedErrorCode::from_io(failure).labels_with("if_name", self.if_name.as_str())
    }

    /// Decides what follows a read, given which errors are transient.
    pub fn after_read(
        &self,
        transient: &TransientErrors,
        frame: Result<PooledSlice, IoFailure>,
    ) -> (r: RxAction)
        requires
            frame is Ok ==> frame->Ok_0.wf(),
        ensures
            match frame {
                Ok(frame) => if frame.owned().filled().len() > 0 {
                    &&& r is Forward
                    &&& r->Forward_0 == recorded(frame.owned().filled().len())
                    &&& r->Forward_1.data == frame
                } else {
                    r == RxAction::Skip(frame)
                },
                Err(failure) => self.after_read_error(*transient, failure, r),
            },
            self.reads(*transient, frame, r),
    {
        match frame {
            Ok(frame) => {
                let len: usize = frame.as_slice().len();
                if len > 0 {
                    RxAction::Forward(recorded_size(len), RxPacket::new(frame))
                } else {
                    RxAction::Skip(frame)
                }
            },
            Err(failure) => {
                if transient.label(&failure).is_some() {
                    RxAction::Retry(self.error_labels(&failure))
                } else {
                    RxAction::Fail(failure)
                }
            },
        }
    }

    /// Decides what follows a read. The errors that are transient are those of the system.
    pub fn received(&self, frame: Result<PooledSlice, IoFailure>) -> (r: RxAction)
        requires
            frame is Ok ==> frame->Ok_0.wf(),
        ensures
            match frame {
                Ok(frame) => if frame.owned().filled().len() > 0 {
                    &&& r is Forward
                    &&& r->Forward_0 == recorded(frame.owned().filled().len())
                    &&& r->Forward_1.data == frame
                } else {
                    r == RxAction::Skip(frame)
                },
                Err(failure) => exists|errors: TransientErrors|
                    #![trigger errors.of_linux()]
                    errors.of_linux() && self.after_read_error(errors, failure, r),
            },
            exists|errors: TransientErrors|
                #![trigger errors.of_linux()]
                errors.of_linux() && self.reads(errors, frame, r),
    {
        let errors = transient_errors();
        assert(errors.of_linux());
        self.after_read(&errors, frame)
    }

    /// Decides what follows a write, given which errors are transient. `written` is how many bytes of
    /// the packet were written.
    pub fn after_write(
        &self,
        transient: &TransientErrors,
        packet: &TxPacket,
        written: Result<usize, IoFailure>,
    ) -> (r: TxAction)
        ensures
            match written {
                Ok(written_len) => if written_len == packet.data@.len() {
                    r is Done
                } else {
                    &&& r is Fail
                    &&& r->Fail_0.raw_os_error is None
                    &&& r->Fail_0.kind == std::io::ErrorKind::Other
                    &&& r->Fail_0.message@ == crate::buffer_pool::short_write_message(
                        packet.data@.len(),
                        written_len as nat,
                    )
                },
                Err(failure) => self.after_write_error(*transient, failure, r),
            },
            self.writes(*transient, *packet, written, r),
    {
        let result = match written {
            Ok(written_len) => write_frame(packet.as_slice(), written_len),
            Err(failure) => Err(failure),
        };
        match result {
            Ok(()) => TxAction::Done,
            Err(failure) => {
                if transient.label(&failure).is_some() {
                    TxAction::Lost(self.error_labels(&failure))
                } else {
                    TxAction::Fail(failure)
                }
            },
        }
    }

    /// Decides what follows a write. The errors that are transient are those of the system.
    pub fn sent(&self, packet: &TxPacket, written: Result<usize, IoFailure>) -> (r: TxAction)
        ensures
            match written {
                Ok(written_len) => if written_len == packet.data@.len() {
                    r is Done
                } else {
                    &&& r is Fail
                    &&& r->Fail_0.raw_os_error is None
                    &&& r->Fail_0.kind == std::io::ErrorKind::Other
                    &&& r->Fail_0.message@ == crate::buffer_pool::short_write_message(
                        packet.data@.len(),
                        written_len as nat,
                    )
                },
                Err(failure) => exists|errors: TransientErrors|
                    #![trigger errors.of_linux()]
                    errors.of_linux() && self.after_write_error(errors, failure, r),
            },
            exists|errors: TransientErrors|
                #![trigger errors.of_linux()]
                errors.of_linux() && self.writes(errors, *packet, written, r),
    {
        let errors = transient_errors();
        assert(errors.of_linux());
        self.after_write(&errors, packet, written)
    }
}

/// The size of a packet of less than 2^32 bytes is recorded as it is.
pub proof fn sizes_are_recorded_as_they_are(len: nat)
    ensures
        0 <= recorded(len) < 0x1_0000_0000,
        len < 0x1_0000_0000 ==> recorded(len) == len,
        (len - recorded(len)) % 0x1_0000_0000 == 0,
{
}

/// A packet that was read is handed on exactly if it holds anything, and then it is that packet, with its
/// size; an empty one is skipped. An error never hands anything on.
pub proof fn packets_are_handed_on(
    tun: Tun,
    transient: TransientErrors,
    frame: Result<PooledSlice, IoFailure>,
    action: RxAction,
)
    requires
        tun.reads(transient, frame, action),
    ensures
        action is Forward <==> frame is Ok && frame->Ok_0.owned().filled().len() > 0,
        action is Forward ==> action->Forward_1.data == frame->Ok_0,
        action is Forward && frame->Ok_0.owned().filled().len() < 0x1_0000_0000
            ==> action->Forward_0 == frame->Ok_0.owned().filled().len(),
        action is Skip <==> frame is Ok && frame->Ok_0.owned().filled().len() == 0,
        action is Skip ==> action->Skip_0 == frame->Ok_0,
        frame is Err ==> action is Retry || action == RxAction::Fail(frame->Err_0),
{
}

/// A packet is done with exactly if all its bytes were written. A write of only some of them ends the
/// loop, with an error that tells both numbers.
pub proof fn packets_are_written_whole(
    tun: Tun,
    transient: TransientErrors,
    packet: TxPacket,
    written: Result<usize, IoFailure>,
    action: TxAction,
)
    requires
        tun.writes(transient, packet, written, action),
    ensures
        action is Done <==> written is Ok && written->Ok_0 == packet.data@.len(),
        written is Ok && written->Ok_0 != packet.data@.len() ==> {
            &&& action is Fail
            &&& action->Fail_0.raw_os_error is None
            &&& action->Fail_0.message@ == "Buffer length "@ + text::decimal(packet.data@.len())
                + " != written "@ + text::decimal(written->Ok_0 as nat)
        },
        written is Err ==> action is Lost || action == TxAction::Fail(written->Err_0),
{
}

/// After a read that failed, the loop reads on if the system's number of the error is one of the five
/// transient ones, and ends with the error if it is not, or if the error has no such number.
pub proof fn reads_are_retried_after_transient_errors(
    tun: Tun,
    transient: TransientErrors,
    failure: IoFailure,
    action: RxAction,
)
    requires
        tun.after_read_error(transient, failure, action),
    ensures
        action is Retry <==> failure.raw_os_error is Some && {
            let number = failure.raw_os_error->0;
            ||| number == transient.eagain
            ||| number == transient.eintr
            ||| number == transient.einval
            ||| number == transient.emsgsize
            ||| number == transient.enobufs
        },
        !(action is Retry) ==> action == RxAction::Fail(failure),
        action is Retry ==> {
            let labels = action->Retry_0@;
            &&& labels.len() == 3
            &&& labels[0].name@ == "ERROR_CODE"@
            &&& labels[0].value@ == error::code_name(error::kind_code(failure.kind))
            &&& labels[1].name@ == "ERROR_KIND"@
            &&& labels[1].value@ == error::kind_name(failure.kind)
            &&& labels[2].name@ == "if_name"@
            &&& labels[2].value@ == tun.if_name@
        },
{
}

/// After a write that failed, the packet is lost if the system's number of the error is one of the five
/// transient ones, and the loop ends with the error if it is not, or if the error has no such number.
pub proof fn writes_go_on_after_transient_errors(
    tun: Tun,
    transient: TransientErrors,
    failure: IoFailure,
    action: TxAction,
)
    requires
        tun.after_write_error(transient, failure, action),
    ensures
        action is Lost <==> failure.raw_os_error is Some && {
            let number = failure.raw_os_error->0;
            ||| number == transient.eagain
            ||| number == transient.eintr
            ||| number == transient.einval
            ||| number == transient.emsgsize
            ||| number == transient.enobufs
        },
        !(action is Lost) ==> action == TxAction::Fail(failure),
        action is Lost ==> {
            let labels = action->Lost_0@;
            &&& labels.len() == 3
            &&& labels[0].name@ == "ERROR_CODE"@
            &&& labels[0].value@ == error::code_name(error::kind_code(failure.kind))
            &&& labels[1].name@ == "ERROR_KIND"@
            &&& labels[1].value@ == error::kind_name(failure.kind)
            &&& labels[2].name@ == "if_name"@
            &&& labels[2].value@ == tun.if_name@
        },
{
}

} // verus!
