//! Errors of a TUN device.

use crate::error::IoFailure;
use vstd::prelude::*;

verus! {

/// The numbers that the operating system has for errors that pass by themselves.
#[derive(Clone, Copy, Debug, PartialEq, Eq, Structural)]
pub struct TransientErrors {
    pub eagain: i32,
    pub eintr: i32,
    pub einval: i32,
    pub emsgsize: i32,
    pub enobufs: i32,
}

/// Reads the constants of `libc`, as it has them for Linux and Android, the only systems that this
/// package is built for (`tokio-uring` needs io_uring). There, `EAGAIN`, `EINTR` and `EINVAL` are the
/// same on all processors. The pair of `EMSGSIZE` and `ENOBUFS` is one of three: that of MIPS, that of
/// SPARC, or that of all other processors. Which of them it is, is not stated.
#[verifier::external_body]
pub(crate) fn transient_errors() -> (r: TransientErrors)
    ensures
        r.of_linux(),
{
    TransientErrors {
        eagain: libc::EAGAIN,
        eintr: libc::EINTR,
        einval: libc::EINVAL,
        emsgsize: libc::EMSGSIZE,
        enobufs: libc::ENOBUFS,
    }
}

impl TransientErrors {
    /// Whether these are the numbers that Linux has on some processor.
    pub open spec fn of_linux(self) -> bool {
        &&& self.eagain == 11
        &&& self.eintr == 4
        &&& self.einval == 22
        &&& {
            ||| self.emsgsize == 90 && self.enobufs == 105
            ||| self.emsgsize == 97 && self.enobufs == 132
            ||| self.emsgsize == 40 && self.enobufs == 55
        }
    }

    /// The name of an error that passes by itself; none for any other error.
    pub open spec fn name(self, os_error: Option<i32>) -> Option<Seq<char>> {
        match os_error {
            None => None,
            Some(number) => if number == self.eagain {
                Some("EAGAIN"@)
            } else if number == self.eintr {
                Some("EINTR"@)
            } else if number == self.einval {
                Some("EINVAL"@)
            } else if number == self.emsgsize {
                Some("EMSGSIZE"@)
            } else if number == self.enobufs {
                Some("ENOBUFS"@)
            } else {
                None
            },
        }
    }

    /// Gives the name of an error that passes by itself.
    pub fn label(&self, err: &IoFailure) -> (r: Option<&'static str>)
        ensures
            match self.name(err.raw_os_error) {
                Some(name) => r is Some && r->0@ == name,
                None => r is None,
            },
    {
        match err.raw_os_error {
            None => None,
            Some(number) => {
                if number == self.eagain {
                    Some("EAGAIN")
                } else if number == self.eintr {
                    Some("EINTR")
                } else if number == self.einval {
                    Some("EINVAL")
                } else if number == self.emsgsize {
                    Some("EMSGSIZE")
                } else if number == self.enobufs {
                    Some("ENOBUFS")
                } else {
                    None
                }
            },
        }
    }
}

/// Whether a text is the name of an error that passes by itself.
pub open spec fn is_name(name: Seq<char>) -> bool {
    ||| name == "EAGAIN"@
    ||| name == "EINTR"@
    ||| name == "EINVAL"@
    ||| name == "EMSGSIZE"@
    ||| name == "ENOBUFS"@
}

/// Gives the name of `err` if it can be considered retryable for a TUN device: it is one of the
/// errors that pass by themselves, by the numbers that the system has for them. An error that did not
/// come from the system is not retryable.
pub fn transient_label(err: &IoFailure) -> (r: Option<&'static str>)
    ensures
        exists|errors: TransientErrors|
            #![trigger errors.of_linux()]
            errors.of_linux() && match errors.name(err.raw_os_error) {
                Some(name) => r is Some && r->0@ == name,
                None => r is None,
            },
        err.raw_os_error is None ==> r is None,
        r is Some ==> is_name(r->0@),
{
    transient_errors().label(err)
}

/// Tells whether `err` can be considered retryable for a TUN device: it is one of the errors that
/// pass by themselves, by the numbers that the system has for them. An error that did not come from
/// the system is not retryable.
pub fn is_tun_transient(err: &IoFailure) -> (r: bool)
    ensures
        exists|errors: TransientErrors|
            #![trigger errors.of_linux()]
            errors.of_linux() && (r <==> errors.name(err.raw_os_error) is Some),
        err.raw_os_error is None ==> !r,
{
    transient_errors().label(err).is_some()
}

/// Just five errors are transient, those with one of the five numbers; an error without a number of
/// the system is not. With numbers that differ, each error has its own name.
pub proof fn five_errors_are_transient(errors: TransientErrors, os_error: Option<i32>)
    ensures
        errors.name(os_error) is Some <==> os_error is Some && {
            ||| os_error->0 == errors.eagain
            ||| os_error->0 == errors.eintr
            ||| os_error->0 == errors.einval
            ||| os_error->0 == errors.emsgsize
            ||| os_error->0 == errors.enobufs
        },
        errors.of_linux() ==> {
            &&& os_error == Some(errors.eagain) ==> errors.name(os_error) == Some("EAGAIN"@)
            &&& os_error == Some(errors.eintr) ==> errors.name(os_error) == Some("EINTR"@)
            &&& os_error == Some(errors.einval) ==> errors.name(os_error) == Some("EINVAL"@)
            &&& os_error == Some(errors.emsgsize) ==> errors.name(os_error) == Some("EMSGSIZE"@)
            &&& os_error == Some(errors.enobufs) ==> errors.name(os_error) == Some("ENOBUFS"@)
        },
{
}

/// On Linux, the numbers of the transient errors all differ, whatever the processor is. `EAGAIN`,
/// `EINTR` and `EINVAL` are always transient.
pub proof fn numbers_of_linux_differ(errors: TransientErrors)
    requires
        errors.of_linux(),
    ensures
        errors.eagain == 11 && errors.eintr == 4 && errors.einval == 22,
        errors.name(Some(11)) is Some && errors.name(Some(4)) is Some && errors.name(Some(22)) is Some,
        errors.emsgsize != errors.enobufs,
        errors.emsgsize != errors.eagain && errors.emsgsize != errors.eintr && errors.emsgsize
            != errors.einval,
        errors.enobufs != errors.eagain && errors.enobufs != errors.eintr && errors.enobufs
            != errors.einval,
{
}

} // verus!
