//! How a command ends, given how its work outside went.
//!
//! What happens later is held inside the success of what happens before it, so the first failure is
//! the only one there is. The causes of failures come as text.
use vstd::prelude::*;

use crate::args::{socket_addr_text, EnrollArgs, RoomWatchArgs, TrainRoomArgs};
use crate::room::{load_bank, load_baseline, Loaded, RoomError, RoomErrorView};

verus! {

/// How saving a value to a file went: it could not be put into text, the text could not be
/// written, or it was written.
#[derive(Debug)]
pub enum Saved {
    Unencoded(String),
    Unwritten(String),
    Done,
}

/// Takes the socket that was bound to `addr`.
pub fn bound<K>(addr: &str, r: Result<K, String>) -> (out: Result<K, RoomError>)
    ensures
        match r {
            Ok(socket) => out == Ok::<K, RoomError>(socket),
            Err(e) => out is Err && out->Err_0@ == (RoomErrorView::CannotBind {
                addr: addr@,
                cause: e@,
            }),
        },
{
    match r {
        Ok(socket) => Ok(socket),
        Err(cause) => Err(RoomError::CannotBind { addr: addr.to_owned(), cause }),
    }
}

/// Takes the enrollment as saved to `path`.
pub fn saved_enrollment(path: &str, saved: Saved) -> (out: Result<(), RoomError>)
    ensures
        match saved {
            Saved::Unencoded(e) => out is Err && out->Err_0@ == (RoomErrorView::NotSerialized {
                cause: e@,
            }),
            Saved::Unwritten(e) => out is Err && out->Err_0@ == (RoomErrorView::CannotWrite {
                path: path@,
                cause: e@,
            }),
            Saved::Done => out == Ok::<(), RoomError>(()),
        },
{
    match saved {
        Saved::Unencoded(cause) => Err(RoomError::NotSerialized { cause }),
        Saved::Unwritten(cause) => Err(RoomError::CannotWrite { path: path.to_owned(), cause }),
        Saved::Done => Ok(()),
    }
}

/// Takes the specialist bank as saved to `path`.
pub fn saved_bank(path: &str, saved: Saved) -> (out: Result<(), RoomError>)
    ensures
        match saved {
            Saved::Unencoded(e) => out is Err && out->Err_0@ == (RoomErrorView::BankInvalid {
                cause: e@,
            }),
            Saved::Unwritten(e) => out is Err && out->Err_0@ == (RoomErrorView::CannotWrite {
                path: path@,
                cause: e@,
            }),
            Saved::Done => out == Ok::<(), RoomError>(()),
        },
{
    match saved {
        Saved::Unencoded(cause) => Err(RoomError::BankInvalid { cause }),
        Saved::Unwritten(cause) => Err(RoomError::CannotWrite { path: path.to_owned(), cause }),
        Saved::Done => Ok(()),
    }
}

/// How `enroll` failed, if it did: the baseline comes first, then the socket, then the file.
pub open spec fn enroll_failure<R>(
    args: EnrollArgs<R>,
    how: Loaded<Result<Saved, String>>,
) -> Option<RoomErrorView> {
    match how {
        Loaded::Unreadable(e) => Some(
            RoomErrorView::BaselineUnreadable { path: args.baseline@, cause: e@ },
        ),
        Loaded::Invalid(e) => Some(
            RoomErrorView::BaselineInvalid { path: args.baseline@, cause: e@ },
        ),
        Loaded::Value(Err(e)) => Some(
            RoomErrorView::CannotBind {
                addr: crate::args::socket_addr(args.bind@, args.udp_port),
                cause: e@,
            },
        ),
        Loaded::Value(Ok(Saved::Unencoded(e))) => Some(
            RoomErrorView::NotSerialized { cause: e@ },
        ),
        Loaded::Value(Ok(Saved::Unwritten(e))) => Some(
            RoomErrorView::CannotWrite { path: args.output@, cause: e@ },
        ),
        Loaded::Value(Ok(Saved::Done)) => None,
    }
}

/// Ends `enroll`, given how loading the baseline, binding the socket and saving the enrollment
/// went. What was captured has no say in it: an enrollment in which everything was rejected is
/// saved like any other.
pub fn enroll_result<R>(args: &EnrollArgs<R>, how: Loaded<Result<Saved, String>>) -> (out: Result<
    (),
    RoomError,
>)
    ensures
        out is Err <==> enroll_failure(*args, how) is Some,
        out matches Err(e) ==> enroll_failure(*args, how) == Some(e@),
{
    let bind = match load_baseline(args.baseline.as_str(), how) {
        Ok(bind) => bind,
        Err(e) => return Err(e),
    };
    let addr = socket_addr_text(args.bind.as_str(), args.udp_port);
    match bound(addr.as_str(), bind) {
        Ok(saved) => saved_enrollment(args.output.as_str(), saved),
        Err(e) => Err(e),
    }
}

/// Ends `train-room` for an enrollment that can be trained on, given how training and saving the
/// bank went. There is nothing to save of a training that failed.
pub fn training_result(args: &TrainRoomArgs, how: Result<Saved, String>) -> (out: Result<
    (),
    RoomError,
>)
    ensures
        match how {
            Err(e) => out is Err && out->Err_0@ == (RoomErrorView::TrainingFailed { cause: e@ }),
            Ok(Saved::Unencoded(e)) => out is Err && out->Err_0@ == (RoomErrorView::BankInvalid {
                cause: e@,
            }),
            Ok(Saved::Unwritten(e)) => out is Err && out->Err_0@ == (RoomErrorView::CannotWrite {
                path: args.output@,
                cause: e@,
            }),
            Ok(Saved::Done) => out == Ok::<(), RoomError>(()),
        },
{
    match how {
        Err(cause) => Err(RoomError::TrainingFailed { cause }),
        Ok(saved) => saved_bank(args.output.as_str(), saved),
    }
}

/// How `room-watch` failed, if it did: the bank comes first, then the socket.
pub open spec fn watch_failure<R, B, K>(
    args: RoomWatchArgs<R>,
    how: Loaded<(B, Result<K, String>)>,
) -> Option<RoomErrorView> {
    match how {
        Loaded::Unreadable(e) => Some(
            RoomErrorView::BankUnreadable { path: args.bank@, cause: e@ },
        ),
        Loaded::Invalid(e) => Some(RoomErrorView::BankInvalid { cause: e@ }),
        Loaded::Value((_, Err(e))) => Some(
            RoomErrorView::CannotBind {
                addr: crate::args::socket_addr(args.bind@, args.udp_port),
                cause: e@,
            },
        ),
        Loaded::Value((_, Ok(_))) => None,
    }
}

/// Opens `room-watch`, given how loading the bank and binding the socket went. Nothing later in
/// the command can fail, so a command that fails does so before its first readout.
pub fn open_watch<R, B, K>(
    args: &RoomWatchArgs<R>,
    how: Loaded<(B, Result<K, String>)>,
) -> (out: Result<(B, K), RoomError>)
    ensures
        out is Err <==> watch_failure(*args, how) is Some,
        out matches Err(e) ==> watch_failure(*args, how) == Some(e@),
        out matches Ok((bank, socket)) ==> how == Loaded::Value((bank, Ok::<K, String>(socket))),
{
    let (bank, bind) = match load_bank(args.bank.as_str(), how) {
        Ok(value) => value,
        Err(e) => return Err(e),
    };
    let addr = socket_addr_text(args.bind.as_str(), args.udp_port);
    match bound(addr.as_str(), bind) {
        Ok(socket) => Ok((bank, socket)),
        Err(e) => Err(e),
    }
}

} // verus!
