//! Whole boot attempts: a loader fed one firmware answer after another, and
//! what holds of every such attempt.

use vstd::prelude::*;
use crate::console::progress;
use crate::device::{BootDevicePath, Build, LoadedImageHandle};
use crate::loader::{Reply, Request, State};
use crate::outcome::{io_error_debug, Outcome, ReadError, ReadStep};
use crate::path::{kernel_path_text, ucs2_units, FirmwarePath};
use crate::status::{error_debug, FirmwareError, StatusCode};

verus! {

broadcast use FirmwareError::lemma_code_of;

/// The state that `start` has become when the firmware has given `replies`,
/// in their order.
pub open spec fn run(start: State, replies: Seq<Reply>) -> State
    decreases replies.len(),
{
    if replies.len() == 0 {
        start
    } else {
        run(start, replies.drop_last()).after(replies.last())
    }
}

/// All that has been written to the console while `start` took `replies`.
pub open spec fn transcript(start: State, replies: Seq<Reply>) -> Seq<Seq<char>>
    decreases replies.len(),
{
    if replies.len() == 0 {
        Seq::empty()
    } else {
        transcript(start, replies.drop_last()) + run(start, replies.drop_last()).announces(
            replies.last(),
        )
    }
}

/// A state that is well-formed stays so, whatever reply comes in.
pub proof fn lemma_step_keeps_wf(state: State, reply: Reply)
    requires
        state.wf(),
    ensures
        state.after(reply).wf(),
{
}

/// The chain runs forward only: a reply that is awaited takes the loader to
/// the next step or halts it, and any other reply leaves the stage alone.
pub proof fn lemma_steps_in_order(state: State, reply: Reply)
    ensures
        !state.awaits(reply) ==> state.after(reply).stage == state.stage,
        state.awaits(reply) ==> state.after(reply).stage is Halted || state.after(reply).stage
            == state.stage.next(),
        state.after(reply).build == state.build,
        state.after(reply).path == state.path,
{
}

/// No failure is recovered from and none is retried: whichever step the
/// firmware fails, the loader halts on that answer, with an outcome that is
/// a failure.
pub proof fn lemma_failure_is_final(state: State, reply: Reply)
    requires
        state.awaits(reply),
        reply.failed(),
    ensures
        state.after(reply).stage is Halted,
        state.after(reply).outcome is Some,
        state.after(reply).outcome->0.failed(),
        state.announces(reply) == Seq::<Seq<char>>::empty(),
{
}

/// A reply that is not awaited changes nothing and writes nothing.
pub proof fn lemma_unawaited_reply(state: State, reply: Reply)
    requires
        !state.awaits(reply),
    ensures
        state.after(reply) == state,
        state.announces(reply) == Seq::<Seq<char>>::empty(),
{
}

/// The console of the state after a reply is the console before it, followed
/// by what the reply made the loader announce.
pub proof fn lemma_step_writes(state: State, reply: Reply)
    requires
        state.wf(),
    ensures
        state.after(reply).console() == state.console() + state.announces(reply),
{
    let next = state.after(reply);
    assert(next.console() =~= state.console() + state.announces(reply));
}

/// Whatever the firmware answers, and in whatever order the answers come:
/// the console holds the banner, the line with the detected path, "Reading
/// kernel...", "Loading kernel..." and "Starting kernel...", in this order,
/// up to the step that the attempt has reached, and nothing else.
pub proof fn lemma_console_order(build: Build, path: FirmwarePath, replies: Seq<Reply>)
    requires
        path@ == ucs2_units(kernel_path_text()),
    ensures
        ({
            let end = run(State::initial(build, path), replies);
            &&& end.wf()
            &&& end.build == build
            &&& transcript(State::initial(build, path), replies) == progress(
                build,
                end.device_text(),
            ).take(State::lines_after(end.completed()) as int)
            &&& State::lines_after(end.completed()) <= 5
            &&& end.stage is Start ==> transcript(State::initial(build, path), replies)
                == progress(build, end.device_text())
        }),
{
    let start = State::initial(build, path);
    lemma_run_writes(start, replies);
    let end = run(start, replies);
    assert(start.console() =~= Seq::<Seq<char>>::empty());
    assert(start.console() + transcript(start, replies) =~= transcript(start, replies));
    assert(end.stage is Start ==> progress(build, end.device_text()).take(5) =~= progress(
        build,
        end.device_text(),
    ));
}

/// Over any number of replies: the state stays well-formed, keeps its build
/// record, and its console grows by exactly what was announced. Whenever the
/// loader is about to load or to start, it holds a kernel that is not empty.
pub proof fn lemma_run_writes(start: State, replies: Seq<Reply>)
    requires
        start.wf(),
    ensures
        run(start, replies).wf(),
        run(start, replies).build == start.build,
        run(start, replies).console() == start.console() + transcript(start, replies),
        run(start, replies).completed() <= 4,
        run(start, replies).stage is Load || run(start, replies).stage is Start ==> run(
            start,
            replies,
        ).image is Some && run(start, replies).image->0@.len() > 0,
    decreases replies.len(),
{
    if replies.len() == 0 {
        assert(start.console() + transcript(start, replies) =~= start.console());
    } else {
        let before = run(start, replies.drop_last());
        lemma_run_writes(start, replies.drop_last());
        lemma_step_keeps_wf(before, replies.last());
        lemma_step_writes(before, replies.last());
        assert(start.console() + transcript(start, replies) =~= (start.console() + transcript(
            start,
            replies.drop_last(),
        )) + before.announces(replies.last()));
    }
}

/// A halted loader is done for good: no reply is awaited, none changes the
/// state, none writes a line, and the request stays the same halt.
pub proof fn lemma_halt_is_final(state: State, replies: Seq<Reply>)
    requires
        state.stage is Halted,
    ensures
        run(state, replies) == state,
        transcript(state, replies) == Seq::<Seq<char>>::empty(),
        forall|reply: Reply| !state.awaits(reply),
        run(state, replies).request() == (Request::Halt { outcome: &state.outcome->0 }),
    decreases replies.len(),
{
    if replies.len() > 0 {
        lemma_halt_is_final(state, replies.drop_last());
    }
}

/// In every boot attempt, whatever the firmware answers: a loader that asks
/// for the kernel to be loaded, or for the image to be started, holds the
/// boot device that was resolved and a kernel that is not empty, and what
/// it asks to be loaded is that kernel for that device.
pub proof fn lemma_launcher_holds_kernel(build: Build, path: FirmwarePath, replies: Seq<Reply>)
    requires
        path@ == ucs2_units(kernel_path_text()),
    ensures
        ({
            let end = run(State::initial(build, path), replies);
            &&& end.stage is Load || end.stage is Start ==> {
                &&& end.device is Some
                &&& end.image is Some
                &&& end.image->0@.len() > 0
            }
            &&& end.stage is Load ==> end.request() == (Request::LoadImage {
                image: &end.image->0,
                device: &end.device->0,
            })
            &&& end.stage is Start ==> end.handle is Some && end.request() == (
            Request::StartImage { handle: end.handle->0 })
        }),
{
    lemma_run_writes(State::initial(build, path), replies);
}

/// Where the firmware sets up its environment, knows the boot device as
/// `device`, reads `image` at the fixed path and accepts it as the image
/// `handle`: the file is read from `device` at the fixed path. If the read
/// brought bytes, they are registered, unchanged, as coming from that same
/// `device`, the loader then starts the image that the firmware staged,
/// still holding the bytes, and all five lines have been written by then.
/// If it brought none, the attempt ends as a failed read, and nothing is
/// handed to the firmware to load.
pub proof fn lemma_boot_reaches_start(
    build: Build,
    path: FirmwarePath,
    device: BootDevicePath,
    image: Vec<u8>,
    handle: LoadedImageHandle,
)
    requires
        path@ == ucs2_units(kernel_path_text()),
    ensures
        ({
            let resolving = State::initial(build, path).after(Reply::Environment(Ok(())));
            let reading = resolving.after(Reply::Device(Ok(device)));
            let loading = reading.after(Reply::Kernel(Ok(image)));
            let starting = loading.after(Reply::Image(Ok(handle)));
            &&& reading.request() == (Request::ReadKernel { device: &device, path: &path })
            &&& reading.path@ == ucs2_units(kernel_path_text())
            &&& image@.len() > 0 ==> {
                &&& loading.request() == (Request::LoadImage { image: &image, device: &device })
                &&& starting.request() == (Request::StartImage { handle })
                &&& starting.stage is Start
                &&& starting.image == Some(image)
                &&& starting.device == Some(device)
                &&& starting.console() == progress(build, device.text@)
            }
            &&& image@.len() == 0 ==> {
                &&& loading.stage is Halted
                &&& loading.outcome == Some(Outcome::KernelRead(ReadError::Empty))
                &&& loading.image is None
                &&& starting == loading
                &&& loading.console() == progress(build, device.text@).take(3)
            }
        }),
{
    let loading = State::initial(build, path).after(Reply::Environment(Ok(()))).after(
        Reply::Device(Ok(device)),
    ).after(Reply::Kernel(Ok(image)));
    let starting = loading.after(Reply::Image(Ok(handle)));
    if image@.len() > 0 {
        assert(starting.console() =~= progress(build, device.text@));
    } else {
        assert(loading.console() =~= progress(build, device.text@).take(3));
    }
}

/// A read that goes through and brings no bytes is a failed read: the
/// loader halts on it, writes nothing more, and never holds or hands on an
/// empty kernel.
pub proof fn lemma_empty_read_stops_the_chain(state: State, image: Vec<u8>)
    requires
        state.stage is Read,
        image@.len() == 0,
    ensures
        ({
            let end = state.after(Reply::Kernel(Ok(image)));
            &&& end.stage is Halted
            &&& end.outcome == Some(Outcome::KernelRead(ReadError::Empty))
            &&& end.image == state.image
            &&& state.announces(Reply::Kernel(Ok(image))) == Seq::<Seq<char>>::empty()
            &&& end.outcome->0.failed()
            &&& end.outcome->0.message_text() == "Internal system error while reading kernel: "@
                + "the kernel file is empty"@
        }),
{
}

/// A read that the firmware fails with any status but "not found" and "out
/// of resources" is a read fault that keeps that status, and whose message
/// ends in the failure as the firmware interface prints it: the path, the
/// step and the raw status.
pub proof fn lemma_read_fault_names_its_status(state: State, step: ReadStep, status: FirmwareError)
    requires
        state.stage is Read,
        !status.code().not_found(),
        !status.code().out_of_resources(),
    ensures
        ({
            let end = state.after(Reply::Kernel(Err(ReadError::Io { step, status })));
            &&& end.stage is Halted
            &&& end.outcome == Some(Outcome::KernelRead(ReadError::Io { step, status }))
            &&& end.outcome->0.status_code() == Some(status.code())
            &&& end.outcome->0.message_text() == "Internal system error while reading kernel: "@
                + io_error_debug(
                ucs2_units(step.path_text()),
                step,
                status.code().raw,
                usize::BITS,
            )
        }),
{
}

/// Where the firmware says of the file at the fixed path that it was not
/// found, the outcome is that the kernel is missing, whatever else the
/// failure says of itself: never a read fault of the general kind.
pub proof fn lemma_missing_kernel_is_told(state: State, step: ReadStep, status: FirmwareError)
    requires
        state.stage is Read,
        status.code().not_found(),
    ensures
        ({
            let end = state.after(Reply::Kernel(Err(ReadError::Io { step, status })));
            &&& end.stage is Halted
            &&& end.outcome == Some(Outcome::KernelNotFound)
            &&& end.request() == (Request::Halt { outcome: &Outcome::KernelNotFound })
            &&& end.outcome->0.message_text() == "Kernel not found."@
        }),
{
    assert(Outcome::KernelNotFound.message_text() =~= "Kernel not found."@);
}

/// Where the read brought the kernel's bytes and the firmware then refuses
/// to load them, the outcome is a load fault that carries the very status
/// of that refusal.
pub proof fn lemma_load_failure_carries_its_status(
    state: State,
    image: Vec<u8>,
    error: FirmwareError,
)
    requires
        state.stage is Read,
        image@.len() > 0,
    ensures
        ({
            let end = state.after(Reply::Kernel(Ok(image))).after(Reply::Image(Err(error)));
            &&& end.stage is Halted
            &&& end.outcome == Some(Outcome::KernelLoad(error))
            &&& end.outcome->0.status_code() == Some(error.code())
            &&& end.outcome->0.message_text() == "Internal system error while loading kernel: "@
                + error_debug(error.code().raw, usize::BITS)
        }),
{
}

/// Where a started image hands control back with success, the outcome is
/// the unexpected success, which is no failure; and the loader has halted,
/// so that nothing that comes later makes it ask for anything or write
/// anything.
pub proof fn lemma_returning_kernel_halts(state: State, status: StatusCode, later: Seq<Reply>)
    requires
        state.stage is Start,
        status.success(),
    ensures
        ({
            let end = state.after(Reply::Returned(status));
            &&& end.stage is Halted
            &&& end.outcome == Some(Outcome::UnexpectedSuccess)
            &&& !end.outcome->0.failed()
            &&& end.outcome->0.message_text() == "Operation completed successfully."@
            &&& run(end, later) == end
            &&& transcript(end, later) == Seq::<Seq<char>>::empty()
            &&& run(end, later).request() == (Request::Halt { outcome: &Outcome::UnexpectedSuccess })
        }),
{
    let end = state.after(Reply::Returned(status));
    lemma_halt_is_final(end, later);
    assert(Outcome::UnexpectedSuccess.message_text() =~= "Operation completed successfully."@);
}

/// Where a started image hands control back with the status "unsupported",
/// the kernel has failed by itself and the message points the operator to
/// what the kernel wrote. Any other failure is a start fault with the raw
/// status in its message, and the two messages are never the same.
pub proof fn lemma_kernel_fault_is_told_apart(state: State, status: StatusCode)
    requires
        state.stage is Start,
        !status.success(),
    ensures
        ({
            let end = state.after(Reply::Returned(status));
            let told = "System error encountered in kernel (look above)."@;
            &&& end.stage is Halted
            &&& status.unsupported() ==> end.outcome == Some(Outcome::KernelReported)
                && end.outcome->0.message_text() == told
            &&& !status.unsupported() ==> end.outcome == Some(
                Outcome::KernelStart(FirmwareError::of(status)),
            ) && end.outcome->0.status_code() == Some(status) && end.outcome->0.message_text()
                == "Internal system error while starting kernel: "@ + error_debug(
                status.raw,
                usize::BITS,
            ) && end.outcome->0.message_text() != told
        }),
{
    let told = "System error encountered in kernel (look above)."@;
    let other = "Internal system error while starting kernel: "@;
    reveal_strlit("System error encountered in kernel (look above).");
    reveal_strlit("Internal system error while starting kernel: ");
    assert(Outcome::KernelReported.message_text() =~= told);
    assert(told[0] == 'S');
    assert((other + error_debug(status.raw, usize::BITS))[0] == 'I');
}

} // verus!
