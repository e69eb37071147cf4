//! The boot chain as a machine that never touches the firmware itself. It
//! says which service to ask for next; whoever drives it performs the call
//! and hands back what the firmware answered.

use vstd::prelude::*;
use crate::console::{
    banner, banner_text, detected, detected_text, loading, loading_text, progress, reading,
    reading_text, starting, starting_text,
};
use crate::device::{BootDevicePath, Build, LoadedImageHandle, TextPolicy};
use crate::outcome::{read_outcome, start_outcome, InitError, Outcome, ReadError, ResolveError};
use crate::path::{kernel_path, kernel_path_text, ucs2_units, FirmwarePath};
use crate::status::{FirmwareError, StatusCode};

verus! {

/// Where a boot attempt stands: the step whose answer is awaited, or the end.
#[derive(Clone, Copy, Debug, PartialEq, Eq, Structural)]
pub enum Stage {
    /// The firmware environment is being set up.
    Bootstrap,
    /// The boot device is being determined.
    Resolve,
    /// The kernel is being read.
    Read,
    /// The kernel is being registered as an image.
    Load,
    /// The kernel has been started.
    Start,
    /// The attempt is over.
    Halted,
}

impl Stage {
    /// The stage that follows when the awaited answer is a good one.
    pub open spec fn next(self) -> Stage {
        match self {
            Stage::Bootstrap => Stage::Resolve,
            Stage::Resolve => Stage::Read,
            Stage::Read => Stage::Load,
            Stage::Load => Stage::Start,
            Stage::Start => Stage::Halted,
            Stage::Halted => Stage::Halted,
        }
    }
}

/// The service that the driver has to perform next.
#[derive(Clone, Copy, Debug, PartialEq, Eq)]
pub enum Request<'a> {
    /// Reach the firmware's services and reset the console. `extended_reset`
    /// says whether the console is to verify its device while it resets.
    Initialize { extended_reset: bool },
    /// Determine the device that the running image was loaded from, and
    /// have its path put into text by `policy`.
    ResolveDevice { policy: TextPolicy },
    /// Read the whole file at `path` on `device`.
    ReadKernel { device: &'a BootDevicePath, path: &'a FirmwarePath },
    /// Register `image` as a startable image that came from `device`.
    LoadImage { image: &'a Vec<u8>, device: &'a BootDevicePath },
    /// Hand control to the image.
    StartImage { handle: LoadedImageHandle },
    /// Report the outcome and halt. Nothing else is left to do.
    Halt { outcome: &'a Outcome },
}

/// What the firmware answered to a request.
#[derive(Debug, PartialEq, Eq)]
pub enum Reply {
    /// The answer to `Initialize`.
    Environment(Result<(), InitError>),
    /// The answer to `ResolveDevice`.
    Device(Result<BootDevicePath, ResolveError>),
    /// The answer to `ReadKernel`: the file's bytes. A read that brings none
    /// has not brought a kernel, and counts as failed.
    Kernel(Result<Vec<u8>, ReadError>),
    /// The answer to `LoadImage`.
    Image(Result<LoadedImageHandle, FirmwareError>),
    /// The answer to `StartImage`, should the image ever hand control back:
    /// the status that it returned.
    Returned(StatusCode),
}

impl Reply {
    /// Whether the firmware reports a failure with this reply. A read that
    /// brings no bytes has failed. An image that comes back has failed
    /// unless it comes back with success.
    pub open spec fn failed(self) -> bool {
        match self {
            Reply::Environment(answer) => answer is Err,
            Reply::Device(answer) => answer is Err,
            Reply::Kernel(answer) => match answer {
                Ok(image) => image@.len() == 0,
                Err(_) => true,
            },
            Reply::Image(answer) => answer is Err,
            Reply::Returned(status) => !status.success(),
        }
    }
}

/// All that a loader knows at one moment.
pub struct State {
    pub stage: Stage,
    pub build: Build,
    pub path: FirmwarePath,
    pub device: Option<BootDevicePath>,
    pub image: Option<Vec<u8>>,
    pub handle: Option<LoadedImageHandle>,
    pub outcome: Option<Outcome>,
}

/// The number of steps of the chain that an outcome leaves completed.
pub open spec fn completed_before(outcome: Outcome) -> nat {
    match outcome {
        Outcome::EnvironmentInit(_) => 0,
        Outcome::DevicePathResolution(_) => 1,
        Outcome::KernelNotFound => 2,
        Outcome::KernelReadExhausted => 2,
        Outcome::KernelRead(_) => 2,
        Outcome::KernelLoad(_) => 3,
        Outcome::KernelReported => 4,
        Outcome::KernelStart(_) => 4,
        Outcome::UnexpectedSuccess => 4,
    }
}

impl State {
    /// The state in which every boot attempt begins.
    pub open spec fn initial(build: Build, path: FirmwarePath) -> State {
        State {
            stage: Stage::Bootstrap,
            build,
            path,
            device: None,
            image: None,
            handle: None,
            outcome: None,
        }
    }

    /// The number of steps that have been completed: environment, device,
    /// read, load.
    pub open spec fn completed(self) -> nat {
        match self.stage {
            Stage::Bootstrap => 0,
            Stage::Resolve => 1,
            Stage::Read => 2,
            Stage::Load => 3,
            Stage::Start => 4,
            Stage::Halted => match self.outcome {
                Some(outcome) => completed_before(outcome),
                None => 0,
            },
        }
    }

    /// What holds of every state that a loader can be in: it holds the fixed
    /// path, it holds what each completed step brought, the kernel that it
    /// holds is never empty, and it knows its outcome once it has halted.
    pub open spec fn wf(self) -> bool {
        &&& self.path@ == ucs2_units(kernel_path_text())
        &&& self.completed() >= 2 ==> self.device is Some
        &&& self.completed() >= 3 ==> self.image is Some
        &&& self.image is Some ==> self.image->0@.len() > 0
        &&& self.completed() >= 4 ==> self.handle is Some
        &&& self.stage is Halted ==> self.outcome is Some
    }

    /// The service that is to be performed in this state.
    pub open spec fn request(self) -> Request<'static> {
        match self.stage {
            Stage::Bootstrap => Request::Initialize { extended_reset: false },
            Stage::Resolve => Request::ResolveDevice { policy: TextPolicy::full() },
            Stage::Read => Request::ReadKernel { device: &self.device->0, path: &self.path },
            Stage::Load => Request::LoadImage { image: &self.image->0, device: &self.device->0 },
            Stage::Start => Request::StartImage { handle: self.handle->0 },
            Stage::Halted => Request::Halt { outcome: &self.outcome->0 },
        }
    }

    /// Whether `reply` answers the request of this state. A halted loader
    /// awaits nothing.
    pub open spec fn awaits(self, reply: Reply) -> bool {
        match (self.stage, reply) {
            (Stage::Bootstrap, Reply::Environment(_)) => true,
            (Stage::Resolve, Reply::Device(_)) => true,
            (Stage::Read, Reply::Kernel(_)) => true,
            (Stage::Load, Reply::Image(_)) => true,
            (Stage::Start, Reply::Returned(_)) => true,
            _ => false,
        }
    }

    /// This state, halted with `outcome`.
    pub open spec fn halted(self, outcome: Outcome) -> State {
        State { stage: Stage::Halted, outcome: Some(outcome), ..self }
    }

    /// The state that follows when `reply` comes in. A reply that is not
    /// awaited changes nothing. A read counts as done only if it brought
    /// bytes: an empty one ends the attempt before anything is loaded.
    pub open spec fn after(self, reply: Reply) -> State {
        match (self.stage, reply) {
            (Stage::Bootstrap, Reply::Environment(Ok(_))) => State { stage: Stage::Resolve, ..self },
            (Stage::Bootstrap, Reply::Environment(Err(error))) => self.halted(
                Outcome::EnvironmentInit(error),
            ),
            (Stage::Resolve, Reply::Device(Ok(device))) => State {
                stage: Stage::Read,
                device: Some(device),
                ..self
            },
            (Stage::Resolve, Reply::Device(Err(error))) => self.halted(
                Outcome::DevicePathResolution(error),
            ),
            (Stage::Read, Reply::Kernel(Ok(image))) => if image@.len() > 0 {
                State { stage: Stage::Load, image: Some(image), ..self }
            } else {
                self.halted(Outcome::KernelRead(ReadError::Empty))
            },
            (Stage::Read, Reply::Kernel(Err(error))) => self.halted(read_outcome(error)),
            (Stage::Load, Reply::Image(Ok(handle))) => State {
                stage: Stage::Start,
                handle: Some(handle),
                ..self
            },
            (Stage::Load, Reply::Image(Err(error))) => self.halted(Outcome::KernelLoad(error)),
            (Stage::Start, Reply::Returned(status)) => self.halted(start_outcome(status)),
            _ => self,
        }
    }

    /// The lines that go to the console when `reply` comes in, before the
    /// next request is performed.
    pub open spec fn announces(self, reply: Reply) -> Seq<Seq<char>> {
        match (self.stage, reply) {
            (Stage::Bootstrap, Reply::Environment(Ok(_))) => seq![banner_text(self.build)],
            (Stage::Resolve, Reply::Device(Ok(device))) => seq![
                detected_text(device.text@),
                reading_text(),
            ],
            (Stage::Read, Reply::Kernel(Ok(image))) => if image@.len() > 0 {
                seq![loading_text()]
            } else {
                Seq::empty()
            },
            (Stage::Load, Reply::Image(Ok(_))) => seq![starting_text()],
            _ => Seq::empty(),
        }
    }

    /// The text of the boot device, once it is known.
    pub open spec fn device_text(self) -> Seq<char> {
        match self.device {
            Some(device) => device.text@,
            None => Seq::empty(),
        }
    }

    /// The number of lines that have been written when so many steps are
    /// completed: the banner after the first, two lines after the second,
    /// one more after each of the next two.
    pub open spec fn lines_after(completed: nat) -> nat {
        if completed == 0 {
            0
        } else if completed == 1 {
            1
        } else {
            completed + 1
        }
    }

    /// All that has been written to the console on the way to this state.
    pub open spec fn console(self) -> Seq<Seq<char>> {
        progress(self.build, self.device_text()).take(State::lines_after(self.completed()) as int)
    }
}

/// The boot chain's state, kept well-formed.
pub struct Loader {
    stage: Stage,
    build: Build,
    path: FirmwarePath,
    device: Option<BootDevicePath>,
    image: Option<Vec<u8>>,
    handle: Option<LoadedImageHandle>,
    outcome: Option<Outcome>,
}

impl View for Loader {
    type V = State;

    closed spec fn view(&self) -> State {
        State {
            stage: self.stage,
            build: self.build,
            path: self.path,
            device: self.device,
            image: self.image,
            handle: self.handle,
            outcome: self.outcome,
        }
    }
}

impl Loader {
    #[verifier::type_invariant]
    spec fn well_formed(self) -> bool {
        self@.wf()
    }

    /// A loader at the start of its chain.
    pub fn new(build: Build) -> (loader: Loader)
        ensures
            loader@ == State::initial(build, loader@.path),
            loader@.wf(),
    {
        Loader {
            stage: Stage::Bootstrap,
            build,
            path: kernel_path(),
            device: None,
            image: None,
            handle: None,
            outcome: None,
        }
    }

    /// Where the attempt stands.
    pub fn stage(&self) -> (stage: Stage)
        ensures
            stage == self@.stage,
            self@.wf(),
    {
        proof {
            use_type_invariant(self);
        }
        self.stage
    }

    /// The outcome, once the loader has halted.
    pub fn outcome(&self) -> (outcome: Option<&Outcome>)
        ensures
            self@.wf(),
            outcome is Some <==> self@.stage is Halted,
            outcome is Some ==> self@.outcome == Some(*outcome->0),
    {
        proof {
            use_type_invariant(self);
        }
        match self.stage {
            Stage::Halted => self.outcome.as_ref(),
            _ => None,
        }
    }

    /// The service that the driver has to perform now.
    pub fn request(&self) -> (request: Request<'_>)
        ensures
            self@.wf(),
            request == self@.request(),
    {
        proof {
            use_type_invariant(self);
        }
        match self.stage {
            Stage::Bootstrap => Request::Initialize { extended_reset: false },
            Stage::Resolve => Request::ResolveDevice { policy: TextPolicy::full_paths() },
            Stage::Read => Request::ReadKernel {
                device: self.device.as_ref().unwrap(),
                path: &self.path,
            },
            Stage::Load => Request::LoadImage {
                image: self.image.as_ref().unwrap(),
                device: self.device.as_ref().unwrap(),
            },
            Stage::Start => Request::StartImage { handle: self.handle.unwrap() },
            Stage::Halted => Request::Halt { outcome: self.outcome.as_ref().unwrap() },
        }
    }

    /// Ends the attempt with `outcome`.
    fn halt(&mut self, outcome: Outcome)
        requires
            !(old(self)@.stage is Halted),
            completed_before(outcome) <= old(self)@.completed(),
        ensures
            final(self)@ == old(self)@.halted(outcome),
    {
        proof {
            use_type_invariant(&*self);
        }
        self.outcome = Some(outcome);
        self.stage = Stage::Halted;
    }

    /// Takes the firmware's answer to the last request. Hands back the lines
    /// to write to the console before the next request is performed, or
    /// nothing if the reply does not answer that request, in which case the
    /// loader stays as it was.
    pub fn advance(&mut self, reply: Reply) -> (lines: Option<Vec<String>>)
        ensures
            final(self)@ == old(self)@.after(reply),
            final(self)@.wf(),
            lines is Some <==> old(self)@.awaits(reply),
            lines is Some ==> lines->0.deep_view() == old(self)@.announces(reply),
    {
        proof {
            use_type_invariant(&*self);
        }
        let mut lines: Vec<String> = Vec::new();
        match (self.stage, reply) {
            (Stage::Bootstrap, Reply::Environment(Ok(_))) => {
                lines.push(banner(&self.build));
                self.stage = Stage::Resolve;
            },
            (Stage::Bootstrap, Reply::Environment(Err(error))) => {
                self.halt(Outcome::EnvironmentInit(error));
            },
            (Stage::Resolve, Reply::Device(Ok(device))) => {
                lines.push(detected(device.text.as_str()));
                lines.push(reading());
                self.device = Some(device);
                self.stage = Stage::Read;
            },
            (Stage::Resolve, Reply::Device(Err(error))) => {
                self.halt(Outcome::DevicePathResolution(error));
            },
            (Stage::Read, Reply::Kernel(Ok(image))) => {
                if image.len() > 0 {
                    lines.push(loading());
                    self.image = Some(image);
                    self.stage = Stage::Load;
                } else {
                    self.halt(Outcome::KernelRead(ReadError::Empty));
                }
            },
            (Stage::Read, Reply::Kernel(Err(error))) => {
                self.halt(Outcome::of_read(error));
            },
            (Stage::Load, Reply::Image(Ok(handle))) => {
                lines.push(starting());
                self.handle = Some(handle);
                self.stage = Stage::Start;
            },
            (Stage::Load, Reply::Image(Err(error))) => {
                self.halt(Outcome::KernelLoad(error));
            },
            (Stage::Start, Reply::Returned(status)) => {
                self.halt(Outcome::of_start(status));
            },
            _ => {
                return None;
            },
        }
        proof {
            use_type_invariant(&*self);
            assert(lines.deep_view() =~= old(self)@.announces(reply));
        }
        Some(lines)
    }
}

} // verus!
