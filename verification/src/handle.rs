//! The owning handle: the input mode and the terminal configuration, changed
//! together or not at all.

use crate::input::{Mode, Reader};
use crate::terminal::{derive_raw, raw_of, snapshot_of, Attributes, DeviceError};
use vstd::prelude::*;

verus! {

/// The handle that owns the input mode and the two snapshots of the
/// terminal's attributes.
///
/// The handle never touches the device. Its caller pushes a snapshot to the
/// terminal and reports the outcome; the handle changes mode only when the
/// device took the snapshot, so that mode and device never diverge.
pub struct Arl {
    mode: Mode,
    stdin_fd: i32,
    termios_default: Attributes,
    termios_raw: Attributes,
}

/// What a handle is: its mode, its descriptor, the snapshot captured before
/// the terminal was touched, and the configuration that is active on the
/// device.
pub ghost struct ArlView {
    pub mode: Mode,
    pub stdin_fd: i32,
    pub captured: Attributes,
    pub device: Attributes,
}

impl ArlView {
    /// The handle right after construction: in symbol mode, with the raw
    /// derivative of the captured snapshot on the device.
    pub open spec fn initial(stdin_fd: i32, captured: Attributes) -> ArlView {
        ArlView { mode: Mode::Symbol, stdin_fd, captured, device: raw_of(captured) }
    }

    /// Mode and device agree: the device holds the snapshot that belongs to
    /// the mode.
    pub open spec fn consistent(self) -> bool {
        self.device == snapshot_of(self.captured, self.mode)
    }

    /// The handle after a request to enter `target`, for which the device
    /// answered `applied`. If the device took the snapshot, the handle is in
    /// `target` and the device holds the snapshot of `target`; if it refused,
    /// neither changed.
    pub open spec fn switched(self, target: Mode, applied: Result<(), DeviceError>) -> ArlView {
        match applied {
            Ok(_) => ArlView {
                mode: target,
                device: snapshot_of(self.captured, target),
                ..self
            },
            Err(_) => self,
        }
    }

    /// The handle after a sequence of requests, each with the device's answer.
    pub open spec fn switched_all(
        self,
        requests: Seq<(Mode, Result<(), DeviceError>)>,
    ) -> ArlView
        decreases requests.len(),
    {
        if requests.len() == 0 {
            self
        } else {
            self.switched_all(requests.drop_last()).switched(
                requests.last().0,
                requests.last().1,
            )
        }
    }
}

impl View for Arl {
    type V = ArlView;

    closed spec fn view(&self) -> ArlView {
        ArlView {
            mode: self.mode,
            stdin_fd: self.stdin_fd,
            captured: self.termios_default,
            device: snapshot_of(self.termios_default, self.mode),
        }
    }
}

impl Arl {
    #[verifier::type_invariant]
    spec fn raw_is_derived(self) -> bool {
        self.termios_raw == raw_of(self.termios_default)
    }

    /// Builds the handle for the terminal behind `stdin_fd`, from the
    /// snapshot captured before anything was changed and from the device's
    /// answer to the raw derivative of that snapshot. If the device took it
    /// the handle starts in symbol mode; if not, construction fails with the
    /// device's error.
    pub fn new(stdin_fd: i32, captured: Attributes, applied: Result<(), DeviceError>) -> (made:
        Result<Arl, DeviceError>)
        ensures
            match applied {
                Ok(_) => made is Ok && made->Ok_0@ == ArlView::initial(stdin_fd, captured),
                Err(error) => made == Err::<Arl, DeviceError>(error),
            },
    {
        match applied {
            Ok(_) => {
                let termios_raw = derive_raw(&captured);
                Ok(Arl { mode: Mode::Symbol, stdin_fd, termios_default: captured, termios_raw })
            },
            Err(error) => Err(error),
        }
    }

    /// The mode that is active.
    pub fn mode(&self) -> (mode: Mode)
        ensures
            mode == self@.mode,
    {
        self.mode
    }

    /// The descriptor of the terminal.
    pub fn stdin_fd(&self) -> (fd: i32)
        ensures
            fd == self@.stdin_fd,
    {
        self.stdin_fd
    }

    /// The snapshot that the device must take before `target` is entered:
    /// the captured one for line mode, its raw derivative for symbol mode.
    pub fn snapshot_for(&self, target: Mode) -> (snapshot: Attributes)
        ensures
            snapshot == snapshot_of(self@.captured, target),
    {
        proof {
            use_type_invariant(self);
        }
        match target {
            Mode::Line => self.termios_default,
            Mode::Symbol => self.termios_raw,
        }
    }

    /// Enters line mode if the device took the captured snapshot, and stays
    /// as it is if the device refused; the device's answer is handed on.
    pub fn line_mode(&mut self, applied: Result<(), DeviceError>) -> (outcome: Result<
        (),
        DeviceError,
    >)
        ensures
            final(self)@ == old(self)@.switched(Mode::Line, applied),
            outcome == applied,
    {
        proof {
            use_type_invariant(&*self);
        }
        if applied.is_ok() {
            self.mode = Mode::Line;
        }
        applied
    }

    /// Enters symbol mode if the device took the raw snapshot, and stays as
    /// it is if the device refused; the device's answer is handed on.
    pub fn symbol_mode(&mut self, applied: Result<(), DeviceError>) -> (outcome: Result<
        (),
        DeviceError,
    >)
        ensures
            final(self)@ == old(self)@.switched(Mode::Symbol, applied),
            outcome == applied,
    {
        proof {
            use_type_invariant(&*self);
        }
        if applied.is_ok() {
            self.mode = Mode::Symbol;
        }
        applied
    }

    /// The state with which the reader begins: an empty line buffer.
    pub fn start(&self) -> (reader: Reader)
        ensures
            reader@ == Seq::<char>::empty(),
    {
        Reader::new()
    }

    /// The snapshot to push to the device when the handle goes away: the
    /// captured one, whatever mode the handle is in.
    pub fn restore(&self) -> (snapshot: Attributes)
        ensures
            snapshot == self@.captured,
    {
        self.termios_default
    }
}

/// Entering line mode and then symbol mode leaves the handle and the device
/// exactly where entering symbol mode alone leaves them.
pub proof fn lemma_line_then_symbol_converges(handle: ArlView)
    ensures
        handle.switched(Mode::Line, Ok(())).switched(Mode::Symbol, Ok(())) == handle.switched(
            Mode::Symbol,
            Ok(()),
        ),
        handle.switched(Mode::Symbol, Ok(())).device == raw_of(handle.captured),
{
}

/// Mode and device agree after construction, and a request keeps them in
/// agreement whether the device takes it or refuses it.
pub proof fn lemma_switch_keeps_consistent(
    handle: ArlView,
    target: Mode,
    applied: Result<(), DeviceError>,
)
    ensures
        ArlView::initial(handle.stdin_fd, handle.captured).consistent(),
        handle.consistent() ==> handle.switched(target, applied).consistent(),
{
}

/// Whatever requests follow the construction, taken or refused by the device:
/// mode and device agree, and the captured snapshot and the descriptor are
/// those of the start, so that what is restored at the end is what was
/// captured at the start.
pub proof fn lemma_switches_keep_consistent(
    stdin_fd: i32,
    captured: Attributes,
    requests: Seq<(Mode, Result<(), DeviceError>)>,
)
    ensures
        ArlView::initial(stdin_fd, captured).switched_all(requests).consistent(),
        ArlView::initial(stdin_fd, captured).switched_all(requests).captured == captured,
        ArlView::initial(stdin_fd, captured).switched_all(requests).stdin_fd == stdin_fd,
    decreases requests.len(),
{
    if requests.len() > 0 {
        lemma_switches_keep_consistent(stdin_fd, captured, requests.drop_last());
    }
}

/// Every handle is consistent: the device holds the snapshot of its mode.
pub proof fn lemma_handle_is_consistent(handle: &Arl)
    ensures
        handle@.consistent(),
{
}

} // verus!
