//! Which device backend the interfaces open, and what each backend can
//! show: the ALSA (kernel driver) backend, the proprietary USB backend and
//! the mock device. Opening is a short exchange with the outside world:
//! the caller tries the backend a step names and reports the failure back.
use vstd::prelude::*;

use crate::panel::PanelDriver;
use crate::scene::str_equal;

verus! {

/// A device backend.
#[derive(Debug, Clone, Copy, PartialEq, Eq, Structural)]
pub enum BackendKind {
    /// The mock device, for development without hardware.
    Mock,
    /// The proprietary USB protocol, spoken directly.
    Usb,
    /// The ALSA mixer controls of the kernel driver.
    Alsa,
}

/// The backend asked for on the command line.
#[derive(Debug, Clone, Copy, PartialEq, Eq, Structural)]
pub enum BackendChoice {
    /// No choice (or an unknown one): try ALSA, then USB.
    Auto,
    /// Only the ALSA backend.
    Alsa,
    /// Only the USB backend.
    Usb,
}

/// The choice a `--backend` argument names: exactly `"alsa"` or `"usb"`,
/// anything else is automatic.
pub fn backend_choice(arg: Option<&str>) -> (r: BackendChoice)
    ensures
        r == (match arg {
            Some(s) => if s@ == "alsa"@ {
                BackendChoice::Alsa
            } else if s@ == "usb"@ {
                BackendChoice::Usb
            } else {
                BackendChoice::Auto
            },
            None => BackendChoice::Auto,
        }),
{
    match arg {
        Some(s) => {
            if str_equal(s, "alsa") {
                BackendChoice::Alsa
            } else if str_equal(s, "usb") {
                BackendChoice::Usb
            } else {
                BackendChoice::Auto
            }
        },
        None => BackendChoice::Auto,
    }
}

/// What to do next while opening a real device.
#[derive(Debug, Clone, Copy, PartialEq, Eq, Structural)]
pub enum OpenStep {
    /// Try to open the ALSA backend; on success it is the device.
    TryAlsa,
    /// Try to open the USB backend; on success it is the device.
    TryUsb,
    /// Stop: no device.
    GiveUp,
}

/// The first attempt: ALSA unless USB alone was asked for (and only when
/// this build has the ALSA backend), else USB unless ALSA alone was asked
/// for.
pub open spec fn first_step_spec(choice: BackendChoice, alsa_built: bool) -> OpenStep {
    if alsa_built && choice != BackendChoice::Usb {
        OpenStep::TryAlsa
    } else if choice != BackendChoice::Alsa {
        OpenStep::TryUsb
    } else {
        OpenStep::GiveUp
    }
}

/// The step after the backend `failed` could not be opened: after ALSA,
/// USB unless ALSA alone was asked for; after USB (or anything else),
/// nothing.
pub open spec fn next_step_spec(choice: BackendChoice, failed: BackendKind) -> OpenStep {
    if failed == BackendKind::Alsa && choice != BackendChoice::Alsa {
        OpenStep::TryUsb
    } else {
        OpenStep::GiveUp
    }
}

/// The first backend to try for `choice`; `alsa_built` says whether this
/// build has the ALSA backend at all.
pub fn first_open_step(choice: BackendChoice, alsa_built: bool) -> (r: OpenStep)
    ensures
        r == first_step_spec(choice, alsa_built),
{
    if alsa_built && choice != BackendChoice::Usb {
        OpenStep::TryAlsa
    } else if choice != BackendChoice::Alsa {
        OpenStep::TryUsb
    } else {
        OpenStep::GiveUp
    }
}

/// The next step after backend `failed` could not be opened.
pub fn next_open_step(choice: BackendChoice, failed: BackendKind) -> (r: OpenStep)
    ensures
        r == next_step_spec(choice, failed),
{
    if failed == BackendKind::Alsa && choice != BackendChoice::Alsa {
        OpenStep::TryUsb
    } else {
        OpenStep::GiveUp
    }
}

/// Whether the backend reads real input meters: the mock and the USB
/// backend do; the ALSA backend has no meter readback.
pub fn has_input_meters(kind: BackendKind) -> (r: bool)
    ensures
        r == (kind != BackendKind::Alsa),
{
    match kind {
        BackendKind::Mock | BackendKind::Usb => true,
        BackendKind::Alsa => false,
    }
}

/// Whether input `idx` has a real meter reading: every input on the mock
/// and the USB backend; on the ALSA backend only AN1/AN2, the two whose
/// capture mapping is confirmed.
pub fn has_input_meter(kind: BackendKind, idx: usize) -> (r: bool)
    ensures
        r == (kind != BackendKind::Alsa || idx < 2),
{
    match kind {
        BackendKind::Mock | BackendKind::Usb => true,
        BackendKind::Alsa => idx < 2,
    }
}

/// Whether the playback meters are real: only on the mock.
pub fn has_playback_meters(kind: BackendKind) -> (r: bool)
    ensures
        r == (kind == BackendKind::Mock),
{
    kind == BackendKind::Mock
}

/// Whether the backend is the mock device.
pub fn is_mock(kind: BackendKind) -> (r: bool)
    ensures
        r == (kind == BackendKind::Mock),
{
    kind == BackendKind::Mock
}

/// Whether outputs are laid out one strip per submix pair (as the USB
/// backend does) rather than two per pair: the output count equals the
/// pair count.
pub fn outputs_one_per_pair(n_outputs: usize, output_pair_count: usize) -> (r: bool)
    ensures
        r == (n_outputs == output_pair_count),
{
    n_outputs == output_pair_count
}

/// The front-panel state for the interface to follow, `(MIX engaged, IN
/// selection, OUT selection)`: only the USB backend has a panel.
pub fn panel_selection(kind: BackendKind, panel: &PanelDriver) -> (r: Option<(bool, usize, usize)>)
    ensures
        kind == BackendKind::Usb ==> r == Some((panel.mix_mode, panel.in_sel, panel.out_sel)),
        kind != BackendKind::Usb ==> r is None,
{
    match kind {
        BackendKind::Usb => Some((panel.mix_mode, panel.in_sel, panel.out_sel)),
        _ => None,
    }
}

// ── Laws ─────────────────────────────────────────────────────────

/// An explicit backend choice never tries the other backend: with USB
/// asked for no step is ALSA, with ALSA asked for no step is USB.
pub proof fn lemma_explicit_choice_tries_only_itself(alsa_built: bool, failed: BackendKind)
    ensures
        first_step_spec(BackendChoice::Usb, alsa_built) != OpenStep::TryAlsa,
        next_step_spec(BackendChoice::Usb, failed) != OpenStep::TryAlsa,
        first_step_spec(BackendChoice::Alsa, alsa_built) != OpenStep::TryUsb,
        next_step_spec(BackendChoice::Alsa, failed) != OpenStep::TryUsb,
{
}

/// Opening tries each backend at most once: after a failed USB attempt
/// nothing more is tried, and no step tries ALSA again after it failed.
pub proof fn lemma_each_backend_tried_once(choice: BackendChoice)
    ensures
        next_step_spec(choice, BackendKind::Usb) == OpenStep::GiveUp,
        next_step_spec(choice, BackendKind::Alsa) != OpenStep::TryAlsa,
{
}

} // verus!
