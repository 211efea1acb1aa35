//! The application orchestrator's state machine. It owns the simulation
//! knobs and every module's verified state, and decides — per event and
//! per frame — what the shell must do: which keyboard shortcuts fire,
//! when panning is active, whether capture must be force-disabled, when a
//! physics step is dispatched and with which bind group and workgroup
//! count, and what a GUI apply request changes. The window, GPU objects
//! and floating-point camera values live in the shell, which performs the
//! actions decided here.
//!
//! Until the platform reports the window ready, the module slots are
//! absent; the "resumed" transition fills them and the simulation runs.

use vstd::prelude::*;
use crate::capture::CaptureModule;
use crate::capture::dims_ok;
use crate::follow::FollowModule;
use crate::framepace::Framepacer;
use crate::gui::KeyCode;
use crate::gui::MouseButton;
use crate::gui::SimulationSettings;
use crate::physics::PhysicsModule;
use crate::physics::PARTICLES_PER_WORKGROUP;
use crate::utils::Exists;
use crate::utils::round_up_to_multiple;

verus! {

/// What becomes of a keyboard event: swallowed by a shortcut, the
/// fullscreen toggle (an action only the shell can perform), or forwarded
/// to the GUI layer.
#[derive(Clone, Copy, PartialEq, Eq, Debug)]
pub enum KeyOutcome {
    Handled,
    ToggleFullscreen,
    Forward,
}

/// What a GUI apply request asks of the shell.
#[derive(Clone, Copy, PartialEq, Eq, Debug)]
pub struct ApplyOutcome {
    /// The particle buffers were reallocated: re-seed them through the
    /// generator at the new count.
    pub regenerate: bool,
    /// Push the new gravitational constant to the physics parameters.
    pub update_gravity: bool,
}

/// The fixed shortcut table, consulted before anything reaches the GUI.
pub open spec fn shortcut_of(key: KeyCode, pressed: bool) -> KeyOutcome {
    if !pressed {
        KeyOutcome::Forward
    } else {
        match key {
            KeyCode::Space | KeyCode::KeyN | KeyCode::KeyF | KeyCode::KeyC
                => KeyOutcome::Handled,
            KeyCode::F11 => KeyOutcome::ToggleFullscreen,
            _ => KeyOutcome::Forward,
        }
    }
}

/// The application's own state: the simulation knobs and the verified
/// state of every module.
pub struct AppState {
    pub sim: SimulationSettings,
    pub physics: Exists<PhysicsModule>,
    pub follow: Exists<FollowModule>,
    pub capture: Exists<CaptureModule>,
    pub framepace: Framepacer,
    pub is_paused: bool,
    pub step: bool,
    pub framerate: u32,
    pub is_right_click_pressed: bool,
}

impl AppState {
    /// The window-ready transition has run: every module exists.
    pub open spec fn running(&self) -> bool {
        &&& self.physics is Ready
        &&& self.follow is Ready
        &&& self.capture is Ready
    }

    pub open spec fn physics_ref(&self) -> PhysicsModule {
        self.physics->Ready_0
    }

    pub open spec fn follow_ref(&self) -> FollowModule {
        self.follow->Ready_0
    }

    pub open spec fn capture_ref(&self) -> CaptureModule {
        self.capture->Ready_0
    }

    pub open spec fn wf(&self) -> bool {
        &&& self.framepace.wf()
        &&& self.running() ==> self.physics_ref().wf() && self.capture_ref().wf()
    }

    /// The state right after startup: knobs from the command line, every
    /// module still absent, the simulation paused.
    pub fn new(particles: u32, framerate: u32, gravity: u32) -> (r: Self)
        ensures
            !r.running(),
            r.physics is Absent,
            r.follow is Absent,
            r.capture is Absent,
            r.sim.particles == particles,
            r.sim.edited_particles == particles,
            r.sim.gravity == gravity,
            r.sim.edited_gravity == gravity,
            r.is_paused,
            !r.step,
            r.framerate == framerate,
            !r.is_right_click_pressed,
            r.wf(),
    {
        AppState {
            sim: SimulationSettings {
                particles,
                gravity,
                edited_particles: particles,
                edited_gravity: gravity,
            },
            physics: Exists::Absent,
            follow: Exists::Absent,
            capture: Exists::Absent,
            framepace: Framepacer::new(),
            is_paused: true,
            step: false,
            framerate,
            is_right_click_pressed: false,
        }
    }

    /// The platform's window-ready transition: brings every module into
    /// existence, the physics buffers at the configured count rounded up
    /// to the workgroup size, follow and capture at their defaults, the
    /// capture target at the window's pixel size.
    pub fn resumed(&mut self, width: u32, height: u32)
        requires
            round_up_to_multiple(
                old(self).sim.particles as int, PARTICLES_PER_WORKGROUP as int) <= u32::MAX,
            dims_ok(width as int, height as int),
            old(self).framepace.wf(),
        ensures
            final(self).running(),
            final(self).wf(),
            final(self).physics_ref().current == 0,
            final(self).physics_ref().particle_capacity == round_up_to_multiple(
                old(self).sim.particles as int, PARTICLES_PER_WORKGROUP as int),
            !final(self).follow_ref().enabled,
            final(self).follow_ref().center_of_mass,
            !final(self).follow_ref().auto_zoom,
            !final(self).capture_ref().enabled,
            final(self).capture_ref().width == width,
            final(self).capture_ref().height == height,
            final(self).sim == old(self).sim,
            final(self).is_paused == old(self).is_paused,
            final(self).step == old(self).step,
            final(self).framerate == old(self).framerate,
            final(self).framepace == old(self).framepace,
            final(self).is_right_click_pressed == old(self).is_right_click_pressed,
    {
        self.physics = Exists::Ready(PhysicsModule::new(self.sim.particles));
        self.follow = Exists::Ready(FollowModule::new());
        self.capture = Exists::Ready(CaptureModule::new(width, height));
    }

    /// Window-resize bookkeeping: the capture target follows the window's
    /// new pixel size; nothing else changes.
    pub fn resize(&mut self, width: u32, height: u32)
        requires
            old(self).running(),
            old(self).wf(),
            dims_ok(width as int, height as int),
        ensures
            final(self).running(),
            final(self).wf(),
            final(self).capture_ref().width == width,
            final(self).capture_ref().height == height,
            final(self).capture_ref().enabled == old(self).capture_ref().enabled,
            final(self).physics == old(self).physics,
            final(self).follow == old(self).follow,
            final(self).sim == old(self).sim,
            final(self).is_paused == old(self).is_paused,
            final(self).step == old(self).step,
            final(self).framerate == old(self).framerate,
            final(self).framepace == old(self).framepace,
            final(self).is_right_click_pressed == old(self).is_right_click_pressed,
    {
        match &mut self.capture {
            Exists::Ready(c) => c.resize(width, height),
            Exists::Absent => vstd::pervasive::unreached(),
        }
    }

    /// Consults the fixed shortcut table: space toggles pause, 'n'
    /// requests a single step while paused, 'f' toggles follow, 'c'
    /// toggles capture, F11 asks the shell to toggle fullscreen; any
    /// other key — and every release — is forwarded to the GUI layer.
    pub fn handle_key(&mut self, key: KeyCode, pressed: bool) -> (r: KeyOutcome)
        requires
            old(self).running(),
            old(self).wf(),
        ensures
            final(self).running(),
            final(self).wf(),
            r == shortcut_of(key, pressed),
            final(self).is_paused == (if pressed && key == KeyCode::Space {
                !old(self).is_paused
            } else {
                old(self).is_paused
            }),
            final(self).step == (if pressed && key == KeyCode::KeyN {
                true
            } else {
                old(self).step
            }),
            final(self).follow_ref().enabled == (if pressed && key == KeyCode::KeyF {
                !old(self).follow_ref().enabled
            } else {
                old(self).follow_ref().enabled
            }),
            final(self).follow_ref().center_of_mass == old(self).follow_ref().center_of_mass,
            final(self).follow_ref().auto_zoom == old(self).follow_ref().auto_zoom,
            final(self).capture_ref().enabled == (if pressed && key == KeyCode::KeyC {
                !old(self).capture_ref().enabled
            } else {
                old(self).capture_ref().enabled
            }),
            final(self).capture_ref().width == old(self).capture_ref().width,
            final(self).capture_ref().height == old(self).capture_ref().height,
            final(self).physics == old(self).physics,
            final(self).sim == old(self).sim,
            final(self).framerate == old(self).framerate,
            final(self).framepace == old(self).framepace,
            final(self).is_right_click_pressed == old(self).is_right_click_pressed,
    {
        match (pressed, key) {
            (true, KeyCode::Space) => {
                self.is_paused = !self.is_paused;
                KeyOutcome::Handled
            }
            (true, KeyCode::F11) => KeyOutcome::ToggleFullscreen,
            (true, KeyCode::KeyN) => {
                self.step = true;
                KeyOutcome::Handled
            }
            (true, KeyCode::KeyF) => {
                match &mut self.follow {
                    Exists::Ready(f) => f.enabled = !f.enabled,
                    Exists::Absent => vstd::pervasive::unreached(),
                }
                KeyOutcome::Handled
            }
            (true, KeyCode::KeyC) => {
                match &mut self.capture {
                    Exists::Ready(c) => c.enabled = !c.enabled,
                    Exists::Absent => vstd::pervasive::unreached(),
                }
                KeyOutcome::Handled
            }
            _ => KeyOutcome::Forward,
        }
    }

    /// The right button drives panning: presses and releases of it set
    /// and clear the panning flag and are swallowed; every other button
    /// event is forwarded to the GUI layer.
    pub fn handle_mouse_button(&mut self, button: MouseButton, pressed: bool)
        -> (forward: bool)
        ensures
            forward == !(button == MouseButton::Right),
            final(self).is_right_click_pressed == (if button == MouseButton::Right {
                pressed
            } else {
                old(self).is_right_click_pressed
            }),
            final(self).physics == old(self).physics,
            final(self).follow == old(self).follow,
            final(self).capture == old(self).capture,
            final(self).sim == old(self).sim,
            final(self).is_paused == old(self).is_paused,
            final(self).step == old(self).step,
            final(self).framerate == old(self).framerate,
            final(self).framepace == old(self).framepace,
    {
        match button {
            MouseButton::Right => {
                self.is_right_click_pressed = pressed;
                false
            }
            _ => true,
        }
    }

    /// The tick's first decision: capture cannot run without a fixed
    /// framerate, so an enabled capture under an uncapped framerate is
    /// force-disabled; the returned flag tells the shell to log the
    /// warning. Afterwards capture is enabled only under a nonzero
    /// framerate.
    pub fn enforce_capture_framerate(&mut self) -> (warned: bool)
        requires
            old(self).running(),
            old(self).wf(),
        ensures
            final(self).running(),
            final(self).wf(),
            warned == (old(self).capture_ref().enabled && old(self).framerate == 0),
            final(self).capture_ref().enabled
                == (old(self).capture_ref().enabled && old(self).framerate != 0),
            final(self).capture_ref().enabled ==> final(self).framerate != 0,
            final(self).capture_ref().width == old(self).capture_ref().width,
            final(self).capture_ref().height == old(self).capture_ref().height,
            final(self).physics == old(self).physics,
            final(self).follow == old(self).follow,
            final(self).sim == old(self).sim,
            final(self).is_paused == old(self).is_paused,
            final(self).step == old(self).step,
            final(self).framerate == old(self).framerate,
            final(self).framepace == old(self).framepace,
            final(self).is_right_click_pressed == old(self).is_right_click_pressed,
    {
        let uncapped = self.framerate == 0;
        match &mut self.capture {
            Exists::Ready(c) => {
                if c.enabled && uncapped {
                    c.enabled = false;
                    true
                } else {
                    false
                }
            }
            Exists::Absent => vstd::pervasive::unreached(),
        }
    }

    /// Decides the frame's physics dispatch: one step runs unless the
    /// simulation is paused with no single step requested; a requested
    /// single step is consumed either way. On a dispatch the ping-pong
    /// pair flips and the shell receives the bind group to dispatch with
    /// and the workgroup count for the configured particle count.
    pub fn physics_step(&mut self) -> (r: Option<(usize, u32)>)
        requires
            old(self).running(),
            old(self).wf(),
        ensures
            final(self).running(),
            final(self).wf(),
            final(self).step == false,
            (old(self).is_paused && !old(self).step) ==> r is None,
            (old(self).is_paused && !old(self).step)
                ==> final(self).physics == old(self).physics,
            (!old(self).is_paused || old(self).step) ==> r == Some((
                old(self).physics_ref().current,
                old(self).sim.particles / PARTICLES_PER_WORKGROUP as u32,
            )),
            (!old(self).is_paused || old(self).step)
                ==> final(self).physics_ref().current == 1 - old(self).physics_ref().current,
            final(self).physics_ref().particle_capacity
                == old(self).physics_ref().particle_capacity,
            final(self).follow == old(self).follow,
            final(self).capture == old(self).capture,
            final(self).sim == old(self).sim,
            final(self).is_paused == old(self).is_paused,
            final(self).framerate == old(self).framerate,
            final(self).framepace == old(self).framepace,
            final(self).is_right_click_pressed == old(self).is_right_click_pressed,
    {
        let run = !self.is_paused || self.step;
        self.step = false;
        if run {
            let workgroups = self.sim.particles / PARTICLES_PER_WORKGROUP;
            match &mut self.physics {
                Exists::Ready(pm) => {
                    let bind_group = pm.begin_pass();
                    Some((bind_group, workgroups))
                }
                Exists::Absent => vstd::pervasive::unreached(),
            }
        } else {
            None
        }
    }

    /// Applies the GUI's apply request. It fires only while the edited
    /// particle count is positive and the edited gravitational constant
    /// is above zero; an invalid edit changes nothing at all. A fired
    /// request with a changed particle count reallocates the physics
    /// buffers at the new count rounded up to the workgroup size (the
    /// shell must then re-seed them), and a changed gravitational
    /// constant is adopted and pushed by the shell. Gravitational
    /// constants here are positive, so bit-pattern equality coincides
    /// with floating-point equality.
    pub fn apply_edits(&mut self, clicked: bool) -> (r: ApplyOutcome)
        requires
            old(self).running(),
            old(self).wf(),
            (clicked && old(self).sim.edits_valid()
                && old(self).sim.particles != old(self).sim.edited_particles)
                ==> round_up_to_multiple(
                        old(self).sim.edited_particles as int,
                        PARTICLES_PER_WORKGROUP as int) <= u32::MAX,
        ensures
            final(self).running(),
            final(self).wf(),
            r.regenerate == (clicked && old(self).sim.edits_valid()
                && old(self).sim.particles != old(self).sim.edited_particles),
            r.update_gravity == (clicked && old(self).sim.edits_valid()
                && old(self).sim.gravity != old(self).sim.edited_gravity),
            !(clicked && old(self).sim.edits_valid()) ==> final(self).sim == old(self).sim,
            !(clicked && old(self).sim.edits_valid())
                ==> final(self).physics == old(self).physics,
            (clicked && old(self).sim.edits_valid())
                ==> final(self).sim.particles == old(self).sim.edited_particles,
            (clicked && old(self).sim.edits_valid())
                ==> final(self).sim.gravity == old(self).sim.edited_gravity,
            r.regenerate ==> final(self).physics_ref().particle_capacity
                == round_up_to_multiple(
                    old(self).sim.edited_particles as int, PARTICLES_PER_WORKGROUP as int),
            !r.regenerate ==> final(self).physics == old(self).physics,
            final(self).physics_ref().current == old(self).physics_ref().current,
            final(self).sim.edited_particles == old(self).sim.edited_particles,
            final(self).sim.edited_gravity == old(self).sim.edited_gravity,
            final(self).follow == old(self).follow,
            final(self).capture == old(self).capture,
            final(self).is_paused == old(self).is_paused,
            final(self).step == old(self).step,
            final(self).framerate == old(self).framerate,
            final(self).framepace == old(self).framepace,
            final(self).is_right_click_pressed == old(self).is_right_click_pressed,
    {
        let valid = self.sim.edited_particles > 0
            && crate::float_bits::f32_bits_is_positive(self.sim.edited_gravity);
        if !(clicked && valid) {
            return ApplyOutcome { regenerate: false, update_gravity: false };
        }
        let mut outcome = ApplyOutcome { regenerate: false, update_gravity: false };
        if self.sim.particles != self.sim.edited_particles {
            match &mut self.physics {
                Exists::Ready(pm) => pm.resize_buffers(self.sim.edited_particles),
                Exists::Absent => vstd::pervasive::unreached(),
            }
            self.sim.particles = self.sim.edited_particles;
            outcome.regenerate = true;
        }
        if self.sim.gravity != self.sim.edited_gravity {
            self.sim.gravity = self.sim.edited_gravity;
            outcome.update_gravity = true;
        }
        outcome
    }
}

} // verus!
