//! The decisions of a host loop: what an input event does to the machine,
//! and how a frame's worth of instructions is run. The loop itself, with
//! its window, its sound and its clock, belongs to the host.

use vstd::prelude::*;
use crate::chip8::Chip8;
use crate::display::Scale;
use crate::fault::Fault;
use crate::keypad::{map_key, pad_key, KEY_ESCAPE, KEY_F1};
use crate::machine::MachineState;
use crate::semantics::{fetch_word, key_set, random_limit, tick_fault, ticked};

verus! {

/// Instructions executed per frame.
pub const NUMBER_OF_CYCLES: u8 = 8;

/// Nanoseconds in a second.
pub const NANOS_PER_SECOND: u32 = 1_000_000_000;

/// What the host reports between two frames.
#[derive(Clone, Copy, Debug, PartialEq, Eq, Structural)]
pub enum HostEvent {
    /// The window was closed.
    Quit,
    /// A key went down.
    KeyDown { keycode: i32 },
    /// A key came up.
    KeyUp { keycode: i32 },
    /// The window has a new size, in host pixels.
    Resized { width: i32, height: i32 },
    /// Anything else.
    Other,
}

/// What the host is to do after an event.
#[derive(Clone, Copy, Debug, PartialEq, Eq, Structural)]
pub enum HostAction {
    /// End the session.
    Stop,
    /// Save the machine, then go on.
    SaveState,
    /// Go on.
    Continue,
}

/// What the host is to do after `event`: stop when the window closes or
/// Escape goes down, save when F1 goes down, and go on otherwise.
pub open spec fn action_for(event: HostEvent) -> HostAction {
    match event {
        HostEvent::Quit => HostAction::Stop,
        HostEvent::KeyDown { keycode } => if keycode == KEY_ESCAPE {
            HostAction::Stop
        } else if keycode == KEY_F1 {
            HostAction::SaveState
        } else {
            HostAction::Continue
        },
        _ => HostAction::Continue,
    }
}

/// The machine after `event`: a pad key that goes down or comes up is
/// latched, and nothing else changes.
pub open spec fn machine_after(m: MachineState, event: HostEvent) -> MachineState {
    match event {
        HostEvent::KeyDown { keycode } => if keycode == KEY_ESCAPE || keycode == KEY_F1 {
            m
        } else {
            key_set(m, pad_key(keycode), true)
        },
        HostEvent::KeyUp { keycode } => key_set(m, pad_key(keycode), false),
        _ => m,
    }
}

/// The scale after `event`: a resized window is filled again.
pub open spec fn scale_after(scale: Scale, event: HostEvent) -> Scale {
    match event {
        HostEvent::Resized { width, height } => Scale::fitting(width, height),
        _ => scale,
    }
}

/// Takes one host event: latches pad keys, fits the scale to a resized
/// window and says what the host is to do next.
pub fn handle_event(chip8: &mut Chip8, scale: &mut Scale, event: HostEvent) -> (action: HostAction)
    ensures
        action == action_for(event),
        final(chip8)@ == machine_after(old(chip8)@, event),
        *final(scale) == scale_after(*old(scale), event),
{
    match event {
        HostEvent::Quit => HostAction::Stop,
        HostEvent::KeyDown { keycode } => {
            if keycode == KEY_ESCAPE {
                HostAction::Stop
            } else if keycode != KEY_F1 {
                let key = map_key(keycode);
                chip8.key_down(key, true);
                HostAction::Continue
            } else {
                HostAction::SaveState
            }
        },
        HostEvent::KeyUp { keycode } => {
            let key = map_key(keycode);
            chip8.key_down(key, false);
            HostAction::Continue
        },
        HostEvent::Resized { width, height } => {
            *scale = Scale::for_window(width, height);
            HostAction::Continue
        },
        HostEvent::Other => HostAction::Continue,
    }
}

/// Length of a frame in nanoseconds at `fps` frames per second.
pub fn frame_interval_nanos(fps: u32) -> (nanos: u32)
    requires
        fps > 0,
    ensures
        nanos == NANOS_PER_SECOND / fps,
{
    NANOS_PER_SECOND / fps
}

/// State `end` can be reached from `m` in `steps` steps, each of them
/// possible, with some draw of the random numbers.
pub open spec fn reaches(m: MachineState, steps: nat, end: MachineState) -> bool
    decreases steps,
{
    if steps == 0 {
        end == m
    } else {
        tick_fault(m) is None && exists|random: u8|
            random <= random_limit(fetch_word(m)) && reaches(
                #[trigger] ticked(m, random),
                (steps - 1) as nat,
                end,
            )
    }
}

/// A run of steps can be extended by one more step at its end.
pub proof fn lemma_reaches_one_more(
    m: MachineState,
    steps: nat,
    mid: MachineState,
    random: u8,
)
    requires
        reaches(m, steps, mid),
        tick_fault(mid) is None,
        random <= random_limit(fetch_word(mid)),
    ensures
        reaches(m, steps + 1, ticked(mid, random)),
    decreases steps,
{
    if steps == 0 {
        assert(reaches(ticked(m, random), 0, ticked(mid, random)));
    } else {
        let first = choose|first: u8|
            first <= random_limit(fetch_word(m)) && reaches(
                #[trigger] ticked(m, first),
                (steps - 1) as nat,
                mid,
            );
        lemma_reaches_one_more(ticked(m, first), (steps - 1) as nat, mid, random);
        assert(reaches(ticked(m, first), steps as nat, ticked(mid, random)));
    }
}

/// Runs `cycles` steps, or as many as can be taken: at the first step that
/// cannot be taken the run ends with that fault, and the machine stays as
/// the steps before it left it.
pub fn run_cycles(chip8: &mut Chip8, cycles: u8) -> (r: Result<(), Fault>)
    ensures
        match r {
            Ok(_) => reaches(old(chip8)@, cycles as nat, final(chip8)@),
            Err(fault) => exists|steps: nat|
                steps < cycles && #[trigger] reaches(old(chip8)@, steps, final(chip8)@)
                    && tick_fault(final(chip8)@) == Some(fault),
        },
        old(chip8)@.font_loaded() ==> final(chip8)@.font_loaded(),
{
    let ghost start = chip8@;
    let mut done: u8 = 0;
    while done < cycles
        invariant
            done <= cycles,
            start == old(chip8)@,
            reaches(start, done as nat, chip8@),
            start.font_loaded() ==> chip8@.font_loaded(),
        decreases cycles - done,
    {
        let ghost mid = chip8@;
        match chip8.try_tick() {
            Ok(_) => {
                proof {
                    let random = choose|random: u8|
                        random <= random_limit(fetch_word(mid)) && chip8@ == #[trigger] ticked(
                            mid,
                            random,
                        );
                    lemma_reaches_one_more(start, done as nat, mid, random);
                }
            },
            Err(fault) => {
                assert(reaches(start, done as nat, chip8@));
                return Err(fault);
            },
        }
        done = done + 1;
    }
    Ok(())
}

} // verus!
