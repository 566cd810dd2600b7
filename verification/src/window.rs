use vstd::prelude::*;

verus! {

/// The operating systems that the quit-and-resize key handling
/// distinguishes; every other host falls under `Other`.
#[derive(Clone, Copy, Debug, PartialEq, Eq)]
pub enum Os {
    MacOs,
    Windows,
    Other,
}

/// The window modes the host's windowing layer can report. Only
/// `Windowed` and `BorderlessFullscreen` take part in toggling; the
/// remaining modes are left as they are.
#[derive(Clone, Copy, Debug, PartialEq, Eq)]
pub enum WindowMode {
    Windowed,
    BorderlessFullscreen,
    SizedFullscreen,
    Fullscreen,
}

/// The keys the quit-and-resize handling reads in one frame: whether
/// the super (command) and control keys are held, and whether the W, F
/// and F11 keys went down this frame.
#[derive(Clone, Copy, Debug, PartialEq, Eq)]
pub struct SystemKeys {
    pub super_pressed: bool,
    pub ctrl_pressed: bool,
    pub w_just_pressed: bool,
    pub f_just_pressed: bool,
    pub f11_just_pressed: bool,
}

/// What one frame of key handling asks of the host: whether to quit the
/// game, and the window mode to switch to, if any.
#[derive(Clone, Copy, Debug, PartialEq, Eq)]
pub struct WindowUpdate {
    pub exit: bool,
    pub set_mode: Option<WindowMode>,
}

/// The quit chord: command held while W goes down.
pub open spec fn mac_quit_chord(k: SystemKeys) -> bool {
    k.super_pressed && k.w_just_pressed
}

/// The fullscreen chord: command and control held while F goes down.
pub open spec fn mac_fullscreen_chord(k: SystemKeys) -> bool {
    k.super_pressed && k.ctrl_pressed && k.f_just_pressed
}

/// The mode a fullscreen toggle switches to from `m`: windowed and
/// borderless fullscreen swap, and no switch is requested from any
/// other mode.
pub open spec fn toggled(m: WindowMode) -> Option<WindowMode> {
    match m {
        WindowMode::Windowed => Some(WindowMode::BorderlessFullscreen),
        WindowMode::BorderlessFullscreen => Some(WindowMode::Windowed),
        _ => None,
    }
}

/// One frame of quit-and-resize handling, given the host operating
/// system, the keys of the frame, and the window's current mode.
///
/// On macOS the quit chord exits and puts the window back into windowed
/// mode; the fullscreen chord then toggles from whatever mode the frame
/// has reached, so both chords in one frame end borderless fullscreen.
/// On Windows, F11 alone toggles. Elsewhere the keys do nothing.
pub open spec fn spec_window_update(os: Os, k: SystemKeys, m: WindowMode) -> WindowUpdate {
    match os {
        Os::MacOs => {
            let quit = mac_quit_chord(k);
            let reached = if quit { WindowMode::Windowed } else { m };
            let toggle = if mac_fullscreen_chord(k) { toggled(reached) } else { None };
            WindowUpdate {
                exit: quit,
                set_mode: if toggle is Some {
                    toggle
                } else if quit {
                    Some(WindowMode::Windowed)
                } else {
                    None
                },
            }
        },
        Os::Windows => WindowUpdate {
            exit: false,
            set_mode: if k.f11_just_pressed { toggled(m) } else { None },
        },
        Os::Other => WindowUpdate { exit: false, set_mode: None },
    }
}

/// Decides, for one frame, whether the game quits and which window mode
/// the host should switch to, exactly as `spec_window_update` states.
pub fn window_update(os: Os, k: SystemKeys, mode: WindowMode) -> (u: WindowUpdate)
    ensures
        u == spec_window_update(os, k, mode),
{
    match os {
        Os::MacOs => {
            let quit = k.super_pressed && k.w_just_pressed;
            let mut set_mode: Option<WindowMode> = if quit {
                Some(WindowMode::Windowed)
            } else {
                None
            };
            let reached = if quit { WindowMode::Windowed } else { mode };
            if k.super_pressed && k.ctrl_pressed && k.f_just_pressed {
                match reached {
                    WindowMode::Windowed => {
                        set_mode = Some(WindowMode::BorderlessFullscreen);
                    },
                    WindowMode::BorderlessFullscreen => {
                        set_mode = Some(WindowMode::Windowed);
                    },
                    _ => {},
                }
            }
            WindowUpdate { exit: quit, set_mode }
        },
        Os::Windows => {
            let mut set_mode: Option<WindowMode> = None;
            if k.f11_just_pressed {
                match mode {
                    WindowMode::Windowed => {
                        set_mode = Some(WindowMode::BorderlessFullscreen);
                    },
                    WindowMode::BorderlessFullscreen => {
                        set_mode = Some(WindowMode::Windowed);
                    },
                    _ => {},
                }
            }
            WindowUpdate { exit: false, set_mode }
        },
        Os::Other => WindowUpdate { exit: false, set_mode: None },
    }
}

} // verus!
