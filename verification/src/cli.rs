//! What the receiver is started with, and what follows from it for the
//! window. Reading the command line is the program's part; the values that
//! it falls back on, and the rules that it applies to what it read, are
//! stated here.

use vstd::prelude::*;

verus! {

/// The options of the receiver.
#[derive(Debug, Clone)]
pub struct Args {
    /// Address of the sending machine.
    pub mac_ip: String,
    /// Port to listen on.
    pub port: u16,
    /// Whether to run fullscreen.
    pub fullscreen: bool,
    /// Log level: `trace`, `debug`, `info`, `warn` or `error`.
    pub log_level: String,
}

impl Default for Args {
    /// The options of a receiver that is started without any: the sender's
    /// default address, the default port, windowed, log level `info`.
    fn default() -> (args: Args)
        ensures
            args.mac_ip@ == crate::DEFAULT_MAC_IP@,
            args.port == crate::DEFAULT_PORT,
            !args.fullscreen,
            args.log_level@ == "info"@,
    {
        Args {
            mac_ip: String::from_str(crate::DEFAULT_MAC_IP),
            port: crate::DEFAULT_PORT,
            fullscreen: false,
            log_level: String::from_str("info"),
        }
    }
}

/// The size of the screen, of the two numbers that the desktop gives for its
/// width and height: known where both are above zero.
pub fn get_screen_dimensions(width: i32, height: i32) -> (size: Option<(usize, usize)>)
    ensures
        size == if width > 0 && height > 0 {
            Some((width as usize, height as usize))
        } else {
            None
        },
{
    if width > 0 && height > 0 {
        Some((width as usize, height as usize))
    } else {
        None
    }
}

/// How the window is made.
#[derive(Debug, Clone, Copy, PartialEq, Eq, Structural)]
pub struct WindowPlan {
    /// Width of the window.
    pub width: usize,
    /// Height of the window.
    pub height: usize,
    /// Whether the user may resize the window.
    pub resize: bool,
    /// Whether the window has no border.
    pub borderless: bool,
    /// Whether the window stays above all others.
    pub topmost: bool,
}

/// How the window is made for a framebuffer of `width` by `height`. A
/// windowed receiver gets a resizable window of that size. A fullscreen
/// receiver gets a fixed, borderless, topmost window of the size of the
/// screen, or of the framebuffer where the screen's size is not known.
pub fn plan_window(
    fullscreen: bool,
    screen: Option<(usize, usize)>,
    width: usize,
    height: usize,
) -> (plan: WindowPlan)
    ensures
        plan == if fullscreen {
            WindowPlan {
                width: if screen is Some {
                    screen->Some_0.0
                } else {
                    width
                },
                height: if screen is Some {
                    screen->Some_0.1
                } else {
                    height
                },
                resize: false,
                borderless: true,
                topmost: true,
            }
        } else {
            WindowPlan { width, height, resize: true, borderless: false, topmost: false }
        },
{
    if fullscreen {
        let (w, h) = match screen {
            Some(size) => size,
            None => (width, height),
        };
        WindowPlan { width: w, height: h, resize: false, borderless: true, topmost: true }
    } else {
        WindowPlan { width, height, resize: true, borderless: false, topmost: false }
    }
}

} // verus!
