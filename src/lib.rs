//! The logic of an SDK for a calculator-class device, centred on a
//! cooperative, single-threaded executor: wrap-safe tick arithmetic, a wake
//! marker, bounded channels, and the keypad, timer and yield reactors, each a
//! plain state machine that an outer driver feeds with the current tick and
//! the sampled keys. Around it stand the decoders of what the hardware and the
//! system libraries report: the key scan table, hardware and screen types,
//! touchpad reports, dialog buttons, error numbers, SDL flags and file
//! metadata.
use vstd::prelude::*;

pub mod executor;
pub mod fs;
pub mod hw;
pub mod image;
pub mod input;
pub mod keypad;
pub mod memchr;
pub mod mpsc;
pub mod msg;
pub mod nsdl;
pub mod process;
pub mod queue;
pub mod sdl;
pub mod sys;
pub mod ticks;
pub mod timer;
pub mod wake;
pub mod yield_now;
