//! The user-interface state machine.
//!
//! The shell around this library shows one screen per state, feeds
//! every window event and every finished background task back in as a
//! [`Message`], and performs whatever [`Action`] a step asks for.  The
//! transitions themselves -- which message moves which state where,
//! and which work is started -- are all decided here.

use vstd::prelude::*;
use crate::format::Format;

verus! {

/// One screen of the converter.
#[derive(Debug, Clone, PartialEq, Eq)]
pub enum State {
    /// Waiting for a file to be dropped onto the window.
    SelectFile,
    /// A file was dropped; waiting for the user to pick a format.
    SelectTarget { video: String },
    /// The conversion is running.
    GeneratingFile,
    /// The conversion finished and wrote `target_path`.
    Complete { target_path: String },
    /// No usable `ffmpeg` was found; the converter is unusable.
    Error,
}

/// One message handed to a step of the machine.
#[derive(Debug, Clone, PartialEq, Eq)]
pub enum Message {
    /// A file was dropped onto the window; `is_file` says whether the
    /// dropped path names a regular file.
    FileDropped { path: String, is_file: bool },
    /// Any window event other than a file drop.
    OtherEvent,
    /// The user pressed the button for `format`.
    Submit { format: Format },
    /// The conversion task finished and wrote `target_path`.
    FfmpegComplete { target_path: String },
    /// The probe for the `ffmpeg` binary finished; `found` says
    /// whether it answered.
    FfmpegFound { found: bool },
}

/// Work a step asks the shell to perform.
#[derive(Debug, Clone, PartialEq, Eq)]
pub enum Action {
    /// Nothing to do.
    Stay,
    /// Probe whether an `ffmpeg` binary answers.
    ProbeFfmpeg,
    /// Convert the file at `src` to `format`.
    Convert { src: String, format: Format },
}

impl State {
    /// The machine starts waiting for a file, and its first request is
    /// the probe for `ffmpeg`.
    pub fn init() -> (r: (State, Action))
        ensures
            r.0 is SelectFile,
            r.1 is ProbeFfmpeg,
    {
        (State::SelectFile, Action::ProbeFfmpeg)
    }

    /// One step of the machine.
    ///
    /// The error state absorbs every message.  From any other state a
    /// dropped regular file moves to the format screen, a submitted
    /// format starts the conversion, a finished conversion moves to
    /// the completion screen, and a failed probe moves to the error
    /// state; everything else changes nothing.  A submission outside
    /// the format screen is the one message the shell may not send.
    pub fn update(&mut self, message: Message) -> (a: Action)
        requires
            *old(self) !is Error && message is Submit ==> *old(self) is SelectTarget,
        ensures
            *old(self) is Error ==> *final(self) is Error && a is Stay,
            *old(self) !is Error ==> match message {
                Message::FileDropped { path, is_file } => {
                    if is_file {
                        &&& *final(self) matches State::SelectTarget { video } && video == path
                        &&& a is Stay
                    } else {
                        *final(self) == *old(self) && a is Stay
                    }
                },
                Message::OtherEvent => *final(self) == *old(self) && a is Stay,
                Message::Submit { format } => {
                    &&& *final(self) is GeneratingFile
                    &&& a matches Action::Convert { src, format: f }
                        && src == (*old(self))->video && f == format
                },
                Message::FfmpegComplete { target_path } => {
                    &&& *final(self) matches State::Complete { target_path: t }
                        && t == target_path
                    &&& a is Stay
                },
                Message::FfmpegFound { found } => {
                    if found {
                        *final(self) == *old(self) && a is Stay
                    } else {
                        *final(self) is Error && a is Stay
                    }
                },
            },
    {
        if let State::Error = self {
            return Action::Stay;
        }
        match message {
            Message::FileDropped { path, is_file } => {
                if is_file {
                    *self = State::SelectTarget { video: path };
                }
                Action::Stay
            },
            Message::OtherEvent => Action::Stay,
            Message::Submit { format } => {
                let video = match self {
                    State::SelectTarget { video } => video.clone(),
                    _ => vstd::pervasive::unreached(),
                };
                *self = State::GeneratingFile;
                Action::Convert { src: video, format }
            },
            Message::FfmpegComplete { target_path } => {
                *self = State::Complete { target_path };
                Action::Stay
            },
            Message::FfmpegFound { found } => {
                if !found {
                    *self = State::Error;
                }
                Action::Stay
            },
        }
    }
}

} // verus!
