//! The overall boot state shown on screen, derived from the boot information.
use vstd::prelude::*;
use crate::boot_protocol::BootInfo;

verus! {

/// Status shown by the boot screen.
#[derive(Clone, Copy, PartialEq, Eq, Structural)]
pub enum Status {
    Initializing,
    Ready,
    Warning,
    Error,
}

/// State of the boot as judged from the boot information.
#[derive(Clone, Copy, PartialEq, Eq, Structural)]
pub enum BootState {
    Initializing,
    Ready,
    Warning,
    Error,
}

/// The framebuffer description is unusable: some essential field is zero.
pub open spec fn framebuffer_missing(info: BootInfo) -> bool {
    ||| info.framebuffer_addr == 0
    ||| info.framebuffer_size == 0
    ||| info.framebuffer_width == 0
    ||| info.framebuffer_height == 0
    ||| info.framebuffer_stride == 0
}

pub open spec fn boot_state_of(info: BootInfo) -> BootState {
    if framebuffer_missing(info) {
        BootState::Error
    } else if info.framebuffer_format > 3 {
        BootState::Warning
    } else {
        BootState::Ready
    }
}

impl BootState {
    /// The display status that corresponds to this boot state.
    pub fn status(self) -> (s: Status)
        ensures
            self == BootState::Initializing ==> s == Status::Initializing,
            self == BootState::Ready ==> s == Status::Ready,
            self == BootState::Warning ==> s == Status::Warning,
            self == BootState::Error ==> s == Status::Error,
    {
        match self {
            BootState::Initializing => Status::Initializing,
            BootState::Ready => Status::Ready,
            BootState::Warning => Status::Warning,
            BootState::Error => Status::Error,
        }
    }

    /// Error when the framebuffer is missing, Warning for an unknown pixel
    /// format, Ready otherwise.
    pub fn from_boot_info(boot_info: &BootInfo) -> (s: Self)
        ensures
            s == boot_state_of(*boot_info),
            s == BootState::Error <==> (boot_info.framebuffer_addr == 0 || boot_info.framebuffer_size == 0
                || boot_info.framebuffer_width == 0 || boot_info.framebuffer_height == 0
                || boot_info.framebuffer_stride == 0),
            s == BootState::Warning <==> (s != BootState::Error && boot_info.framebuffer_format > 3),
            s == BootState::Ready <==> (s != BootState::Error && boot_info.framebuffer_format <= 3),
    {
        if boot_info.framebuffer_addr == 0 || boot_info.framebuffer_size == 0
            || boot_info.framebuffer_width == 0 || boot_info.framebuffer_height == 0
            || boot_info.framebuffer_stride == 0
        {
            return BootState::Error;
        }
        if boot_info.framebuffer_format > 3 {
            return BootState::Warning;
        }
        BootState::Ready
    }
}

} // verus!
