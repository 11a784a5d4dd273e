//! Capture engine: snapshots the window's client-area screen contents into
//! the clipboard.
//!
//! The engine owns the decisions of the capture: which surface or clipboard
//! operation comes next, what to do when one fails, and which resources must
//! still be released. The outer shell performs each returned command against
//! the host graphics and clipboard systems and reports back whether it
//! succeeded. A failure at any acquisition step aborts the capture: the
//! clipboard is never filled, and everything acquired so far is released. On
//! success the bitmap's ownership moves to the clipboard, so the engine
//! releases every surface it acquired but never the published bitmap.

use vstd::prelude::*;

verus! {

/// The screen-space rectangle a capture copies: the client-area origin in
/// screen coordinates and the client width and height.
#[derive(Clone, Copy, Debug, PartialEq, Eq, Structural)]
pub struct CaptureRegion {
    pub x: i32,
    pub y: i32,
    pub width: i32,
    pub height: i32,
}

/// A client rectangle as the host reports it.
#[derive(Clone, Copy, Debug, PartialEq, Eq, Structural)]
pub struct ClientRect {
    pub left: i32,
    pub top: i32,
    pub right: i32,
    pub bottom: i32,
}

/// Where the flow stands: which command is in flight, or that the capture
/// is tearing down or finished.
#[derive(Clone, Copy, Debug, PartialEq, Eq, Structural)]
pub enum Stage {
    /// Acquiring a drawing surface for the whole screen.
    ScreenSurface,
    /// Creating an off-screen surface compatible with the screen's.
    MemorySurface,
    /// Creating an off-screen bitmap sized to the region.
    Bitmap,
    /// Selecting the bitmap into the off-screen surface.
    Select,
    /// Copying the screen region into the off-screen surface.
    Copy,
    /// Taking exclusive ownership of the clipboard.
    ClipboardOpen,
    /// Clearing the clipboard's prior contents.
    ClipboardClear,
    /// Installing the bitmap as the clipboard's new contents.
    Publish,
    /// Releasing clipboard ownership after a successful publish.
    ClipboardClose,
    /// Releasing the resources still held, one command at a time.
    Teardown,
    /// Nothing left to do.
    Done,
}

/// One command for the outer shell to perform against the host systems.
#[derive(Clone, Copy, Debug, PartialEq, Eq, Structural)]
pub enum Cmd {
    /// Acquire a drawing surface for the whole screen.
    GetScreenSurface,
    /// Create an off-screen surface compatible with the screen surface.
    CreateMemorySurface,
    /// Create an off-screen bitmap of the given size.
    CreateBitmap { width: i32, height: i32 },
    /// Select the bitmap into the off-screen surface.
    SelectBitmap,
    /// Copy the region's screen pixels into the off-screen surface,
    /// one-to-one: no scaling, no rotation.
    CopyPixels { region: CaptureRegion },
    /// Take exclusive ownership of the clipboard.
    OpenClipboard,
    /// Clear whatever the clipboard held before.
    ClearClipboard,
    /// Install the bitmap as the clipboard's contents; on success its
    /// ownership moves to the clipboard.
    PublishBitmap,
    /// Release clipboard ownership.
    CloseClipboard,
    /// Select the off-screen surface's previous object back in.
    RestoreSurface,
    /// Release the off-screen surface.
    FreeMemorySurface,
    /// Release the screen surface.
    FreeScreenSurface,
    /// Release a bitmap whose ownership never moved to the clipboard.
    FreeBitmap,
    /// The capture is over; `captured` says whether the clipboard now
    /// holds the new bitmap.
    Finished { captured: bool },
}

/// One capture in flight: the region being copied, the current stage, and
/// which resources the shell holds on the engine's behalf.
#[derive(Clone, Copy, Debug, PartialEq, Eq, Structural)]
pub struct CaptureFlow {
    pub region: CaptureRegion,
    pub stage: Stage,
    /// The whole-screen drawing surface is held.
    pub screen_held: bool,
    /// The off-screen surface is held.
    pub mem_held: bool,
    /// The bitmap is held and its ownership has not moved to the clipboard.
    pub bitmap_held: bool,
    /// The bitmap is selected into the off-screen surface.
    pub selected: bool,
    /// The clipboard is owned by this capture.
    pub clip_open: bool,
    /// The bitmap was installed as the clipboard's contents.
    pub published: bool,
}

impl CaptureFlow {
    /// What each stage implies about the resources held. In particular a
    /// finished flow holds nothing, and a published bitmap is never still
    /// held (its ownership moved to the clipboard).
    pub open spec fn wf(self) -> bool {
        match self.stage {
            Stage::ScreenSurface => !self.screen_held && !self.mem_held && !self.bitmap_held
                && !self.selected && !self.clip_open && !self.published,
            Stage::MemorySurface => self.screen_held && !self.mem_held && !self.bitmap_held
                && !self.selected && !self.clip_open && !self.published,
            Stage::Bitmap => self.screen_held && self.mem_held && !self.bitmap_held
                && !self.selected && !self.clip_open && !self.published,
            Stage::Select => self.screen_held && self.mem_held && self.bitmap_held
                && !self.selected && !self.clip_open && !self.published,
            Stage::Copy => self.screen_held && self.mem_held && self.bitmap_held
                && self.selected && !self.clip_open && !self.published,
            Stage::ClipboardOpen => self.screen_held && self.mem_held && self.bitmap_held
                && self.selected && !self.clip_open && !self.published,
            Stage::ClipboardClear => self.screen_held && self.mem_held && self.bitmap_held
                && self.selected && self.clip_open && !self.published,
            Stage::Publish => self.screen_held && self.mem_held && self.bitmap_held
                && self.selected && self.clip_open && !self.published,
            Stage::ClipboardClose => self.screen_held && self.mem_held && !self.bitmap_held
                && self.selected && self.clip_open && self.published,
            Stage::Teardown => self.published ==> !self.bitmap_held,
            Stage::Done => !self.screen_held && !self.mem_held && !self.bitmap_held
                && !self.selected && !self.clip_open,
        }
    }

    /// How the stages are ordered, for the progress measure.
    pub open spec fn stage_rank(self) -> int {
        match self.stage {
            Stage::ScreenSurface => 10,
            Stage::MemorySurface => 9,
            Stage::Bitmap => 8,
            Stage::Select => 7,
            Stage::Copy => 6,
            Stage::ClipboardOpen => 5,
            Stage::ClipboardClear => 4,
            Stage::Publish => 3,
            Stage::ClipboardClose => 2,
            Stage::Teardown => 1,
            Stage::Done => 0,
        }
    }

    /// How many resources are still held.
    pub open spec fn held_count(self) -> int {
        (if self.screen_held { 1int } else { 0int })
            + (if self.mem_held { 1int } else { 0int })
            + (if self.bitmap_held { 1int } else { 0int })
            + (if self.selected { 1int } else { 0int })
            + (if self.clip_open { 1int } else { 0int })
    }

    /// Strictly decreases on every `advance`, so a capture always comes to
    /// `Finished` after finitely many commands.
    pub open spec fn measure(self) -> int {
        8 * self.stage_rank() + self.held_count()
    }
}

/// Next release step of a teardown: close the clipboard if it is still
/// owned, then undo the surface selection, then release the off-screen
/// surface, the screen surface, and last an unpublished bitmap; when
/// nothing is held, report the outcome.
pub open spec fn spec_release_next(f: CaptureFlow) -> (CaptureFlow, Cmd) {
    if f.clip_open {
        (CaptureFlow { clip_open: false, ..f }, Cmd::CloseClipboard)
    } else if f.selected {
        (CaptureFlow { selected: false, ..f }, Cmd::RestoreSurface)
    } else if f.mem_held {
        (CaptureFlow { mem_held: false, ..f }, Cmd::FreeMemorySurface)
    } else if f.screen_held {
        (CaptureFlow { screen_held: false, ..f }, Cmd::FreeScreenSurface)
    } else if f.bitmap_held {
        (CaptureFlow { bitmap_held: false, ..f }, Cmd::FreeBitmap)
    } else {
        (CaptureFlow { stage: Stage::Done, ..f }, Cmd::Finished { captured: f.published })
    }
}

/// Abort from an acquisition stage: enter teardown and release the first
/// resource at once.
pub open spec fn spec_abort(f: CaptureFlow) -> (CaptureFlow, Cmd) {
    spec_release_next(CaptureFlow { stage: Stage::Teardown, ..f })
}

/// The whole transition relation of a capture: given where the flow stands
/// and whether the command in flight succeeded, the flow afterwards and the
/// next command. Release commands and the final clipboard close are
/// fire-and-forget: their reported outcome changes nothing.
pub open spec fn spec_advance(f: CaptureFlow, ok: bool) -> (CaptureFlow, Cmd) {
    match f.stage {
        Stage::ScreenSurface => if ok {
            (
                CaptureFlow { stage: Stage::MemorySurface, screen_held: true, ..f },
                Cmd::CreateMemorySurface,
            )
        } else {
            spec_abort(f)
        },
        Stage::MemorySurface => if ok {
            (
                CaptureFlow { stage: Stage::Bitmap, mem_held: true, ..f },
                Cmd::CreateBitmap { width: f.region.width, height: f.region.height },
            )
        } else {
            spec_abort(f)
        },
        Stage::Bitmap => if ok {
            (CaptureFlow { stage: Stage::Select, bitmap_held: true, ..f }, Cmd::SelectBitmap)
        } else {
            spec_abort(f)
        },
        Stage::Select => if ok {
            (
                CaptureFlow { stage: Stage::Copy, selected: true, ..f },
                Cmd::CopyPixels { region: f.region },
            )
        } else {
            spec_abort(f)
        },
        Stage::Copy => if ok {
            (CaptureFlow { stage: Stage::ClipboardOpen, ..f }, Cmd::OpenClipboard)
        } else {
            spec_abort(f)
        },
        Stage::ClipboardOpen => if ok {
            (
                CaptureFlow { stage: Stage::ClipboardClear, clip_open: true, ..f },
                Cmd::ClearClipboard,
            )
        } else {
            spec_abort(f)
        },
        Stage::ClipboardClear => if ok {
            (CaptureFlow { stage: Stage::Publish, ..f }, Cmd::PublishBitmap)
        } else {
            spec_abort(f)
        },
        Stage::Publish => if ok {
            (
                CaptureFlow {
                    stage: Stage::ClipboardClose,
                    bitmap_held: false,
                    published: true,
                    ..f
                },
                Cmd::CloseClipboard,
            )
        } else {
            spec_abort(f)
        },
        Stage::ClipboardClose => spec_release_next(
            CaptureFlow { stage: Stage::Teardown, clip_open: false, ..f },
        ),
        Stage::Teardown => spec_release_next(f),
        Stage::Done => (f, Cmd::Finished { captured: f.published }),
    }
}

impl CaptureFlow {
    /// Begin a capture of the window's current client area: resolve the
    /// region from the client origin in screen coordinates and the client
    /// rectangle, and ask for the screen surface first.
    pub fn start(origin_x: i32, origin_y: i32, rect: ClientRect) -> (r: (CaptureFlow, Cmd))
        requires
            rect.left < rect.right,
            rect.top < rect.bottom,
            rect.right - rect.left <= i32::MAX,
            rect.bottom - rect.top <= i32::MAX,
        ensures
            r.0.wf(),
            r.0.stage == Stage::ScreenSurface,
            r.0.region.x == origin_x,
            r.0.region.y == origin_y,
            r.0.region.width == rect.right - rect.left,
            r.0.region.height == rect.bottom - rect.top,
            r.0.region.width > 0,
            r.0.region.height > 0,
            r.1 == Cmd::GetScreenSurface,
    {
        let region = CaptureRegion {
            x: origin_x,
            y: origin_y,
            width: rect.right - rect.left,
            height: rect.bottom - rect.top,
        };
        let flow = CaptureFlow {
            region,
            stage: Stage::ScreenSurface,
            screen_held: false,
            mem_held: false,
            bitmap_held: false,
            selected: false,
            clip_open: false,
            published: false,
        };
        (flow, Cmd::GetScreenSurface)
    }

    /// Report the outcome of the command in flight and receive the next
    /// one. The flow follows `spec_advance` exactly, stays well formed, and
    /// strictly shrinks its measure, so `Finished` is always reached.
    pub fn advance(&mut self, ok: bool) -> (cmd: Cmd)
        requires
            old(self).wf(),
            old(self).stage != Stage::Done,
        ensures
            *final(self) == spec_advance(*old(self), ok).0,
            cmd == spec_advance(*old(self), ok).1,
            final(self).wf(),
            final(self).region == old(self).region,
            final(self).measure() < old(self).measure(),
    {
        match self.stage {
            Stage::ScreenSurface => if ok {
                self.stage = Stage::MemorySurface;
                self.screen_held = true;
                Cmd::CreateMemorySurface
            } else {
                self.release_next_aborting()
            },
            Stage::MemorySurface => if ok {
                self.stage = Stage::Bitmap;
                self.mem_held = true;
                Cmd::CreateBitmap { width: self.region.width, height: self.region.height }
            } else {
                self.release_next_aborting()
            },
            Stage::Bitmap => if ok {
                self.stage = Stage::Select;
                self.bitmap_held = true;
                Cmd::SelectBitmap
            } else {
                self.release_next_aborting()
            },
            Stage::Select => if ok {
                self.stage = Stage::Copy;
                self.selected = true;
                Cmd::CopyPixels { region: self.region }
            } else {
                self.release_next_aborting()
            },
            Stage::Copy => if ok {
                self.stage = Stage::ClipboardOpen;
                Cmd::OpenClipboard
            } else {
                self.release_next_aborting()
            },
            Stage::ClipboardOpen => if ok {
                self.stage = Stage::ClipboardClear;
                self.clip_open = true;
                Cmd::ClearClipboard
            } else {
                self.release_next_aborting()
            },
            Stage::ClipboardClear => if ok {
                self.stage = Stage::Publish;
                Cmd::PublishBitmap
            } else {
                self.release_next_aborting()
            },
            Stage::Publish => if ok {
                self.stage = Stage::ClipboardClose;
                self.bitmap_held = false;
                self.published = true;
                Cmd::CloseClipboard
            } else {
                self.release_next_aborting()
            },
            Stage::ClipboardClose => {
                self.clip_open = false;
                self.release_next_aborting()
            },
            Stage::Teardown => self.release_next_aborting(),
            Stage::Done => Cmd::Finished { captured: self.published },
        }
    }

    /// Move to teardown and perform its next release step.
    fn release_next_aborting(&mut self) -> (cmd: Cmd)
        ensures
            (*final(self), cmd) == spec_release_next(
                CaptureFlow { stage: Stage::Teardown, ..*old(self) },
            ),
    {
        self.stage = Stage::Teardown;
        if self.clip_open {
            self.clip_open = false;
            Cmd::CloseClipboard
        } else if self.selected {
            self.selected = false;
            Cmd::RestoreSurface
        } else if self.mem_held {
            self.mem_held = false;
            Cmd::FreeMemorySurface
        } else if self.screen_held {
            self.screen_held = false;
            Cmd::FreeScreenSurface
        } else if self.bitmap_held {
            self.bitmap_held = false;
            Cmd::FreeBitmap
        } else {
            self.stage = Stage::Done;
            Cmd::Finished { captured: self.published }
        }
    }

    /// Whether the flow has reported `Finished`.
    pub fn is_done(&self) -> (b: bool)
        ensures
            b == (self.stage == Stage::Done),
    {
        match self.stage {
            Stage::Done => true,
            _ => false,
        }
    }
}

/// From teardown on, the flow never clears nor fills the clipboard and
/// never leaves teardown except to finish, with the publish mark unchanged.
/// Together with `lemma_failure_aborts`, which puts every failed capture
/// into teardown unpublished, this says an aborted capture leaves the
/// clipboard's contents untouched.
pub proof fn lemma_abort_never_publishes(f: CaptureFlow, ok: bool)
    requires
        f.wf(),
        f.stage == Stage::Teardown || f.stage == Stage::Done,
    ensures
        spec_advance(f, ok).1 != Cmd::ClearClipboard,
        spec_advance(f, ok).1 != Cmd::PublishBitmap,
        spec_advance(f, ok).0.stage == Stage::Teardown || spec_advance(f, ok).0.stage
            == Stage::Done,
        spec_advance(f, ok).0.published == f.published,
{
}

/// A failed command in any stage before the publish leads to teardown with
/// the capture not published, so the eventual outcome is `captured: false`.
pub proof fn lemma_failure_aborts(f: CaptureFlow, ok: bool)
    requires
        f.wf(),
        !ok,
        f.stage != Stage::ClipboardClose,
        f.stage != Stage::Teardown,
        f.stage != Stage::Done,
    ensures
        !spec_advance(f, ok).0.published,
        spec_advance(f, ok).0.stage == Stage::Teardown || spec_advance(f, ok).0.stage
            == Stage::Done,
{
}

} // verus!
