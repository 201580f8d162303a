//! The presentation context: the part of the GPU connection that owns the
//! presentation queue (swap chain) and must keep it sized to the window.
//!
//! The queue is never patched incrementally: every client-area size change
//! rebuilds it in full from the stored connection, keeping the fixed color
//! format and present mode. A context whose stored dimensions do not match
//! the window is stale and cannot yield a frame until it is rebuilt.

use vstd::prelude::*;

use crate::geom::Extent;

verus! {

/// The color format of every presentable image. Fixed for the life of the
/// process: the queue is always rebuilt with the same format.
#[derive(Clone, Copy, Debug, PartialEq, Eq, Structural)]
pub enum TextureFormat {
    Bgra8Unorm,
}

/// How presentation paces frames. Fixed to a vsync-style mode: frames wait
/// for the display's refresh.
#[derive(Clone, Copy, Debug, PartialEq, Eq, Structural)]
pub enum PresentMode {
    Fifo,
}

/// The parameters a presentation queue is built from. Two queues built from
/// equal configurations are functionally equivalent.
#[derive(Clone, Copy, Debug, PartialEq, Eq, Structural)]
pub struct QueueConfig {
    pub format: TextureFormat,
    pub width: u32,
    pub height: u32,
    pub present_mode: PresentMode,
}

/// The configuration an initial queue gets for a window of extent `window`.
pub open spec fn initial_config(window: Extent) -> QueueConfig {
    QueueConfig {
        format: TextureFormat::Bgra8Unorm,
        width: window.width,
        height: window.height,
        present_mode: PresentMode::Fifo,
    }
}

/// The configuration after one full rebuild for a new client-area extent:
/// dimensions replaced, format and present mode kept.
pub open spec fn rebuilt_config(c: QueueConfig, new_size: Extent) -> QueueConfig {
    QueueConfig {
        width: new_size.width,
        height: new_size.height,
        ..c
    }
}

/// The configuration after a whole sequence of resize events, applied in
/// order.
pub open spec fn config_after_resizes(c: QueueConfig, events: Seq<Extent>) -> QueueConfig
    decreases events.len(),
{
    if events.len() == 0 {
        c
    } else {
        config_after_resizes(rebuilt_config(c, events.first()), events.drop_first())
    }
}

/// A queue can yield a presentable image exactly when its dimensions match
/// the window's current client area; otherwise it is stale.
pub open spec fn can_acquire(c: QueueConfig, window: Extent) -> bool {
    c.width == window.width && c.height == window.height
}

/// A transient handle to one presentable image. It is acquired, written to
/// during one render pass, and consumed by that pass: ownership keeps it
/// from being presented twice or retained across iterations.
#[derive(Clone, Copy, Debug, PartialEq, Eq, Structural)]
pub struct Frame {
    pub width: u32,
    pub height: u32,
}

/// Why a frame could not be acquired.
#[derive(Clone, Copy, Debug, PartialEq, Eq, Structural)]
pub enum PresentError {
    /// The wait for a presentable image timed out; the common cause is a
    /// queue left stale after a resize. The driver treats this as fatal.
    AcquireTimeout,
}

/// The presentation side of the GPU connection. The connection and surface
/// handles themselves live outside the library; this models the state that
/// decides when the queue must be rebuilt and what it is rebuilt to.
#[derive(Clone, Copy, Debug, PartialEq, Eq, Structural)]
pub struct PresentationContext {
    pub config: QueueConfig,
}

impl PresentationContext {
    /// Create the initial queue, sized to the window's current client area,
    /// with the fixed format and present mode. Selecting the GPU connection
    /// itself can fail fatally; that failure aborts before a context exists,
    /// so a constructed context always holds a live connection.
    pub fn initialize(window: Extent) -> (ctx: PresentationContext)
        ensures
            ctx.config == initial_config(window),
    {
        PresentationContext {
            config: QueueConfig {
                format: TextureFormat::Bgra8Unorm,
                width: window.width,
                height: window.height,
                present_mode: PresentMode::Fifo,
            },
        }
    }

    /// Rebuild the queue in full for a new client-area size. Must run on
    /// every reported size change, display-scale changes included. The old
    /// queue is discarded; format and present mode are kept.
    pub fn resize(&mut self, new_size: Extent)
        ensures
            final(self).config == rebuilt_config(old(self).config, new_size),
    {
        self.config.width = new_size.width;
        self.config.height = new_size.height;
    }

    /// Wait for the next presentable image. Succeeds exactly when the queue
    /// matches the window's current client area; a stale queue times out,
    /// which the driver treats as fatal.
    pub fn acquire_frame(&self, window: Extent) -> (r: Result<Frame, PresentError>)
        ensures
            can_acquire(self.config, window) ==> r == Ok::<Frame, PresentError>(Frame {
                width: self.config.width,
                height: self.config.height,
            }),
            !can_acquire(self.config, window) ==> r == Err::<Frame, PresentError>(
                PresentError::AcquireTimeout,
            ),
    {
        if self.config.width == window.width && self.config.height == window.height {
            Ok(Frame { width: self.config.width, height: self.config.height })
        } else {
            Err(PresentError::AcquireTimeout)
        }
    }
}

/// After any sequence of resize events, the stored dimensions equal the most
/// recently reported client-area size, the format and present mode are
/// untouched, and a queue rebuilt with those dimensions can yield a frame
/// for that client area.
pub proof fn lemma_resizes_track_last_event(c: QueueConfig, events: Seq<Extent>)
    requires
        events.len() > 0,
    ensures
        config_after_resizes(c, events).width == events.last().width,
        config_after_resizes(c, events).height == events.last().height,
        config_after_resizes(c, events).format == c.format,
        config_after_resizes(c, events).present_mode == c.present_mode,
        can_acquire(config_after_resizes(c, events), events.last()),
    decreases events.len(),
{
    if events.len() == 1 {
        assert(events.last() == events.first());
        assert(config_after_resizes(rebuilt_config(c, events.first()), events.drop_first())
            == rebuilt_config(c, events.first()));
    } else {
        lemma_resizes_track_last_event(rebuilt_config(c, events.first()), events.drop_first());
        assert(events.drop_first().last() == events.last());
    }
}

/// Resizing is idempotent: a second rebuild with the same dimensions yields
/// a queue functionally equivalent (same format, dimensions, present mode)
/// to the one the first rebuild produced.
pub proof fn lemma_resize_idempotent(c: QueueConfig, new_size: Extent)
    ensures
        rebuilt_config(rebuilt_config(c, new_size), new_size) == rebuilt_config(c, new_size),
{
}

} // verus!
