use vstd::prelude::*;

use crate::event_loop::KeyEvent;

verus! {

/// The physical size of a window or of the surface drawn into it, in pixels.
#[derive(Clone, Copy, Debug, PartialEq, Eq, Structural)]
pub struct Size {
    pub width: u32,
    pub height: u32,
}

/// The part of a surface's configuration that this library decides: the pixel
/// format, of a type that the graphics backend defines, and the dimensions.
#[derive(Clone, Copy, Debug)]
pub struct SurfaceConfig<F> {
    pub format: F,
    pub width: u32,
    pub height: u32,
}

/// What the renderer keeps between frames: the window's last known size and
/// the configuration that the surface was last given.
#[derive(Clone, Copy, Debug)]
pub struct RenderState<F> {
    pub size: Size,
    pub config: SurfaceConfig<F>,
}

impl<F> RenderState<F> {
    /// The surface is configured for the window's size.
    pub open spec fn wf(&self) -> bool {
        self.config.width == self.size.width && self.config.height == self.size.height
    }
}

impl<F: Copy> RenderState<F> {
    /// The state right after start-up, for a window of `size` whose surface
    /// offers the pixel formats `formats`, in the order that it reports them.
    /// The first format offered is taken. There is none to take when the list
    /// is empty, and then the result is `None`.
    pub fn new(formats: &[F], size: Size) -> (r: Option<Self>)
        ensures
            r.is_some() <==> formats@.len() > 0,
            r matches Some(s) ==> {
                &&& s.wf()
                &&& s.size == size
                &&& s.config.format == formats@[0]
            },
    {
        if formats.len() == 0 {
            None
        } else {
            let format: F = formats[0];
            Some(RenderState {
                size,
                config: SurfaceConfig { format, width: size.width, height: size.height },
            })
        }
    }

    /// Records the window's new size and sets the surface's dimensions to it.
    /// The format is kept. A width or height of zero is taken as it is.
    pub fn resize(&mut self, new_size: Size)
        ensures
            final(self).size == new_size,
            final(self).config.width == new_size.width,
            final(self).config.height == new_size.height,
            final(self).config.format == old(self).config.format,
            final(self).wf(),
    {
        self.size = new_size;
        self.config.width = new_size.width;
        self.config.height = new_size.height;
    }

    /// Gives the renderer a key event to act on. No key changes what is drawn,
    /// so the event is always left unhandled (`false`).
    pub fn input(&mut self, _event: &KeyEvent) -> (handled: bool)
        ensures
            !handled,
            *final(self) == *old(self),
    {
        false
    }

    /// Advances what is drawn by one frame. The triangle does not move, so
    /// nothing changes.
    pub fn update(&mut self)
        ensures
            *final(self) == *old(self),
    {
    }
}

} // verus!
