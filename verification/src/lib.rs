//! A CPU-side RGBA framebuffer and the bookkeeping that decides, frame by
//! frame, what has to be sent to the GPU to show it in a window.
//!
//! The caller draws into a [`FrameBuffer`]. [`Pixely`] remembers which parts of
//! the GPU's state are stale, and [`Pixely::render`] turns that into a
//! [`Frame`]: the list of uploads that must precede the draw call. Whoever owns
//! the GPU handles carries the frame out.

pub mod framebuffer;
pub mod quad;

use crate::framebuffer::FrameBuffer;
use crate::framebuffer::Pixel;
use crate::quad::aspect_fit;
use crate::quad::lemma_product_fits;
use crate::quad::QuadSize;
use crate::quad::Ratio;
use vstd::prelude::*;

verus! {

/// The size of the framebuffer to start with.
pub struct FrameBufferDesc {
    pub width: usize,
    pub height: usize,
}

/// The window to draw into and its size.
pub struct WindowDesc<'a, W> {
    pub window: &'a W,
    pub width: usize,
    pub height: usize,
}

/// What a [`Pixely`] is made from.
pub struct PixelyDesc<'a, W> {
    pub window: WindowDesc<'a, W>,
    pub buffer: FrameBufferDesc,
}

/// The size of a texture or of the surface, as the GPU counts it.
#[derive(Copy, Clone, Debug, PartialEq, Eq, Structural)]
pub struct Extent {
    pub width: u32,
    pub height: u32,
}

/// How the framebuffer's bytes are laid out for the copy into the texture.
#[derive(Copy, Clone, Debug, PartialEq, Eq, Structural)]
pub struct Upload {
    pub bytes_per_row: u32,
    pub rows_per_image: u32,
    pub size: Extent,
}

/// What one frame asks of the GPU before the quad is drawn and presented.
/// The steps are carried out in the order of the fields; `None` skips a step.
#[derive(Copy, Clone, Debug, PartialEq, Eq, Structural)]
pub struct Frame {
    /// Allocate a texture of this size and bind it together with the sampler.
    pub texture: Option<Extent>,
    /// Copy the framebuffer's bytes into the texture.
    pub upload: Option<Upload>,
    /// Configure the surface to this size.
    pub surface: Option<Extent>,
    /// Rewrite the quad's four corners to these half-extents.
    pub quad: Option<QuadSize>,
}

/// The low 32 bits of `n`: what the GPU's 32-bit sizes keep of a larger number.
pub open spec fn low32(n: int) -> u32 {
    (n % 0x1_0000_0000) as u32
}

/// A framebuffer together with what is known of the GPU's copy of it.
pub struct Pixely {
    framebuffer: FrameBuffer,
    framebuffer_changed: bool,
    config: Extent,
    surface_changed: bool,
    has_texture: bool,
    vertices_changed: bool,
}

/// The state of a [`Pixely`].
pub struct PixelyView {
    pub framebuffer: FrameBuffer,
    /// The texture's content is older than the framebuffer's.
    pub framebuffer_changed: bool,
    /// The size that the surface is to have.
    pub surface: Extent,
    /// The surface is not yet configured to that size.
    pub surface_changed: bool,
    /// A texture and its binding exist. They come and go together.
    pub has_texture: bool,
    /// The quad's corners are older than the framebuffer's or the surface's size.
    pub vertices_changed: bool,
}

impl View for Pixely {
    type V = PixelyView;

    closed spec fn view(&self) -> PixelyView {
        PixelyView {
            framebuffer: self.framebuffer,
            framebuffer_changed: self.framebuffer_changed,
            surface: self.config,
            surface_changed: self.surface_changed,
            has_texture: self.has_texture,
            vertices_changed: self.vertices_changed,
        }
    }
}

impl PixelyView {
    /// A surface without area: nothing can be drawn on it.
    pub open spec fn surface_is_empty(self) -> bool {
        self.surface.width == 0 || self.surface.height == 0
    }

    /// The size of the texture that mirrors the framebuffer.
    pub open spec fn texture_extent(self) -> Extent {
        Extent {
            width: low32(self.framebuffer.spec_width() as int),
            height: low32(self.framebuffer.spec_height() as int),
        }
    }

    /// The layout of the framebuffer's bytes: rows of four bytes per pixel,
    /// one after the other.
    pub open spec fn upload(self) -> Upload {
        Upload {
            bytes_per_row: low32(4 * self.framebuffer.spec_width()),
            rows_per_image: low32(self.framebuffer.spec_height() as int),
            size: self.texture_extent(),
        }
    }

    /// The quad that shows the framebuffer on the surface.
    pub open spec fn quad(self) -> QuadSize {
        aspect_fit(
            self.framebuffer.spec_width(),
            self.framebuffer.spec_height(),
            self.surface.width,
            self.surface.height,
        )
    }

    /// What the next frame has to do. On an empty surface there is no frame.
    /// Otherwise a missing texture is allocated, and then filled whether or not
    /// the framebuffer has changed; each other step is taken only if its part
    /// is stale.
    pub open spec fn frame(self) -> Option<Frame> {
        if self.surface_is_empty() {
            None
        } else {
            Some(
                Frame {
                    texture: if self.has_texture {
                        None
                    } else {
                        Some(self.texture_extent())
                    },
                    upload: if !self.has_texture || self.framebuffer_changed {
                        Some(self.upload())
                    } else {
                        None
                    },
                    surface: if self.surface_changed {
                        Some(self.surface)
                    } else {
                        None
                    },
                    quad: if self.vertices_changed {
                        Some(self.quad())
                    } else {
                        None
                    },
                },
            )
        }
    }

    /// The state once that frame is done: nothing is stale. An empty surface
    /// leaves the state as it is.
    pub open spec fn rendered(self) -> PixelyView {
        if self.surface_is_empty() {
            self
        } else {
            PixelyView {
                framebuffer_changed: false,
                surface_changed: false,
                has_texture: true,
                vertices_changed: false,
                ..self
            }
        }
    }

    /// The state once the framebuffer has been handed out for drawing.
    pub open spec fn drawn_into(self, framebuffer: FrameBuffer) -> PixelyView {
        PixelyView { framebuffer, framebuffer_changed: true, ..self }
    }

    /// The state once the framebuffer has been replaced by one of another size:
    /// the texture is gone, content and quad are stale.
    pub open spec fn with_framebuffer(self, framebuffer: FrameBuffer) -> PixelyView {
        PixelyView {
            framebuffer,
            framebuffer_changed: true,
            has_texture: false,
            vertices_changed: true,
            ..self
        }
    }

    /// The state once the window has taken a new size: surface and quad are
    /// stale, the texture is untouched.
    pub open spec fn with_surface(self, width: usize, height: usize) -> PixelyView {
        PixelyView {
            surface: Extent { width: low32(width as int), height: low32(height as int) },
            surface_changed: true,
            vertices_changed: true,
            ..self
        }
    }
}

/// Keeps the low 32 bits of a size.
fn truncate(n: usize) -> (low: u32)
    ensures
        low == low32(n as int),
{
    (n as u64 % 0x1_0000_0000) as u32
}

impl Pixely {
    /// A black framebuffer of the described size, for a window of the
    /// described size. Nothing is on the GPU yet, so everything is stale.
    pub fn new<W>(desc: PixelyDesc<'_, W>) -> (pixely: Pixely)
        requires
            desc.buffer.width * desc.buffer.height <= usize::MAX,
        ensures
            pixely@.framebuffer.spec_width() == desc.buffer.width,
            pixely@.framebuffer.spec_height() == desc.buffer.height,
            pixely@.framebuffer@ == Seq::new(
                (desc.buffer.width * desc.buffer.height) as nat,
                |i: int| Pixel::spec_black(),
            ),
            pixely@.surface == (Extent {
                width: low32(desc.window.width as int),
                height: low32(desc.window.height as int),
            }),
            pixely@.framebuffer_changed,
            pixely@.surface_changed,
            pixely@.vertices_changed,
            !pixely@.has_texture,
    {
        Pixely {
            framebuffer: FrameBuffer::new(desc.buffer.width, desc.buffer.height),
            framebuffer_changed: true,
            config: Extent {
                width: truncate(desc.window.width),
                height: truncate(desc.window.height),
            },
            surface_changed: true,
            has_texture: false,
            vertices_changed: true,
        }
    }

    /// Notes that a texture and its binding now exist, and gives the size to
    /// allocate the texture with.
    fn recreate_texture(&mut self) -> (size: Extent)
        ensures
            size == old(self)@.texture_extent(),
            final(self)@ == (PixelyView { has_texture: true, ..old(self)@ }),
    {
        self.has_texture = true;
        Extent {
            width: truncate(self.framebuffer.width()),
            height: truncate(self.framebuffer.height()),
        }
    }

    /// Notes that the surface has its size, and gives that size.
    fn reconfigure_surface(&mut self) -> (size: Extent)
        ensures
            size == old(self)@.surface,
            final(self)@ == (PixelyView { surface_changed: false, ..old(self)@ }),
    {
        self.surface_changed = false;
        self.config
    }

    /// Notes that the texture holds the framebuffer's content, and gives the
    /// layout to copy it with.
    fn upload_texture(&mut self) -> (upload: Upload)
        requires
            old(self)@.has_texture,
        ensures
            upload == old(self)@.upload(),
            final(self)@ == (PixelyView { framebuffer_changed: false, ..old(self)@ }),
    {
        let width = self.framebuffer.width();
        let height = self.framebuffer.height();
        let row: u32 = ((width as u128 * 4) % 0x1_0000_0000) as u32;
        self.framebuffer_changed = false;
        Upload {
            bytes_per_row: row,
            rows_per_image: truncate(height),
            size: Extent { width: truncate(width), height: truncate(height) },
        }
    }

    /// Notes that the quad's corners are up to date, and gives the half-extents
    /// to compute them from.
    fn update_vertex_buffer(&mut self) -> (quad: QuadSize)
        ensures
            quad == old(self)@.quad(),
            final(self)@ == (PixelyView { vertices_changed: false, ..old(self)@ }),
    {
        let quad = self.get_quad_size();
        self.vertices_changed = false;
        quad
    }

    /// The half-extents of the quad that shows the framebuffer on the surface
    /// as large as it goes without distortion.
    pub fn get_quad_size(&self) -> (quad: QuadSize)
        ensures
            quad == self@.quad(),
    {
        let frame_width = self.framebuffer.width() as u128;
        let frame_height = self.framebuffer.height() as u128;
        let width = self.config.width as u128;
        let height = self.config.height as u128;
        proof {
            lemma_product_fits(self.config.width, self.framebuffer.spec_height());
            lemma_product_fits(self.config.height, self.framebuffer.spec_width());
        }
        let height_of_width: u128 = width * frame_height;
        let width_of_height: u128 = height * frame_width;
        if frame_width > 0 && height_of_width <= width_of_height {
            QuadSize {
                width: Ratio { numerator: 1, denominator: 1 },
                height: Ratio { numerator: height_of_width, denominator: width_of_height },
            }
        } else {
            QuadSize {
                width: Ratio { numerator: width_of_height, denominator: height_of_width },
                height: Ratio { numerator: 1, denominator: 1 },
            }
        }
    }

    /// The framebuffer, to read.
    pub fn buffer(&self) -> (buffer: &FrameBuffer)
        ensures
            *buffer == self@.framebuffer,
    {
        &self.framebuffer
    }

    /// The framebuffer, to draw into. Its content counts as changed from here
    /// on, whatever the caller does with it.
    pub fn buffer_mut(&mut self) -> (buffer: &mut FrameBuffer)
        ensures
            *buffer == old(self)@.framebuffer,
            final(self)@ == old(self)@.drawn_into(*final(buffer)),
    {
        self.framebuffer_changed = true;
        &mut self.framebuffer
    }

    /// Replaces the framebuffer by a black one of the given size.
    pub fn resize_framebuffer(&mut self, width: usize, height: usize)
        requires
            width * height <= usize::MAX,
        ensures
            final(self)@ == old(self)@.with_framebuffer(final(self)@.framebuffer),
            final(self)@.framebuffer.spec_width() == width,
            final(self)@.framebuffer.spec_height() == height,
            final(self)@.framebuffer@ == Seq::new(
                (width * height) as nat,
                |i: int| Pixel::spec_black(),
            ),
    {
        self.has_texture = false;
        self.vertices_changed = true;
        self.framebuffer_changed = true;
        self.framebuffer = FrameBuffer::new(width, height);
    }

    /// Takes note of the window's new size.
    pub fn resize_surface(&mut self, width: usize, height: usize)
        ensures
            final(self)@ == old(self)@.with_surface(width, height),
    {
        self.vertices_changed = true;
        self.surface_changed = true;
        self.config.width = truncate(width);
        self.config.height = truncate(height);
    }

    /// Decides what the next frame has to do, and counts it as done. `None`
    /// means that the surface is empty: nothing is to be drawn, and nothing
    /// has changed. After `Some(frame)`, the steps of `frame` are to be carried
    /// out in order, followed by one draw of the quad.
    pub fn render(&mut self) -> (frame: Option<Frame>)
        ensures
            frame == old(self)@.frame(),
            final(self)@ == old(self)@.rendered(),
    {
        if self.config.width == 0 || self.config.height == 0 {
            return None;
        }
        let texture_recreated = !self.has_texture;
        let texture = if texture_recreated {
            Some(self.recreate_texture())
        } else {
            None
        };
        let upload = if texture_recreated || self.framebuffer_changed {
            Some(self.upload_texture())
        } else {
            None
        };
        let surface = if self.surface_changed {
            Some(self.reconfigure_surface())
        } else {
            None
        };
        let quad = if self.vertices_changed {
            Some(self.update_vertex_buffer())
        } else {
            None
        };
        Some(Frame { texture, upload, surface, quad })
    }
}

/// On a surface without area a render asks nothing of the GPU and leaves
/// every flag as it was.
pub proof fn lemma_empty_surface_renders_nothing(state: PixelyView)
    requires
        state.surface_is_empty(),
    ensures
        state.frame() is None,
        state.rendered() == state,
{
}

/// Replacing the framebuffer drops the texture, so that the next frame on a
/// surface with an area allocates one of the new size, fills it and moves
/// the quad's corners.
pub proof fn lemma_new_framebuffer_needs_new_texture(state: PixelyView, framebuffer: FrameBuffer)
    ensures
        !state.with_framebuffer(framebuffer).has_texture,
        !state.surface_is_empty() ==> ({
            let next = state.with_framebuffer(framebuffer);
            &&& next.frame() is Some
            &&& next.frame()->0.texture == Some(next.texture_extent())
            &&& next.frame()->0.upload == Some(next.upload())
            &&& next.frame()->0.quad == Some(next.quad())
            &&& (next.frame()->0.surface is Some) == state.surface_changed
        }),
{
}

/// Resizing the surface leaves the texture, the framebuffer and the
/// staleness of its content alone: where a texture exists, the next frame
/// allocates none, and uploads only if the content was stale before. It
/// does configure the surface and move the quad's corners.
pub proof fn lemma_new_surface_keeps_texture(state: PixelyView, width: usize, height: usize)
    ensures
        state.with_surface(width, height).has_texture == state.has_texture,
        state.with_surface(width, height).framebuffer == state.framebuffer,
        state.with_surface(width, height).framebuffer_changed == state.framebuffer_changed,
        !state.with_surface(width, height).surface_is_empty() ==> ({
            let next = state.with_surface(width, height);
            &&& next.frame() is Some
            &&& (next.frame()->0.texture is None) == state.has_texture
            &&& (next.frame()->0.upload is None) == (state.has_texture && !state.framebuffer_changed)
            &&& next.frame()->0.surface == Some(next.surface)
            &&& next.frame()->0.quad == Some(next.quad())
        }),
{
}

/// Handing the framebuffer out for drawing makes the next frame upload it,
/// whatever was drawn, and neither drops the texture nor touches the surface
/// or the quad.
pub proof fn lemma_drawing_needs_upload(state: PixelyView, framebuffer: FrameBuffer)
    requires
        !state.surface_is_empty(),
    ensures
        ({
            let next = state.drawn_into(framebuffer);
            &&& next.frame() is Some
            &&& next.frame()->0.upload == Some(next.upload())
            &&& (next.frame()->0.texture is None) == state.has_texture
            &&& next.frame()->0.surface == state.frame()->0.surface
            &&& (next.frame()->0.quad is None) == !state.vertices_changed
        }),
{
}

/// A frame leaves nothing stale: the frame after it, with no change in
/// between, has no step to take before the draw.
pub proof fn lemma_rendered_is_up_to_date(state: PixelyView)
    requires
        !state.surface_is_empty(),
    ensures
        state.rendered().frame() == Some(
            Frame { texture: None, upload: None, surface: None, quad: None },
        ),
        state.rendered().rendered() == state.rendered(),
{
}

} // verus!
