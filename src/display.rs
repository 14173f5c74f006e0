use vstd::prelude::*;

use imgui::TextureId;

use crate::scene::Config;

verus! {

#[verifier::external_type_specification]
#[verifier::external_body]
pub struct ExTextureId(imgui::TextureId);

/// Relies on imgui's `TextureId::new`, which wraps the number it is given;
/// used to name the texture that is not yet uploaded.
pub assume_specification[ imgui::TextureId::new ](id: usize) -> imgui::TextureId;

/// What an image holds: the texture it is shown through, its RGBA bytes
/// and its size in pixels.
pub struct ImageState {
    pub texture: TextureId,
    pub pixels: Seq<u8>,
    pub width: usize,
    pub height: usize,
}

/// An RGBA image shown in the interface through a texture.
#[derive(Debug)]
pub struct ImguiImage {
    texture_id: TextureId,
    pixels: Box<Vec<u8>>,
    image_width: usize,
    image_height: usize,
}

impl View for ImguiImage {
    type V = ImageState;

    closed spec fn view(&self) -> ImageState {
        ImageState {
            texture: self.texture_id,
            pixels: self.pixels@,
            width: self.image_width,
            height: self.image_height,
        }
    }
}

impl ImguiImage {
    /// A black one-pixel image whose texture is not uploaded yet.
    pub fn new() -> (r: Self)
        ensures
            r@.width == 1,
            r@.height == 1,
            r@.pixels == seq![0u8, 0u8, 0u8, 0u8],
    {
        let texture_id = TextureId::new(0);
        let mut data: Vec<u8> = Vec::new();
        data.push(0);
        data.push(0);
        data.push(0);
        data.push(0);
        assert(data@ =~= seq![0u8, 0u8, 0u8, 0u8]);
        ImguiImage { texture_id, pixels: Box::new(data), image_width: 1, image_height: 1 }
    }

    /// Records a new size; the bytes stay until new ones are set.
    pub fn resize(&mut self, width: usize, height: usize)
        ensures
            final(self)@ == (ImageState { width, height, ..old(self)@ }),
    {
        if self.image_width != width || self.image_height != height {
            self.image_width = width;
            self.image_height = height;
        }
    }

    pub fn texture_id(&self) -> (r: TextureId)
        ensures
            r == self@.texture,
    {
        self.texture_id
    }

    /// Records the texture that the image is now shown through.
    pub fn set_texture_id(&mut self, texture_id: TextureId)
        ensures
            final(self)@ == (ImageState { texture: texture_id, ..old(self)@ }),
    {
        self.texture_id = texture_id;
    }

    pub fn width(&self) -> (r: usize)
        ensures
            r == self@.width,
    {
        self.image_width
    }

    pub fn height(&self) -> (r: usize)
        ensures
            r == self@.height,
    {
        self.image_height
    }

    pub fn set_pixels(&mut self, pixels: Box<Vec<u8>>)
        ensures
            final(self)@ == (ImageState { pixels: pixels@, ..old(self)@ }),
    {
        self.pixels = pixels;
    }

    pub fn pixels(&self) -> (r: &Vec<u8>)
        ensures
            r@ == self@.pixels,
    {
        &self.pixels
    }

    pub fn pixels_mut(&mut self) -> (r: &mut Box<Vec<u8>>)
        ensures
            (*r)@ == old(self)@.pixels,
            final(self)@ == (ImageState { pixels: (*final(r))@, ..old(self)@ }),
    {
        &mut self.pixels
    }
}

/// The displayed render: its image, the size it was rendered at, and
/// whether a new render is wanted.
pub struct ImguiRender {
    image: ImguiImage,
    image_width: usize,
    image_height: usize,
    need_update: bool,
}

impl ImguiRender {
    pub closed spec fn image_spec(&self) -> ImguiImage {
        self.image
    }

    pub closed spec fn width_spec(&self) -> usize {
        self.image_width
    }

    pub closed spec fn height_spec(&self) -> usize {
        self.image_height
    }

    pub closed spec fn need_update_spec(&self) -> bool {
        self.need_update
    }

    /// A one-pixel render that wants no update.
    pub fn new() -> (r: Self)
        ensures
            r.width_spec() == 1,
            r.height_spec() == 1,
            !r.need_update_spec(),
            r.image_spec()@.width == 1,
            r.image_spec()@.height == 1,
            r.image_spec()@.pixels == seq![0u8, 0u8, 0u8, 0u8],
    {
        ImguiRender { image: ImguiImage::new(), image_width: 1, image_height: 1, need_update: false }
    }

    pub fn texture_id(&self) -> (r: TextureId)
        ensures
            r == self.image_spec()@.texture,
    {
        self.image.texture_id()
    }

    pub fn set_need_update(&mut self, need_update: bool)
        ensures
            final(self).need_update_spec() == need_update,
            final(self).image_spec() == old(self).image_spec(),
            final(self).width_spec() == old(self).width_spec(),
            final(self).height_spec() == old(self).height_spec(),
    {
        self.need_update = need_update;
    }

    pub fn need_update(&self) -> (r: bool)
        ensures
            r == self.need_update_spec(),
    {
        self.need_update
    }

    pub fn image_mut(&mut self) -> (r: &mut ImguiImage)
        ensures
            *r == old(self).image_spec(),
            final(self).image_spec() == *final(r),
            final(self).need_update_spec() == old(self).need_update_spec(),
            final(self).width_spec() == old(self).width_spec(),
            final(self).height_spec() == old(self).height_spec(),
    {
        &mut self.image
    }

    pub fn image(&self) -> (r: &ImguiImage)
        ensures
            *r == self.image_spec(),
    {
        &self.image
    }

    /// Takes the size of `scene`, for the render and for its image.
    pub fn resize<S, C>(&mut self, scene: &Config<S, C>)
        ensures
            final(self).width_spec() == scene.width,
            final(self).height_spec() == scene.height,
            final(self).image_spec()@ == (ImageState {
                width: scene.width,
                height: scene.height,
                ..old(self).image_spec()@
            }),
            final(self).need_update_spec() == old(self).need_update_spec(),
    {
        if self.image_width != scene.width || self.image_height != scene.height {
            self.image_width = scene.width;
            self.image_height = scene.height;
        }
        self.image.resize(self.image_width, self.image_height);
    }
}

} // verus!
