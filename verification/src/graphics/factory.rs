//! The resource factory: hands out texture names and records what the backend
//! has to create.

use vstd::prelude::*;
use vstd::slice::slice_to_vec;
use crate::error::{GameError, GameResult};
use crate::graphics::types::{AaMode, SamplerId, SamplerInfo, TextureId};

verus! {

/// A GPU object that the backend still has to create.
#[derive(Debug)]
pub enum ResourceRequest {
    /// An immutable texture filled with the given bytes, four per texel.
    Texture { id: TextureId, width: u16, height: u16, pixels: Vec<u8> },
    /// A texture that can be rendered into and sampled from.
    RenderTexture { id: TextureId, width: u16, height: u16, aa: AaMode, format: gfx::format::Format },
    /// A sampler with the given descriptor.
    Sampler { sampler: SamplerId, info: SamplerInfo },
}

/// A resource request with its pixel data as a sequence of bytes.
pub enum ResourceRequestView {
    Texture { id: TextureId, width: u16, height: u16, pixels: Seq<u8> },
    RenderTexture { id: TextureId, width: u16, height: u16, aa: AaMode, format: gfx::format::Format },
    Sampler { sampler: SamplerId, info: SamplerInfo },
}

impl DeepView for ResourceRequest {
    type V = ResourceRequestView;

    open spec fn deep_view(&self) -> ResourceRequestView {
        match *self {
            ResourceRequest::Texture { id, width, height, pixels } => ResourceRequestView::Texture {
                id,
                width,
                height,
                pixels: pixels@,
            },
            ResourceRequest::RenderTexture {
                id,
                width,
                height,
                aa,
                format,
            } => ResourceRequestView::RenderTexture { id, width, height, aa, format },
            ResourceRequest::Sampler { sampler, info } => ResourceRequestView::Sampler { sampler, info },
        }
    }
}

/// What a factory stands for: the next free texture name and the requests
/// recorded since the backend last collected them.
pub struct FactoryState {
    pub next_texture: u64,
    pub requests: Seq<ResourceRequestView>,
}

/// Hands out texture names and records resource requests.
#[derive(Debug)]
pub struct Factory {
    next_texture: u64,
    requests: Vec<ResourceRequest>,
}

/// The description of the error returned when no texture name is left.
pub open spec fn out_of_textures_text() -> Seq<char> {
    "Could not create texture: no texture name is left"@
}

impl View for Factory {
    type V = FactoryState;

    closed spec fn view(&self) -> FactoryState {
        FactoryState { next_texture: self.next_texture, requests: self.requests.deep_view() }
    }
}

impl Factory {
    /// A factory that has handed out nothing.
    pub fn new() -> (f: Factory)
        ensures
            f@ == (FactoryState { next_texture: 0, requests: Seq::empty() }),
    {
        let f = Factory { next_texture: 0, requests: Vec::new() };
        assert(f.requests.deep_view() =~= Seq::empty());
        f
    }

    fn next_name(&mut self) -> (r: GameResult<TextureId>)
        ensures
            final(self).requests == old(self).requests,
            match r {
                Ok(id) => old(self).next_texture < u64::MAX && id == TextureId(
                    old(self).next_texture,
                ) && final(self).next_texture == old(self).next_texture + 1,
                Err(GameError::RenderError(msg)) => old(self).next_texture == u64::MAX
                    && final(self).next_texture == old(self).next_texture && msg@
                    == out_of_textures_text(),
                Err(_) => false,
            },
    {
        if self.next_texture == u64::MAX {
            return Err(
                GameError::RenderError("Could not create texture: no texture name is left".to_owned()),
            );
        }
        let id = TextureId(self.next_texture);
        self.next_texture = self.next_texture + 1;
        Ok(id)
    }

    /// Requests an immutable texture of the given size, filled with a copy of
    /// `rgba`. Fails only when every texture name has been used.
    pub fn create_texture(&mut self, width: u16, height: u16, rgba: &[u8]) -> (r: GameResult<
        TextureId,
    >)
        ensures
            match r {
                Ok(id) => old(self)@.next_texture < u64::MAX && id == TextureId(
                    old(self)@.next_texture,
                ) && final(self)@ == (FactoryState {
                    next_texture: (old(self)@.next_texture + 1) as u64,
                    requests: old(self)@.requests.push(
                        ResourceRequestView::Texture { id, width, height, pixels: rgba@ },
                    ),
                }),
                Err(GameError::RenderError(msg)) => old(self)@.next_texture == u64::MAX && final(self)@ == old(self)@ && msg@ == out_of_textures_text(),
                Err(_) => false,
            },
    {
        let id = self.next_name()?;
        let pixels = slice_to_vec(rgba);
        let request = ResourceRequest::Texture { id, width, height, pixels };
        self.requests.push(request);
        assert(self.requests.deep_view() =~= old(self).requests.deep_view().push(request.deep_view()));
        Ok(id)
    }

    /// Requests a texture of the given size that can be rendered into. Fails
    /// only when every texture name has been used.
    pub fn create_render_texture(
        &mut self,
        width: u16,
        height: u16,
        aa: AaMode,
        format: gfx::format::Format,
    ) -> (r: GameResult<TextureId>)
        ensures
            match r {
                Ok(id) => old(self)@.next_texture < u64::MAX && id == TextureId(
                    old(self)@.next_texture,
                ) && final(self)@ == (FactoryState {
                    next_texture: (old(self)@.next_texture + 1) as u64,
                    requests: old(self)@.requests.push(
                        ResourceRequestView::RenderTexture { id, width, height, aa, format },
                    ),
                }),
                Err(GameError::RenderError(msg)) => old(self)@.next_texture == u64::MAX && final(self)@ == old(self)@ && msg@ == out_of_textures_text(),
                Err(_) => false,
            },
    {
        let id = self.next_name()?;
        let request = ResourceRequest::RenderTexture { id, width, height, aa, format };
        self.requests.push(request);
        assert(self.requests.deep_view() =~= old(self).requests.deep_view().push(request.deep_view()));
        Ok(id)
    }

    /// Requests a sampler with the given descriptor under the given name.
    pub fn create_sampler(&mut self, id: SamplerId, info: SamplerInfo)
        ensures
            final(self)@ == (FactoryState {
                requests: old(self)@.requests.push(ResourceRequestView::Sampler { sampler: id, info }),
                ..old(self)@
            }),
    {
        let request = ResourceRequest::Sampler { sampler: id, info };
        self.requests.push(request);
        assert(self.requests.deep_view() =~= old(self).requests.deep_view().push(request.deep_view()));
    }

    /// Hands the recorded requests to the caller, oldest first, and forgets them.
    pub fn take_requests(&mut self) -> (taken: Vec<ResourceRequest>)
        ensures
            taken.deep_view() == old(self)@.requests,
            final(self)@ == (FactoryState { requests: Seq::empty(), ..old(self)@ }),
    {
        let mut taken: Vec<ResourceRequest> = Vec::new();
        std::mem::swap(&mut taken, &mut self.requests);
        assert(self.requests.deep_view() =~= Seq::empty());
        taken
    }
}

} // verus!
