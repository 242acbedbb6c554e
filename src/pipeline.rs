//! A value-based description of a raster pipeline: shader library, the two
//! entry points, and the ordered color-attachment formats.

use vstd::prelude::*;

verus! {

/// Pixel formats a color attachment can take.
#[derive(Clone, Copy, Debug, PartialEq, Eq)]
pub enum PixelFormat {
    BGRA8Unorm,
    BGRA8UnormSrgb,
    RGBA8Unorm,
    RGBA8UnormSrgb,
}

/// Why a pipeline could not be built.
#[derive(Debug, PartialEq, Eq)]
pub enum PipelineError {
    /// The shader library file is missing or does not compile.
    ShaderLoad,
    /// The library holds no function of this name.
    EntryPointNotFound(String),
}

/// What a builder has been told so far.
pub struct BuilderView {
    pub shader_lib: Seq<char>,
    pub vertex_shader: Seq<char>,
    pub fragment_shader: Seq<char>,
    pub attachments: Seq<PixelFormat>,
}

/// Collects a pipeline's configuration by successive calls; side-effect free
/// until `build`.
pub struct PipelineBuilder {
    shader_lib: String,
    vertex_shader: String,
    fragment_shader: String,
    attachments: Vec<PixelFormat>,
}

impl View for PipelineBuilder {
    type V = BuilderView;

    closed spec fn view(&self) -> BuilderView {
        BuilderView {
            shader_lib: self.shader_lib@,
            vertex_shader: self.vertex_shader@,
            fragment_shader: self.fragment_shader@,
            attachments: self.attachments@,
        }
    }
}

/// A color attachment: its binding slot and pixel format.
#[derive(Clone, Copy, Debug, PartialEq, Eq)]
pub struct ColorAttachment {
    pub slot: u64,
    pub format: PixelFormat,
}

/// The assembled pipeline description handed to the device.
#[derive(Debug)]
pub struct PipelineDescriptor {
    pub shader_lib: String,
    pub vertex_function: String,
    pub fragment_function: String,
    pub color_attachments: Vec<ColorAttachment>,
}

impl PipelineBuilder {
    /// A builder with empty names and no attachment.
    pub fn new() -> (b: PipelineBuilder)
        ensures
            b@.shader_lib.len() == 0,
            b@.vertex_shader.len() == 0,
            b@.fragment_shader.len() == 0,
            b@.attachments.len() == 0,
    {
        PipelineBuilder {
            shader_lib: String::new(),
            vertex_shader: String::new(),
            fragment_shader: String::new(),
            attachments: Vec::new(),
        }
    }

    /// Sets the path of the shader library.
    pub fn from_shader_lib(self, path: &str) -> (b: PipelineBuilder)
        ensures
            b@.shader_lib == path@,
            b@.vertex_shader == self@.vertex_shader,
            b@.fragment_shader == self@.fragment_shader,
            b@.attachments == self@.attachments,
    {
        let mut b = self;
        b.shader_lib = path.to_owned();
        b
    }

    /// Sets the name of the vertex entry point.
    pub fn with_vertex_function(self, function: &str) -> (b: PipelineBuilder)
        ensures
            b@.shader_lib == self@.shader_lib,
            b@.vertex_shader == function@,
            b@.fragment_shader == self@.fragment_shader,
            b@.attachments == self@.attachments,
    {
        let mut b = self;
        b.vertex_shader = function.to_owned();
        b
    }

    /// Sets the name of the fragment entry point.
    pub fn with_fragment_function(self, function: &str) -> (b: PipelineBuilder)
        ensures
            b@.shader_lib == self@.shader_lib,
            b@.vertex_shader == self@.vertex_shader,
            b@.fragment_shader == function@,
            b@.attachments == self@.attachments,
    {
        let mut b = self;
        b.fragment_shader = function.to_owned();
        b
    }

    /// Adds a color attachment after those already given; its slot is its
    /// position in that order.
    pub fn with_attachment(self, fmt: PixelFormat) -> (b: PipelineBuilder)
        ensures
            b@.shader_lib == self@.shader_lib,
            b@.vertex_shader == self@.vertex_shader,
            b@.fragment_shader == self@.fragment_shader,
            b@.attachments == self@.attachments.push(fmt),
    {
        let mut b = self;
        b.attachments.push(fmt);
        b
    }

    /// The pipeline description: the library and entry-point names as given,
    /// and color attachment `i` in slot `i` with the `i`-th format given.
    /// The builder is left as it was, so building again gives the same description.
    pub fn build(&self) -> (d: PipelineDescriptor)
        ensures
            d.shader_lib@ == self@.shader_lib,
            d.vertex_function@ == self@.vertex_shader,
            d.fragment_function@ == self@.fragment_shader,
            d.color_attachments@.len() == self@.attachments.len(),
            forall|i: int|
                0 <= i < d.color_attachments@.len() ==> #[trigger] d.color_attachments@[i] == (
                ColorAttachment { slot: i as u64, format: self@.attachments[i] }),
    {
        let mut color_attachments: Vec<ColorAttachment> = Vec::new();
        let mut i: usize = 0;
        while i < self.attachments.len()
            invariant
                i <= self.attachments@.len(),
                color_attachments@.len() == i,
                forall|j: int|
                    0 <= j < i ==> #[trigger] color_attachments@[j] == (ColorAttachment {
                        slot: j as u64,
                        format: self.attachments@[j],
                    }),
            decreases self.attachments@.len() - i,
        {
            color_attachments.push(ColorAttachment { slot: i as u64, format: self.attachments[i] });
            i = i + 1;
        }
        PipelineDescriptor {
            shader_lib: self.shader_lib.clone(),
            vertex_function: self.vertex_shader.clone(),
            fragment_function: self.fragment_shader.clone(),
            color_attachments,
        }
    }
}

/// Some name in `names` equals `name`.
pub open spec fn has_name(names: Seq<String>, name: Seq<char>) -> bool {
    exists|i: int| 0 <= i < names.len() && (#[trigger] names[i])@ == name
}

/// Whether `names` holds `name`.
pub fn contains_name(names: &Vec<String>, name: &String) -> (r: bool)
    ensures
        r == has_name(names@, name@),
{
    let mut i: usize = 0;
    while i < names.len()
        invariant
            i <= names@.len(),
            forall|j: int| 0 <= j < i ==> (#[trigger] names@[j])@ != name@,
        decreases names@.len() - i,
    {
        if names[i] == *name {
            return true;
        }
        i = i + 1;
    }
    false
}

impl PipelineDescriptor {
    /// Checks both entry points against the function names a compiled
    /// shader library exposes: the vertex one is looked up first, and the
    /// first missing name is the error.
    pub fn resolve_entry_points(&self, available: &Vec<String>) -> (r: Result<(), PipelineError>)
        ensures
            r is Ok <==> has_name(available@, self.vertex_function@) && has_name(
                available@,
                self.fragment_function@,
            ),
            !has_name(available@, self.vertex_function@) ==> (r matches Err(
                PipelineError::EntryPointNotFound(n),
            ) && n@ == self.vertex_function@),
            has_name(available@, self.vertex_function@) && !has_name(
                available@,
                self.fragment_function@,
            ) ==> (r matches Err(PipelineError::EntryPointNotFound(n)) && n@
                == self.fragment_function@),
    {
        if !contains_name(available, &self.vertex_function) {
            return Err(PipelineError::EntryPointNotFound(self.vertex_function.clone()));
        }
        if !contains_name(available, &self.fragment_function) {
            return Err(PipelineError::EntryPointNotFound(self.fragment_function.clone()));
        }
        Ok(())
    }
}

} // verus!
