//! Custom shader filters: the capability contract for the script-owned
//! object backing a shader filter, the ordered shader arguments, and the
//! runtime-only [`ShaderFilter`] parameter struct.

use vstd::prelude::*;

use crate::descriptors::copy_vec;
use crate::types::BitmapHandle;
use crate::types::ShaderHandle;

verus! {

/// The capability contract a script-owned object must satisfy to back a
/// shader filter: it can produce an independently owned copy of itself and
/// it names its concrete scripting type by a tag, so the scripting layer
/// can later narrow the object back to that type. In this ownership model
/// a copy is independent by construction, so no collector tracing is
/// required of implementors.
pub trait ShaderObject: Sized {
    /// The tag of the object's concrete scripting type.
    spec fn type_tag_spec(&self) -> u64;

    /// The object's representational content.
    spec fn content(&self) -> Seq<u32>;

    /// Produces a new, independently owned object with the same concrete
    /// type and equivalent representational content.
    fn clone_box(&self) -> (r: Box<Self>)
        ensures
            (*r).type_tag_spec() == self.type_tag_spec(),
            (*r).content() == self.content(),
    ;

    /// The tag of the object's concrete scripting type, for tag-dispatched
    /// narrowing.
    fn type_tag(&self) -> (t: u64)
        ensures
            t == self.type_tag_spec(),
    ;
}

/// Tag-dispatched narrowing of a shader object: yields the object exactly
/// when the requested tag is the tag of its originating concrete type, and
/// otherwise reports absence — never a fatal error — so the caller can try
/// another type or give up gracefully.
pub fn downcast_shader_object<S: ShaderObject>(object: &S, tag: u64) -> (r: Option<&S>)
    ensures
        object.type_tag_spec() == tag ==> r == Some(object),
        object.type_tag_spec() != tag ==> r is None,
{
    if object.type_tag() == tag {
        Some(object)
    } else {
        None
    }
}

/// A ready-made shader object: a concrete-type tag paired with the raw
/// words of the script object's state. Hosts with richer script objects
/// implement [`ShaderObject`] on their own types instead.
#[derive(Debug)]
pub struct OpaqueShaderObject {
    pub type_tag: u64,
    pub words: Vec<u32>,
}

impl ShaderObject for OpaqueShaderObject {
    open spec fn type_tag_spec(&self) -> u64 {
        self.type_tag
    }

    open spec fn content(&self) -> Seq<u32> {
        self.words@
    }

    fn clone_box(&self) -> (r: Box<Self>) {
        Box::new(OpaqueShaderObject { type_tag: self.type_tag, words: copy_vec(&self.words) })
    }

    fn type_tag(&self) -> (t: u64) {
        self.type_tag
    }
}

/// One shader argument: binds a value to an indexed shader input. The
/// order of arguments in a filter is semantically significant.
#[derive(Debug, PartialEq, Eq)]
pub enum ShaderArgument {
    /// A plain value bound to input `index`, as its component words.
    ValueInput { index: u8, value: Vec<u32> },
    /// A texture bound to input `index`, sampled through `channel_index`.
    TextureInput { index: u8, channel_index: u8, texture: BitmapHandle },
}

/// Mathematical image of a [`ShaderArgument`].
#[verifier::ext_equal]
pub enum ShaderArgumentView {
    ValueInput { index: u8, value: Seq<u32> },
    TextureInput { index: u8, channel_index: u8, texture: BitmapHandle },
}

impl View for ShaderArgument {
    type V = ShaderArgumentView;

    open spec fn view(&self) -> ShaderArgumentView {
        match self {
            ShaderArgument::ValueInput { index, value } => ShaderArgumentView::ValueInput {
                index: *index,
                value: value@,
            },
            ShaderArgument::TextureInput {
                index,
                channel_index,
                texture,
            } => ShaderArgumentView::TextureInput {
                index: *index,
                channel_index: *channel_index,
                texture: *texture,
            },
        }
    }
}

impl Clone for ShaderArgument {
    /// Copies the binding: the same input, the same value or texture.
    fn clone(&self) -> (r: Self)
        ensures
            r@ == self@,
    {
        let r = match self {
            ShaderArgument::ValueInput { index, value } => ShaderArgument::ValueInput {
                index: *index,
                value: copy_vec(value),
            },
            ShaderArgument::TextureInput {
                index,
                channel_index,
                texture,
            } => ShaderArgument::TextureInput {
                index: *index,
                channel_index: *channel_index,
                texture: *texture,
            },
        };
        proof {
            assert(r@ =~= self@);
        }
        r
    }
}

/// Parameters of a custom-shader effect. Runtime-only: it composes a live
/// script object and a compiled-shader handle, so it has no authored
/// counterpart. The extension margins may be negative — the painted or
/// sampled area then shrinks relative to the object's natural bounds — and
/// are preserved exactly, never clamped here.
#[derive(Debug)]
pub struct ShaderFilter<S: ShaderObject> {
    pub bottom_extension: i32,
    pub left_extension: i32,
    pub right_extension: i32,
    pub top_extension: i32,
    /// The script-level object that `shader` and `shader_args` were
    /// extracted from, retained so the scripting layer can reuse the same
    /// object when it reads the filter back.
    pub shader_object: Box<S>,
    pub shader: ShaderHandle,
    pub shader_args: Vec<ShaderArgument>,
}

/// Mathematical image of a [`ShaderFilter`]: the margins, the handle, the
/// argument views in order, and the shader object's tag and content.
#[verifier::ext_equal]
pub struct ShaderFilterView {
    pub bottom_extension: i32,
    pub left_extension: i32,
    pub right_extension: i32,
    pub top_extension: i32,
    pub shader_object_tag: u64,
    pub shader_object_content: Seq<u32>,
    pub shader: ShaderHandle,
    pub shader_args: Seq<ShaderArgumentView>,
}

impl<S: ShaderObject> View for ShaderFilter<S> {
    type V = ShaderFilterView;

    open spec fn view(&self) -> ShaderFilterView {
        ShaderFilterView {
            bottom_extension: self.bottom_extension,
            left_extension: self.left_extension,
            right_extension: self.right_extension,
            top_extension: self.top_extension,
            shader_object_tag: (*self.shader_object).type_tag_spec(),
            shader_object_content: (*self.shader_object).content(),
            shader: self.shader,
            shader_args: self.shader_args@.map_values(|a: ShaderArgument| a@),
        }
    }
}

/// Reproduces a shader argument list element by element, in order.
fn clone_args(v: &Vec<ShaderArgument>) -> (r: Vec<ShaderArgument>)
    ensures
        r@.map_values(|a: ShaderArgument| a@) == v@.map_values(|a: ShaderArgument| a@),
{
    let mut r: Vec<ShaderArgument> = Vec::new();
    let mut i: usize = 0;
    while i < v.len()
        invariant
            i <= v.len(),
            r.len() == i,
            forall|j: int| 0 <= j < i ==> r@[j]@ == v@[j]@,
        decreases v.len() - i,
    {
        r.push(v[i].clone());
        i = i + 1;
    }
    proof {
        assert(r@.map_values(|a: ShaderArgument| a@) =~= v@.map_values(
            |a: ShaderArgument| a@,
        ));
    }
    r
}

impl<S: ShaderObject> Clone for ShaderFilter<S> {
    /// Copies the filter. The margins and the shader handle are copied
    /// exactly; the argument list is reproduced element by element in the
    /// same order; and the script object is copied through its own clone
    /// capability, so the copy is independently owned, narrows to the same
    /// concrete type, and has equivalent content.
    fn clone(&self) -> (r: Self)
        ensures
            r@ == self@,
            r@.shader_object_tag == self@.shader_object_tag,
            r@.shader_args == self@.shader_args,
    {
        let r = ShaderFilter {
            bottom_extension: self.bottom_extension,
            left_extension: self.left_extension,
            right_extension: self.right_extension,
            top_extension: self.top_extension,
            shader_object: (*self.shader_object).clone_box(),
            shader: self.shader,
            shader_args: clone_args(&self.shader_args),
        };
        proof {
            assert(r@ =~= self@);
        }
        r
    }
}

} // verus!
