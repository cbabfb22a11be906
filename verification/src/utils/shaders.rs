//! The GLSL sources of the program that draws the scene.

use vstd::prelude::*;
use vstd::string::StringExecFns;

verus! {

/// The sources of one GPU program.
pub struct Shaders {
    pub vertex_shader: String,
    pub fragment_shader: String,
}

/// The vertex stage: takes the attribute `position` through the view and the
/// projection matrix, given as the uniforms `view_matrix` and `persp_matrix`.
pub const VERTEX_SOURCE: &'static str =
    "#version 140\n\nin vec3 position;\n\nuniform mat4 persp_matrix;\nuniform mat4 view_matrix;\n\nvoid main() {\n    gl_Position = persp_matrix * view_matrix * vec4(position, 1);\n}\n";

/// The fragment stage: paints every fragment white.
pub const FRAGMENT_SOURCE: &'static str =
    "#version 140\n\nout vec4 color;\n\nvoid main() {\n    color = vec4(1, 1, 1, 1);\n}\n";

/// `parts`, written one after the other with `separator` between each two.
pub open spec fn joined(parts: Seq<Seq<char>>, separator: Seq<char>) -> Seq<char>
    decreases parts.len(),
{
    if parts.len() == 0 {
        Seq::empty()
    } else if parts.len() == 1 {
        parts[0]
    } else {
        joined(parts.drop_last(), separator) + separator + parts.last()
    }
}

/// The texts of `parts`.
pub open spec fn texts(parts: Seq<String>) -> Seq<Seq<char>> {
    Seq::new(parts.len(), |i: int| parts[i]@)
}

/// Writes `parts` one after the other with `separator` between each two.
pub fn join(parts: &Vec<String>, separator: &str) -> (text: String)
    ensures
        text@ == joined(texts(parts@), separator@),
{
    let mut text = String::new();
    let mut i: usize = 0;
    while i < parts.len()
        invariant
            i <= parts@.len(),
            text@ == joined(texts(parts@).take(i as int), separator@),
        decreases parts@.len() - i,
    {
        if i > 0 {
            text.append(separator);
        }
        text.append(parts[i].as_str());
        proof {
            let all = texts(parts@);
            assert(all.take(i + 1).drop_last() =~= all.take(i as int));
            assert(all.take(i + 1).last() == parts@[i as int]@);
            if i == 0 {
                assert(all.take(1)[0] == parts@[0]@);
                assert(text@ =~= parts@[0]@);
            }
        }
        i += 1;
    }
    proof {
        assert(texts(parts@).take(i as int) =~= texts(parts@));
    }
    text
}

/// The pieces of the vertex shader, in order.
pub fn vertex() -> (parts: Vec<String>)
    ensures
        texts(parts@) == seq![VERTEX_SOURCE@],
{
    let mut parts: Vec<String> = Vec::new();
    parts.push(String::from_str(VERTEX_SOURCE));
    proof {
        assert(texts(parts@) =~= seq![VERTEX_SOURCE@]);
    }
    parts
}

/// The pieces of the fragment shader, in order.
pub fn fragment() -> (parts: Vec<String>)
    ensures
        texts(parts@) == seq![FRAGMENT_SOURCE@],
{
    let mut parts: Vec<String> = Vec::new();
    parts.push(String::from_str(FRAGMENT_SOURCE));
    proof {
        assert(texts(parts@) =~= seq![FRAGMENT_SOURCE@]);
    }
    parts
}

/// Both shaders, each with its pieces joined by line breaks.
pub fn load_shaders() -> (shaders: Shaders)
    ensures
        shaders.vertex_shader@ == VERTEX_SOURCE@,
        shaders.fragment_shader@ == FRAGMENT_SOURCE@,
{
    Shaders { vertex_shader: join(&vertex(), "\n"), fragment_shader: join(&fragment(), "\n") }
}

} // verus!
