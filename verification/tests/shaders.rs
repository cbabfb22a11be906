use erbium::utils::shaders::{
    fragment, join, load_shaders, vertex, FRAGMENT_SOURCE, VERTEX_SOURCE,
};

fn strings(parts: &[&str]) -> Vec<String> {
    parts.iter().map(|p| p.to_string()).collect()
}

#[test]
fn join_puts_the_separator_between_parts() {
    assert_eq!(join(&strings(&["a", "b", "c"]), "\n"), "a\nb\nc");
    assert_eq!(join(&strings(&["a", "b"]), ", "), "a, b");
}

#[test]
fn join_of_one_part_is_that_part() {
    assert_eq!(join(&strings(&["only"]), "\n"), "only");
}

#[test]
fn join_of_nothing_is_empty() {
    assert_eq!(join(&strings(&[]), "\n"), "");
}

#[test]
fn join_keeps_empty_parts() {
    assert_eq!(join(&strings(&["", "x", ""]), "-"), "-x-");
    assert_eq!(join(&strings(&["", ""]), "\n"), "\n");
}

#[test]
fn join_agrees_with_the_slice_method() {
    let parts = strings(&["void main() {", "}", ""]);
    assert_eq!(join(&parts, "\n"), parts.join("\n"));
}

#[test]
fn each_shader_has_one_piece() {
    assert_eq!(vertex(), vec![VERTEX_SOURCE.to_string()]);
    assert_eq!(fragment(), vec![FRAGMENT_SOURCE.to_string()]);
}

#[test]
fn load_shaders_returns_both_sources() {
    let shaders = load_shaders();
    assert_eq!(shaders.vertex_shader, VERTEX_SOURCE);
    assert_eq!(shaders.fragment_shader, FRAGMENT_SOURCE);
    assert_ne!(shaders.vertex_shader, shaders.fragment_shader);
}

#[test]
fn vertex_shader_names_what_the_renderer_binds() {
    let shaders = load_shaders();
    for name in ["in vec3 position", "uniform mat4 persp_matrix", "uniform mat4 view_matrix"] {
        assert!(shaders.vertex_shader.contains(name));
    }
    assert!(shaders.vertex_shader.contains("gl_Position"));
    assert!(shaders.fragment_shader.contains("void main()"));
}
