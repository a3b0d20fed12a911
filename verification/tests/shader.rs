use dirty::gfx::shader::PRECISION;
use dirty::gfx::shader::fragment_source;
use dirty::gfx::shader::vertex_source;
use dirty::gfx::shader::with_precision;

#[test]
fn the_user_code_takes_the_place_of_the_marker() {
    let template = "uniform mat4 u_proj;\n{{user}}\nvoid main() { gl_Position = pos(); }";
    let user = "vec4 pos() { return default_pos(); }";
    assert_eq!(
        vertex_source(template, user),
        "uniform mat4 u_proj;\nvec4 pos() { return default_pos(); }\nvoid main() { gl_Position = pos(); }"
    );
}

#[test]
fn every_marker_is_replaced() {
    assert_eq!(vertex_source("{{user}}+{{user}}", "x"), "x+x");
    assert_eq!(vertex_source("no marker", "x"), "no marker");
    assert_eq!(vertex_source("{user} {{ user }}", "x"), "{user} {{ user }}");
}

#[test]
fn a_fragment_source_begins_with_the_precision_where_asked() {
    assert_eq!(fragment_source("a {{user}} b", "c", false), "a c b");
    assert_eq!(fragment_source("a {{user}} b", "c", true), "precision mediump float;a c b");
    assert_eq!(PRECISION, "precision mediump float;");
}

#[test]
fn the_precision_line_goes_first() {
    assert_eq!(with_precision("void main() {}".to_string(), true), "precision mediump float;void main() {}");
    assert_eq!(with_precision("void main() {}".to_string(), false), "void main() {}");
}
