//! Shader sources: a fixed template with the user's code spliced in.
//!
//! A vertex template declares the varyings `v_pos`, `v_normal`, `v_uv` and
//! `v_color`, the uniforms `u_model`, `u_view` and `u_proj`, and the helper
//! `default_pos()`; a fragment template the uniforms `u_tex` and `u_color`
//! and the helper `default_color()`. The user's code stands where the
//! template holds the marker.

use vstd::prelude::*;

verus! {

/// What a fragment source begins with where the target wants a precision.
pub const PRECISION: &'static str = "precision mediump float;";

/// `text` with every match of `from` replaced by `to`, as `str::replace` of
/// the standard library returns it.
pub uninterp spec fn replaced(text: Seq<char>, from: Seq<char>, to: Seq<char>) -> Seq<char>;

/// `str::replace` of the standard library. The contract names the result and
/// claims nothing else of it.
#[verifier::external_body]
fn replace(text: &str, from: &str, to: &str) -> (r: String)
    ensures
        r@ == replaced(text@, from@, to@),
{
    text.replace(from, to)
}

/// The source of a vertex shader: `template` with `user` in place of every
/// marker `{{user}}`.
pub fn vertex_source(template: &str, user: &str) -> (r: String)
    ensures
        r@ == replaced(template@, "{{user}}"@, user@),
{
    replace(template, "{{user}}", user)
}

/// `body` as it is, or after the precision line where `precision` is set.
pub fn with_precision(body: String, precision: bool) -> (r: String)
    ensures
        r@ == (if precision {
            PRECISION@ + body@
        } else {
            body@
        }),
{
    if precision {
        String::from_str(PRECISION).concat(body.as_str())
    } else {
        body
    }
}

/// The source of a fragment shader: `template` with `user` in place of every
/// marker `{{user}}`, after the precision line where `precision` is set.
pub fn fragment_source(template: &str, user: &str, precision: bool) -> (r: String)
    ensures
        r@ == (if precision {
            PRECISION@ + replaced(template@, "{{user}}"@, user@)
        } else {
            replaced(template@, "{{user}}"@, user@)
        }),
{
    with_precision(replace(template, "{{user}}", user), precision)
}

} // verus!
