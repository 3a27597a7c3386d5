//! The boundary to the outside collaborators: the minijinja engine and the
//! serde_json parser. Every item here is trusted; each wrapper makes one
//! outside call, and its contract states only what that call's source or
//! documentation shows.

use vstd::prelude::*;
use crate::policy::{AutoescapePolicy, UndefinedMode, should_escape};

verus! {

#[verifier::external_type_specification]
#[verifier::external_body]
pub struct ExEnvironment<'source>(minijinja::Environment<'source>);

#[verifier::external_type_specification]
#[verifier::external_body]
pub struct ExValue(minijinja::Value);

#[verifier::external_type_specification]
#[verifier::external_body]
pub struct ExError(minijinja::Error);

#[verifier::external_type_specification]
#[verifier::external_body]
pub struct ExTemplate<'env: 'source, 'source>(minijinja::Template<'env, 'source>);

/// What parsing a text as JSON yields: `None` when the text is well-formed
/// JSON, otherwise the parser's own description of the syntax error. The
/// parse reads its input alone, so this is a function of the text.
pub uninterp spec fn json_parse_error(s: Seq<char>) -> Option<Seq<char>>;

/// The parent of a path, as text: the path without its final component,
/// or `None` for a root or empty path. Purely syntactic on the path text.
pub uninterp spec fn parent_path(p: Seq<char>) -> Option<Seq<char>>;

/// What rendering a template source inline yields: the engine's text, or
/// its error chain as messages, primary first. With no loader configured
/// the engine reads neither clock, randomness nor filesystem, and its
/// context maps keep insertion order, so the verdict is a function of the
/// source, the context text, the mode and the policy alone.
pub uninterp spec fn inline_render_of(
    source: Seq<char>,
    json: Seq<char>,
    mode: UndefinedMode,
    policy: AutoescapePolicy,
) -> Result<Seq<char>, Seq<Seq<char>>>;

/// Relies on serde_json::from_str deserializing into a minijinja value:
/// it returns `Ok` exactly when the parse of the text succeeds (the parser
/// also enforces a fixed nesting limit), and its error's display text
/// depends on the input text alone.
#[verifier::external_body]
pub(crate) fn parse_context(s: &str) -> (r: Result<minijinja::Value, String>)
    ensures
        r is Ok <==> json_parse_error(s@) is None,
        r matches Err(m) ==> json_parse_error(s@) == Some(m@),
{
    match serde_json::from_str::<minijinja::Value>(s) {
        Ok(v) => Ok(v),
        Err(e) => Err(e.to_string()),
    }
}

/// Relies on minijinja::Environment::new: a fresh environment with the
/// engine's default configuration, owned by this call alone.
#[verifier::external_body]
pub(crate) fn env_new() -> minijinja::Environment<'static> {
    minijinja::Environment::new()
}

/// Relies on minijinja::Environment::set_undefined_behavior: the
/// environment's treatment of undefined variables becomes the given mode.
#[verifier::external_body]
pub(crate) fn env_set_undefined_behavior<'s>(
    env: &mut minijinja::Environment<'s>,
    mode: UndefinedMode,
) {
    let behavior = match mode {
        UndefinedMode::Strict => minijinja::UndefinedBehavior::Strict,
        UndefinedMode::SemiStrict => minijinja::UndefinedBehavior::SemiStrict,
        UndefinedMode::Chainable => minijinja::UndefinedBehavior::Chainable,
        UndefinedMode::Lenient => minijinja::UndefinedBehavior::Lenient,
    };
    env.set_undefined_behavior(behavior);
}

/// Relies on minijinja::path_loader and Environment::set_loader: named
/// templates are thereafter read from files under the given directory.
#[verifier::external_body]
pub(crate) fn env_set_path_loader<'s>(env: &mut minijinja::Environment<'s>, dir: &str) {
    env.set_loader(minijinja::path_loader(dir));
}

/// Relies on minijinja::Environment::set_auto_escape_callback: the engine
/// thereafter asks the given policy, by template name, whether to escape
/// as HTML; the handed closure only calls this library's `should_escape`.
#[verifier::external_body]
pub(crate) fn env_set_autoescape<'s>(
    env: &mut minijinja::Environment<'s>,
    policy: &AutoescapePolicy,
) {
    let p = policy.clone();
    env.set_auto_escape_callback(move |name| {
        if should_escape(&p, name) {
            minijinja::AutoEscape::Html
        } else {
            minijinja::AutoEscape::None
        }
    });
}

/// Relies on minijinja::Environment::get_template: looks the name up among
/// the loaded templates (through the loader, when one is set, which reads
/// the filesystem), so nothing is promised of either outcome.
#[verifier::external_body]
pub(crate) fn env_get_template<'e, 's>(
    env: &'e minijinja::Environment<'s>,
    name: &str,
) -> Result<minijinja::Template<'e, 'e>, minijinja::Error> {
    env.get_template(name)
}

/// Relies on minijinja::Template::render: evaluates the template against
/// the context; the text or error depends on the engine's evaluation.
#[verifier::external_body]
pub(crate) fn template_render<'e: 's, 's>(
    t: &minijinja::Template<'e, 's>,
    ctx: &minijinja::Value,
) -> Result<String, minijinja::Error> {
    t.render(ctx)
}

/// Relies on minijinja::Environment::render_str being, under a fixed mode
/// and autoescape policy, a function of the template source and the
/// context text alone (see `inline_render_of`). The body makes the same
/// calls the named-template path makes one by one — a fresh environment,
/// the mode, the policy, the parsed context, then the inline render — and
/// names what the whole yields.
#[verifier::external_body]
pub(crate) fn render_inline(
    source: &str,
    json: &str,
    mode: UndefinedMode,
    policy: &AutoescapePolicy,
) -> (r: Result<String, Vec<String>>)
    ensures
        r is Ok <==> inline_render_of(source@, json@, mode, *policy) is Ok,
        r matches Ok(text) ==> text@ == inline_render_of(source@, json@, mode, *policy)->Ok_0,
        r matches Err(m) ==> m@.len() >= 1 && m.deep_view() == inline_render_of(
            source@,
            json@,
            mode,
            *policy,
        )->Err_0,
{
    let mut env = env_new();
    env_set_undefined_behavior(&mut env, mode);
    env_set_autoescape(&mut env, policy);
    match parse_context(json) {
        Ok(ctx) => match env.render_str(source, &ctx) {
            Ok(text) => Ok(text),
            Err(e) => Err(render_error_messages(e)),
        },
        Err(m) => Err(vec![m]),
    }
}

/// Relies on the Debug form of minijinja::Error and on the source chain
/// that std::error::Error::source exposes: the first entry is the primary
/// error's description, then one entry per cause, in chain order.
#[verifier::external_body]
pub(crate) fn render_error_messages(err: minijinja::Error) -> (r: Vec<String>)
    ensures
        r@.len() >= 1,
{
    let mut msgs: Vec<String> = Vec::new();
    msgs.push(format!("{:?}", err));
    let mut source = std::error::Error::source(&err);
    while let Some(s) = source {
        msgs.push(format!("{}", s));
        source = std::error::Error::source(s);
    }
    msgs
}

/// Relies on std::path::Path::is_dir, which asks the filesystem: nothing
/// is promised of the answer.
#[verifier::external_body]
pub(crate) fn path_is_dir(p: &str) -> bool {
    std::path::Path::new(p).is_dir()
}

/// Relies on std::path::Path::is_file, which asks the filesystem: nothing
/// is promised of the answer.
#[verifier::external_body]
pub(crate) fn path_is_file(p: &str) -> bool {
    std::path::Path::new(p).is_file()
}

/// Relies on std::path::Path::parent, a purely syntactic operation on the
/// path text.
#[verifier::external_body]
pub(crate) fn path_parent(p: &str) -> (r: Option<String>)
    ensures
        r.deep_view() == parent_path(p@),
{
    std::path::Path::new(p).parent().map(|q| q.to_string_lossy().into_owned())
}

} // verus!
