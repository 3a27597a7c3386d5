//! One rendering call, end to end: normalize the request's optional
//! strings, parse the JSON context, configure a fresh engine environment,
//! render inline or by template name, and tag the outcome.

use vstd::prelude::*;
use vstd::string::*;
use crate::engine::{
    env_get_template, env_new, env_set_autoescape, env_set_path_loader,
    env_set_undefined_behavior, inline_render_of, json_parse_error, parse_context, path_is_dir,
    path_is_file, path_parent, render_error_messages, render_inline, template_render,
};
use crate::outcome::{RenderOutcome, chain_text, format_error_chain};
use crate::policy::{
    AutoescapePolicy, UndefinedMode, choose_autoescape_policy, normalize_opt_string,
    parse_undefined_mode, spec_choose_policy, spec_normalize_opt, spec_undefined_mode,
};

verus! {

/// The diagnostic reported for a context that is not well-formed JSON: the
/// fixed prefix, then the parser's own message.
pub open spec fn invalid_json_text(m: Seq<char>) -> Seq<char> {
    "Invalid JSON: "@ + m
}

/// A diagnostic built for malformed JSON always begins with
/// "Invalid JSON: ", whatever the parser's message was.
pub proof fn lemma_invalid_json_text_prefix(m: Seq<char>)
    ensures
        invalid_json_text(m).len() >= "Invalid JSON: "@.len(),
        invalid_json_text(m).take("Invalid JSON: "@.len() as int) == "Invalid JSON: "@,
{
    assert(invalid_json_text(m).take("Invalid JSON: "@.len() as int) =~= "Invalid JSON: "@);
}

/// The outcome owed for an inline call: exactly what the engine's inline
/// render yields for these inputs under this mode and policy — its text as
/// a success, or its error chain formatted as the diagnostic.
pub open spec fn matches_inline_render(
    r: RenderOutcome,
    source: Seq<char>,
    json: Seq<char>,
    mode: UndefinedMode,
    policy: AutoescapePolicy,
) -> bool {
    match inline_render_of(source, json, mode, policy) {
        Ok(text) => r matches RenderOutcome::Success(t) && t@ == text,
        Err(msgs) => r matches RenderOutcome::Failure(d) && d@ == chain_text(msgs),
    }
}

/// Render one request.
///
/// The context must parse as JSON before anything else happens: a
/// malformed context yields exactly the prefixed parser diagnostic, and
/// only a well-formed one can yield rendered text. With no template path,
/// the outcome is exactly what the engine's inline render yields for the
/// source, the context, the selected undefined-variable mode and the
/// selected autoescape policy. When the engine fails, the diagnostic is
/// the formatted error chain, never partial text.
///
/// An empty template path or behavior string counts as absent. With no
/// path, the source is rendered inline; with one, the source names a
/// template resolved relative to the path (the directory itself, or the
/// containing directory of a file; a path that is neither quietly leaves
/// no resolution configured). A supplied suffix list — even an empty one —
/// overrides the plain autoescape flag.
pub fn render(
    template_source: &str,
    json_context: &str,
    template_path: Option<String>,
    autoescape: bool,
    undefined_behavior: Option<String>,
    autoescape_on: Option<Vec<String>>,
) -> (r: RenderOutcome)
    ensures
        json_parse_error(json_context@) matches Some(m) ==> (r matches RenderOutcome::Failure(d)
            && d@ == invalid_json_text(m)),
        r is Success ==> json_parse_error(json_context@) is None,
        json_parse_error(json_context@) is None ==> (r matches RenderOutcome::Failure(d)
            ==> (exists|msgs: Seq<Seq<char>>| msgs.len() >= 1 && d@ == chain_text(msgs))),
        json_parse_error(json_context@) is None && spec_normalize_opt(template_path.deep_view())
            is None ==> matches_inline_render(
            r,
            template_source@,
            json_context@,
            spec_undefined_mode(spec_normalize_opt(undefined_behavior.deep_view())),
            spec_choose_policy(autoescape, autoescape_on),
        ),
{
    let path = normalize_opt_string(template_path);
    let behavior = normalize_opt_string(undefined_behavior);
    match parse_context(json_context) {
        Err(m) => {
            let mut d = String::from_str("Invalid JSON: ");
            d.append(m.as_str());
            RenderOutcome::Failure(d)
        },
        Ok(ctx) => {
            let policy = choose_autoescape_policy(autoescape, autoescape_on);
            match &path {
                Option::None => {
                    let mode = parse_undefined_mode(&behavior);
                    match render_inline(template_source, json_context, mode, &policy) {
                        Ok(text) => RenderOutcome::Success(text),
                        Err(msgs) => {
                            let d = format_error_chain(&msgs);
                            proof {
                                assert(exists|ms: Seq<Seq<char>>|
                                    ms.len() >= 1 && d@ == chain_text(ms)) by {
                                    assert(msgs.deep_view().len() >= 1 && d@ == chain_text(
                                        msgs.deep_view(),
                                    ));
                                }
                            }
                            RenderOutcome::Failure(d)
                        },
                    }
                },
                Option::Some(p) => {
                    let mut env = env_new();
                    if behavior.is_some() {
                        let mode = parse_undefined_mode(&behavior);
                        env_set_undefined_behavior(&mut env, mode);
                    }
                    if path_is_dir(p.as_str()) {
                        env_set_path_loader(&mut env, p.as_str());
                    } else if path_is_file(p.as_str()) {
                        match path_parent(p.as_str()) {
                            Option::Some(parent) => {
                                env_set_path_loader(&mut env, parent.as_str());
                            },
                            Option::None => {},
                        }
                    }
                    env_set_autoescape(&mut env, &policy);
                    let result = match env_get_template(&env, template_source) {
                        Ok(t) => template_render(&t, &ctx),
                        Err(e) => Err(e),
                    };
                    match result {
                        Ok(text) => RenderOutcome::Success(text),
                        Err(e) => {
                            let msgs = render_error_messages(e);
                            let d = format_error_chain(&msgs);
                            proof {
                                assert(exists|ms: Seq<Seq<char>>|
                                    ms.len() >= 1 && d@ == chain_text(ms)) by {
                                    assert(msgs.deep_view().len() >= 1 && d@ == chain_text(
                                        msgs.deep_view(),
                                    ));
                                }
                            }
                            RenderOutcome::Failure(d)
                        },
                    }
                },
            }
        },
    }
}

} // verus!
