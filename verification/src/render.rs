//! Rendering an adapter specification into the emitted source text: the
//! extraction-wrapper parameter list, the reconstructed call arguments,
//! and the fixed outcome-mapping body.

use vstd::prelude::*;
use vstd::string::StringExecFns;

use crate::ast::{AdapterModel, AdapterSpec, BindingModel, ExtractionBinding, ExtractionRole};

verus! {

/// The parameter the adapter declares for one binding: a pass-through
/// parameter is copied verbatim, an extraction binding is rewritten into
/// the matching request-extraction container over the original type.
pub open spec fn wrapper_text(b: BindingModel) -> Seq<char> {
    match b.role {
        ExtractionRole::PassThrough => b.name + ": "@ + b.ty.text,
        ExtractionRole::QueryString => "actix_web::web::Query("@ + b.name
            + "): actix_web::web::Query<"@ + b.ty.text + ">"@,
        ExtractionRole::JsonBody => b.name + ": actix_web::web::Json<"@ + b.ty.text + ">"@,
        ExtractionRole::PathSegment => b.name + ": actix_web::web::Path<"@ + b.ty.text + ">"@,
    }
}

/// The argument the adapter feeds back to the handler for one binding:
/// the unwrapped inner value for a container binding, the name itself
/// otherwise.
pub open spec fn argument_text(b: BindingModel) -> Seq<char> {
    match b.role {
        ExtractionRole::PassThrough => b.name,
        ExtractionRole::QueryString => b.name,
        ExtractionRole::JsonBody => b.name + ".into_inner()"@,
        ExtractionRole::PathSegment => b.name + ".into_inner()"@,
    }
}

/// The pieces joined by the separator, in order.
pub open spec fn joined(items: Seq<Seq<char>>, sep: Seq<char>) -> Seq<char>
    decreases items.len(),
{
    if items.len() == 0 {
        Seq::<char>::empty()
    } else if items.len() == 1 {
        items[0]
    } else {
        items[0] + sep + joined(items.drop_first(), sep)
    }
}

/// The adapter's comma-separated parameter list.
pub open spec fn params_text(bs: Seq<BindingModel>) -> Seq<char> {
    joined(bs.map_values(|b: BindingModel| wrapper_text(b)), ", "@)
}

/// The comma-separated argument list of the call back into the handler.
pub open spec fn args_text(bs: Seq<BindingModel>) -> Seq<char> {
    joined(bs.map_values(|b: BindingModel| argument_text(b)), ", "@)
}

/// The whole emitted adapter function: an asynchronous function that
/// suspends once, at the call into the handler, then on success replies
/// with the envelope carrying an empty message and the success value,
/// and on failure delegates to the error's own response conversion.
pub open spec fn adapter_text(a: AdapterModel) -> Seq<char> {
    "pub async fn "@ + a.adapter_name + "("@ + params_text(a.bindings)
        + ") -> impl actix_web::Responder {\n    match "@ + a.handler_name + "("@ + args_text(
        a.bindings,
    )
        + ").await {\n        Ok(d) => {\n            let res = ApiResponse { message: \"\".to_string(), data: d };\n            actix_web::HttpResponse::Ok().json(res)\n        }\n        Err(e) => { e.error_response() }\n    }\n}\n"@
}

/// Appending one more piece extends a join on the right.
pub proof fn lemma_joined_push(items: Seq<Seq<char>>, sep: Seq<char>, x: Seq<char>)
    ensures
        joined(items.push(x), sep) == if items.len() == 0 {
            x
        } else {
            joined(items, sep) + sep + x
        },
    decreases items.len(),
{
    if items.len() == 0 {
        assert(items.push(x).len() == 1);
        assert(items.push(x)[0] == x);
    } else {
        assert(items.push(x).drop_first() =~= items.drop_first().push(x));
        lemma_joined_push(items.drop_first(), sep, x);
        if items.len() == 1 {
            assert(joined(items.push(x), sep) == items[0] + sep + x);
        } else {
            assert((items[0] + sep + (joined(items.drop_first(), sep) + sep + x)) =~= ((items[0]
                + sep + joined(items.drop_first(), sep)) + sep + x));
        }
    }
}

/// Appends the extraction-wrapper parameter for one binding.
fn push_wrapper(out: &mut String, b: &ExtractionBinding)
    ensures
        final(out)@ == old(out)@ + wrapper_text(b.deep_view()),
{
    match b.role {
        ExtractionRole::PassThrough => {
            out.append(b.name.as_str());
            out.append(": ");
            out.append(b.ty.text.as_str());
            proof {
                assert(out@ =~= old(out)@ + wrapper_text(b.deep_view()));
            }
        },
        ExtractionRole::QueryString => {
            out.append("actix_web::web::Query(");
            out.append(b.name.as_str());
            out.append("): actix_web::web::Query<");
            out.append(b.ty.text.as_str());
            out.append(">");
            proof {
                assert(out@ =~= old(out)@ + wrapper_text(b.deep_view()));
            }
        },
        ExtractionRole::JsonBody => {
            out.append(b.name.as_str());
            out.append(": actix_web::web::Json<");
            out.append(b.ty.text.as_str());
            out.append(">");
            proof {
                assert(out@ =~= old(out)@ + wrapper_text(b.deep_view()));
            }
        },
        ExtractionRole::PathSegment => {
            out.append(b.name.as_str());
            out.append(": actix_web::web::Path<");
            out.append(b.ty.text.as_str());
            out.append(">");
            proof {
                assert(out@ =~= old(out)@ + wrapper_text(b.deep_view()));
            }
        },
    }
}

/// Appends the call argument for one binding.
fn push_argument(out: &mut String, b: &ExtractionBinding)
    ensures
        final(out)@ == old(out)@ + argument_text(b.deep_view()),
{
    match b.role {
        ExtractionRole::PassThrough => {
            out.append(b.name.as_str());
        },
        ExtractionRole::QueryString => {
            out.append(b.name.as_str());
        },
        ExtractionRole::JsonBody => {
            out.append(b.name.as_str());
            out.append(".into_inner()");
            proof {
                assert(out@ =~= old(out)@ + argument_text(b.deep_view()));
            }
        },
        ExtractionRole::PathSegment => {
            out.append(b.name.as_str());
            out.append(".into_inner()");
            proof {
                assert(out@ =~= old(out)@ + argument_text(b.deep_view()));
            }
        },
    }
}

/// Appends the adapter's whole parameter list, comma separated.
fn push_params(out: &mut String, bs: &Vec<ExtractionBinding>)
    ensures
        final(out)@ == old(out)@ + params_text(bs.deep_view()),
{
    let ghost texts: Seq<Seq<char>> = bs.deep_view().map_values(
        |b: BindingModel| wrapper_text(b),
    );
    let n = bs.len();
    let mut i: usize = 0;
    while i < n
        invariant
            n == bs@.len(),
            i <= n,
            texts == bs.deep_view().map_values(|b: BindingModel| wrapper_text(b)),
            out@ == old(out)@ + joined(texts.take(i as int), ", "@),
        decreases n - i,
    {
        if i > 0 {
            out.append(", ");
        }
        push_wrapper(out, &bs[i]);
        proof {
            assert(bs[i as int].deep_view() == bs.deep_view()[i as int]);
            assert(wrapper_text(bs.deep_view()[i as int]) == texts[i as int]);
            lemma_joined_push(texts.take(i as int), ", "@, texts[i as int]);
            assert(texts.take(i as int + 1) =~= texts.take(i as int).push(texts[i as int]));
            assert(out@ =~= old(out)@ + joined(texts.take(i as int + 1), ", "@));
        }
        i += 1;
    }
    proof {
        assert(texts.take(n as int) =~= texts);
    }
}

/// Appends the call's whole argument list, comma separated.
fn push_args(out: &mut String, bs: &Vec<ExtractionBinding>)
    ensures
        final(out)@ == old(out)@ + args_text(bs.deep_view()),
{
    let ghost texts: Seq<Seq<char>> = bs.deep_view().map_values(
        |b: BindingModel| argument_text(b),
    );
    let n = bs.len();
    let mut i: usize = 0;
    while i < n
        invariant
            n == bs@.len(),
            i <= n,
            texts == bs.deep_view().map_values(|b: BindingModel| argument_text(b)),
            out@ == old(out)@ + joined(texts.take(i as int), ", "@),
        decreases n - i,
    {
        if i > 0 {
            out.append(", ");
        }
        push_argument(out, &bs[i]);
        proof {
            assert(bs[i as int].deep_view() == bs.deep_view()[i as int]);
            assert(argument_text(bs.deep_view()[i as int]) == texts[i as int]);
            lemma_joined_push(texts.take(i as int), ", "@, texts[i as int]);
            assert(texts.take(i as int + 1) =~= texts.take(i as int).push(texts[i as int]));
            assert(out@ =~= old(out)@ + joined(texts.take(i as int + 1), ", "@));
        }
        i += 1;
    }
    proof {
        assert(texts.take(n as int) =~= texts);
    }
}

/// Renders the synthesized adapter as source text.
pub fn render_adapter(a: &AdapterSpec) -> (r: String)
    ensures
        r@ == adapter_text(a.deep_view()),
{
    let mut out = String::new();
    out.append("pub async fn ");
    out.append(a.adapter_name.as_str());
    out.append("(");
    push_params(&mut out, &a.bindings);
    out.append(") -> impl actix_web::Responder {\n    match ");
    out.append(a.handler_name.as_str());
    out.append("(");
    push_args(&mut out, &a.bindings);
    out.append(
        ").await {\n        Ok(d) => {\n            let res = ApiResponse { message: \"\".to_string(), data: d };\n            actix_web::HttpResponse::Ok().json(res)\n        }\n        Err(e) => { e.error_response() }\n    }\n}\n",
    );
    proof {
        assert(out@ =~= adapter_text(a.deep_view()));
    }
    out
}

/// Renders the whole emission: the original declaration preserved
/// verbatim, followed by its adapter.
pub fn render_expansion(original: &str, a: &AdapterSpec) -> (r: String)
    ensures
        r@ == original@ + "\n\n"@ + adapter_text(a.deep_view()),
{
    let mut out = String::from_str(original);
    out.append("\n\n");
    let adapter = render_adapter(a);
    out.append(adapter.as_str());
    proof {
        assert(out@ =~= original@ + "\n\n"@ + adapter_text(a.deep_view()));
    }
    out
}

} // verus!
