//! The runtime shape of the generated adapter's body: how a handler's
//! outcome is mapped to the reply. Success is wrapped in the uniform
//! envelope with an empty message; failure is delegated entirely to the
//! error value's own response conversion, untouched.

use vstd::prelude::*;

verus! {

/// The adapter's reply: the uniform envelope `{message, data}` around a
/// success value, or whatever response the failure value converted
/// itself into.
#[derive(Debug, Clone, PartialEq, Eq)]
pub enum Reply<T, R> {
    Envelope { message: String, data: T },
    Fault { response: R },
}

/// The outcome mapping every generated adapter performs after its single
/// suspension point: a success value `v` becomes the envelope
/// `{message: "", data: v}`; a failure value is handed to its own
/// response conversion and the result is returned as the reply, with no
/// translation, wrapping or inspection on the way.
pub fn adapt_outcome<T, E, R, F: FnOnce(E) -> R>(outcome: Result<T, E>, to_response: F) -> (r:
    Reply<T, R>)
    requires
        forall|e: E| to_response.requires((e,)),
    ensures
        match outcome {
            Ok(v) => r matches Reply::Envelope { message, data } && message@ == Seq::<
                char,
            >::empty() && data == v,
            Err(e) => r matches Reply::Fault { response } && to_response.ensures((e,), response),
        },
{
    match outcome {
        Ok(d) => Reply::Envelope { message: String::new(), data: d },
        Err(e) => Reply::Fault { response: to_response(e) },
    }
}

} // verus!
