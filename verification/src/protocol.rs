//! The propagation discipline built on [`ErrorValue`]: at each call
//! boundary a failure is either passed through unchanged (a plain move, no
//! reallocation), wrapped with layer-specific context, or recovered from
//! after inspection. No path may drop an error silently: it is rendered,
//! wrapped, or discarded explicitly through [`ignore_error`].

use vstd::prelude::*;

use crate::error::ErrorValue;
use crate::error::Kind;
use crate::error::SourceContext;
use crate::error::builtin_id;

verus! {

/// Applies the wrap-with-context policy to a result: a success passes
/// through untouched, a failure becomes the cause of a new outermost node
/// carrying this layer's context.
pub fn wrap_failure<T>(
    r: Result<T, ErrorValue>,
    kind: Kind,
    message: String,
    context: Option<SourceContext>,
) -> (out: Result<T, ErrorValue>)
    requires
        message@.len() > 0,
        context is Some ==> kind == Kind::Parse,
        r matches Err(e) ==> e.wf(),
    ensures
        out is Ok <==> r is Ok,
        r matches Ok(v) ==> out matches Ok(w) && w == v,
        out matches Err(e) ==> {
            &&& e.wf()
            &&& e@.len() == r->Err_0@.len() + 1
            &&& e@[0].kind == kind
            &&& e@[0].type_id == builtin_id(kind)
            &&& e@[0].message == message@
            &&& e@[0].context == context
            &&& e@[0].backtrace is None
            &&& e@.skip(1) == r->Err_0@
        },
{
    match r {
        Ok(v) => Ok(v),
        Err(e) => Err(ErrorValue::wrap(e, kind, message, context)),
    }
}

/// Acknowledges and discards an error. The propagation discipline forbids a
/// code path that drops an `ErrorValue` implicitly; a layer that handles a
/// failure without rendering or wrapping it records the decision by calling
/// this.
pub fn ignore_error(e: ErrorValue) {
    let _ = e;
}

} // verus!
