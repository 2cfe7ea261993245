//! Request payloads: the code field, the version field where the catalog
//! asks for one, then the arguments in the catalog's layout.
use vstd::prelude::*;
use crate::catalog::ServerReqMsgDiscriminants;
use crate::error::MessageError;
use crate::field::{encoded_field, kind_of, push_field, FieldKind, FieldValue};
use crate::text::{chars_of, string_from_chars};

verus! {

/// One argument of a request.
#[derive(Clone, Debug)]
pub enum RequestArg {
    /// A primitive value, encoded as one field.
    Value(FieldValue),
    /// A composite value (a contract, an order, ...) already encoded as its
    /// own run of NUL-terminated fields, sent verbatim.
    Block(String),
}

/// The kind of slot that an argument fills.
pub open spec fn arg_kind(a: RequestArg) -> FieldKind {
    match a {
        RequestArg::Value(v) => kind_of(v),
        RequestArg::Block(_) => FieldKind::Block,
    }
}

/// The wire text of one argument.
pub open spec fn arg_text(a: RequestArg) -> Seq<char> {
    match a {
        RequestArg::Value(v) => encoded_field(v),
        RequestArg::Block(s) => s@,
    }
}

/// The wire text of a run of arguments, in order.
pub open spec fn args_text(args: Seq<RequestArg>) -> Seq<char>
    decreases args.len(),
{
    if args.len() == 0 {
        Seq::empty()
    } else {
        args_text(args.drop_last()) + arg_text(args.last())
    }
}

/// Whether the arguments fill a layout slot by slot.
pub open spec fn fits_layout(args: Seq<RequestArg>, layout: Seq<FieldKind>) -> bool {
    &&& args.len() == layout.len()
    &&& forall|i: int| 0 <= i < args.len() ==> arg_kind(#[trigger] args[i]) == layout[i]
}

/// The payload of a request: its code field, its version field when the
/// catalog gives the kind one, then its arguments.
pub open spec fn request_payload(
    kind: ServerReqMsgDiscriminants,
    version: i32,
    args: Seq<RequestArg>,
) -> Seq<char> {
    encoded_field(FieldValue::Int(kind.spec_code())) + (if kind.spec_has_version() {
        encoded_field(FieldValue::Int(version))
    } else {
        Seq::empty()
    }) + args_text(args)
}

/// Whether an argument fills a slot of the given kind.
fn arg_fits(a: &RequestArg, k: FieldKind) -> (r: bool)
    ensures
        r == (arg_kind(*a) == k),
{
    let have = match a {
        RequestArg::Value(FieldValue::Bool(_)) => FieldKind::Bool,
        RequestArg::Value(FieldValue::Size(_)) => FieldKind::Size,
        RequestArg::Value(FieldValue::Float(_)) => FieldKind::Float,
        RequestArg::Value(FieldValue::Int(_)) => FieldKind::Int,
        RequestArg::Value(FieldValue::Text(_)) => FieldKind::Text,
        RequestArg::Block(_) => FieldKind::Block,
    };
    have == k
}

/// Builds the payload of a request of the given kind. The version goes out
/// only for kinds that carry one. Arguments that do not match the kind's
/// layout, in number or in kind, are refused.
pub fn make_request(kind: ServerReqMsgDiscriminants, version: i32, args: &Vec<RequestArg>) -> (r:
    Result<String, MessageError>)
    ensures
        fits_layout(args@, kind.spec_layout()) ==> (r matches Ok(s) && s@ == request_payload(
            kind,
            version,
            args@,
        )),
        !fits_layout(args@, kind.spec_layout()) ==> r == Err::<String, _>(
            MessageError::MalformedPayload,
        ),
{
    let layout = kind.layout();
    if args.len() != layout.len() {
        return Err(MessageError::MalformedPayload);
    }
    let mut i: usize = 0;
    while i < args.len()
        invariant
            0 <= i <= args@.len(),
            args@.len() == layout@.len(),
            layout@ == kind.spec_layout(),
            forall|j: int| 0 <= j < i ==> arg_kind(#[trigger] args@[j]) == layout@[j],
        decreases args@.len() - i,
    {
        if !arg_fits(&args[i], layout[i]) {
            return Err(MessageError::MalformedPayload);
        }
        i = i + 1;
    }
    let mut out: Vec<char> = Vec::new();
    push_field(&FieldValue::Int(kind.code()), &mut out);
    if kind.has_version() {
        push_field(&FieldValue::Int(version), &mut out);
    }
    let ghost head = out@;
    let mut k: usize = 0;
    while k < args.len()
        invariant
            0 <= k <= args@.len(),
            out@ == head + args_text(args@.subrange(0, k as int)),
        decreases args@.len() - k,
    {
        match &args[k] {
            RequestArg::Value(v) => push_field(v, &mut out),
            RequestArg::Block(s) => {
                let mut t = chars_of(s.as_str());
                out.append(&mut t);
            },
        }
        k = k + 1;
        assert(args@.subrange(0, k as int).drop_last() =~= args@.subrange(0, k - 1));
        assert(out@ =~= head + args_text(args@.subrange(0, k as int)));
    }
    assert(args@.subrange(0, k as int) =~= args@);
    assert(out@ =~= request_payload(kind, version, args@));
    Ok(string_from_chars(&out))
}

/// A request kind that takes no arguments and no version field (family
/// codes, market-depth exchanges, news providers) has its code field as its
/// whole payload.
pub proof fn lemma_zero_argument_request(kind: ServerReqMsgDiscriminants, version: i32)
    requires
        kind.spec_layout().len() == 0,
        !kind.spec_has_version(),
    ensures
        request_payload(kind, version, Seq::empty()) == encoded_field(
            FieldValue::Int(kind.spec_code()),
        ),
        fits_layout(Seq::empty(), kind.spec_layout()),
{
    assert(request_payload(kind, version, Seq::empty()) =~= encoded_field(
        FieldValue::Int(kind.spec_code()),
    ));
}

/// The family-codes, market-depth-exchanges and news-providers requests take
/// neither arguments nor a version field.
pub proof fn lemma_bare_request_kinds()
    ensures
        ServerReqMsgDiscriminants::ReqFamilyCodes.spec_layout().len() == 0,
        !ServerReqMsgDiscriminants::ReqFamilyCodes.spec_has_version(),
        ServerReqMsgDiscriminants::ReqMktDepthExchanges.spec_layout().len() == 0,
        !ServerReqMsgDiscriminants::ReqMktDepthExchanges.spec_has_version(),
        ServerReqMsgDiscriminants::ReqNewsProviders.spec_layout().len() == 0,
        !ServerReqMsgDiscriminants::ReqNewsProviders.spec_has_version(),
{
}

} // verus!
