//! From the outcome of an asynchronous operation to what its callback is
//! handed: a boundary code and one contiguous text.
use crate::error::{
    code_of, translate, ErrorCode, Failure, FailureKind, FailureView, LastError,
};
use vstd::prelude::*;
use vstd::string::StringExecFns;

verus! {

/// How a submitted request ended once the resource had an answer.
#[derive(Debug)]
pub enum RequestResult {
    /// The body of the reply.
    Reply(String),
    /// The resource could not get a reply.
    Failed(Failure),
}

/// The lines joined by single line feeds: no line feed before the first line
/// nor after the last.
pub open spec fn join_lines(lines: Seq<Seq<char>>) -> Seq<char>
    decreases lines.len(),
{
    if lines.len() == 0 {
        Seq::<char>::empty()
    } else if lines.len() == 1 {
        lines[0]
    } else {
        join_lines(lines.drop_last()) + seq!['\n'] + lines.last()
    }
}

/// The texts of a sequence of strings.
pub open spec fn texts(lines: Seq<String>) -> Seq<Seq<char>> {
    lines.map_values(|line: String| line@)
}

/// Joins `lines` by line feeds.
pub fn join(lines: &Vec<String>) -> (joined: String)
    ensures
        joined@ == join_lines(texts(lines@)),
{
    let mut joined = String::new();
    let mut i: usize = 0;
    while i < lines.len()
        invariant
            i <= lines.len(),
            joined@ == join_lines(texts(lines@).take(i as int)),
        decreases lines.len() - i,
    {
        proof {
            reveal_strlit("\n");
            let all = texts(lines@);
            assert(all.take(i + 1).drop_last() =~= all.take(i as int));
            assert(all.take(i + 1).last() == lines@[i as int]@);
            assert("\n"@ =~= seq!['\n']);
        }
        if i > 0 {
            joined.append("\n");
        }
        joined.append(lines[i].as_str());
        i = i + 1;
    }
    proof {
        assert(texts(lines@).take(i as int) =~= texts(lines@));
    }
    joined
}

/// Whether a text can cross the boundary as one NUL-terminated string: it
/// holds no NUL itself.
pub open spec fn crossable(text: Seq<char>) -> bool {
    forall|k: int| 0 <= k < text.len() ==> text[k] != '\0'
}

/// The failure of a reply that cannot be serialized for the boundary.
pub open spec fn unserializable() -> FailureView {
    FailureView { kind: FailureKind::Invariant, message: "Reply holds a NUL character"@ }
}

/// Whether `text` holds no NUL.
pub fn is_crossable(text: &str) -> (b: bool)
    ensures
        b == crossable(text@),
{
    let mut clean = true;
    for c in it: text.chars()
        invariant
            it.seq() == text@,
            clean == crossable(text@.take(it.index() as int)),
    {
        proof {
            let i = it.index() as int;
            assert(text@.take(i + 1).drop_last() =~= text@.take(i));
            assert(text@.take(i + 1)[i] == c);
        }
        if c == '\0' {
            clean = false;
        }
    }
    proof {
        assert(text@.take(text@.len() as int) =~= text@);
    }
    clean
}

/// The delivery of a successful operation: the text where it can cross the
/// boundary, else the failure to serialize it.
pub open spec fn success_delivery(text: Seq<char>, before: Option<FailureView>) -> (
    ErrorCode,
    Seq<char>,
    Option<FailureView>,
) {
    if crossable(text) {
        (ErrorCode::Success, text, before)
    } else {
        (code_of(unserializable().kind), Seq::<char>::empty(), Some(unserializable()))
    }
}

/// The delivery of a failed operation: its code, no text, and its detail in
/// the slot.
pub open spec fn failure_delivery(failure: FailureView) -> (
    ErrorCode,
    Seq<char>,
    Option<FailureView>,
) {
    (code_of(failure.kind), Seq::<char>::empty(), Some(failure))
}

/// What the callback of a transaction listing is handed, and what the slot
/// holds afterwards.
pub open spec fn transactions_delivery(
    result: Result<Seq<Seq<char>>, FailureView>,
    before: Option<FailureView>,
) -> (ErrorCode, Seq<char>, Option<FailureView>) {
    match result {
        Ok(lines) => success_delivery(join_lines(lines), before),
        Err(failure) => failure_delivery(failure),
    }
}

/// What the callback of a submitted request is handed, and what the slot
/// holds afterwards.
pub open spec fn request_delivery(
    result: Result<Result<Seq<char>, FailureView>, FailureView>,
    before: Option<FailureView>,
) -> (ErrorCode, Seq<char>, Option<FailureView>) {
    match result {
        Ok(Ok(body)) => success_delivery(body, before),
        Ok(Err(failure)) => failure_delivery(failure),
        Err(failure) => failure_delivery(failure),
    }
}

/// The view of the outcome of a transaction listing.
pub open spec fn transactions_view(result: Result<Vec<String>, Failure>) -> Result<
    Seq<Seq<char>>,
    FailureView,
> {
    match result {
        Ok(lines) => Ok(texts(lines@)),
        Err(failure) => Err(failure@),
    }
}

/// The view of the outcome of a submitted request.
pub open spec fn request_view(result: Result<RequestResult, Failure>) -> Result<
    Result<Seq<char>, FailureView>,
    FailureView,
> {
    match result {
        Ok(RequestResult::Reply(body)) => Ok(Ok(body@)),
        Ok(RequestResult::Failed(failure)) => Ok(Err(failure@)),
        Err(failure) => Err(failure@),
    }
}

/// Ends a successful operation: `text` is delivered where it can cross the
/// boundary; where it cannot, that is a failure like any other.
fn deliver_text(text: String, slot: &mut LastError) -> (delivery: (ErrorCode, String))
    ensures
        (delivery.0, delivery.1@, final(slot)@) == success_delivery(text@, old(slot)@),
{
    if is_crossable(text.as_str()) {
        (ErrorCode::Success, text)
    } else {
        let failure = Failure::with_text(FailureKind::Invariant, "Reply holds a NUL character");
        let code = translate(failure, slot);
        (code, String::new())
    }
}

/// Turns the outcome of a transaction listing into the code and the text for
/// the callback. Success carries the transactions, one per line; a failure
/// carries its code and an empty text, and its detail goes to the slot. The
/// text never holds a NUL.
pub fn transactions_reply(result: Result<Vec<String>, Failure>, slot: &mut LastError) -> (delivery:
    (ErrorCode, String))
    ensures
        (delivery.0, delivery.1@, final(slot)@) == transactions_delivery(
            transactions_view(result),
            old(slot)@,
        ),
{
    match result {
        Ok(lines) => deliver_text(join(&lines), slot),
        Err(failure) => {
            let code = translate(failure, slot);
            (code, String::new())
        },
    }
}

/// Turns the outcome of a submitted request into the code and the text for
/// the callback. A reply carries its body; a failure, whether the resource
/// reported it with its answer or in place of one, carries its code and an
/// empty text, and its detail goes to the slot. The text never holds a NUL.
pub fn request_reply(result: Result<RequestResult, Failure>, slot: &mut LastError) -> (delivery: (
    ErrorCode,
    String,
))
    ensures
        (delivery.0, delivery.1@, final(slot)@) == request_delivery(
            request_view(result),
            old(slot)@,
        ),
{
    match result {
        Ok(RequestResult::Reply(body)) => deliver_text(body, slot),
        Ok(RequestResult::Failed(failure)) => {
            let code = translate(failure, slot);
            (code, String::new())
        },
        Err(failure) => {
            let code = translate(failure, slot);
            (code, String::new())
        },
    }
}

/// Every delivery can cross the boundary. A delivery is a success only when
/// the operation succeeded, and a failed operation never delivers success.
/// After a delivery that is no success the text is empty and the slot holds a
/// failure of the category that the code stands for.
pub proof fn lemma_delivery_matches_slot(
    listing: Result<Seq<Seq<char>>, FailureView>,
    request: Result<Result<Seq<char>, FailureView>, FailureView>,
    before: Option<FailureView>,
)
    ensures
        ({
            let (code, text, after) = transactions_delivery(listing, before);
            &&& crossable(text)
            &&& code == ErrorCode::Success ==> listing is Ok && after == before
            &&& listing is Err ==> code != ErrorCode::Success
            &&& code != ErrorCode::Success ==> after is Some && code_of(after->0.kind) == code
                && text.len() == 0
        }),
        ({
            let (code, text, after) = request_delivery(request, before);
            &&& crossable(text)
            &&& code == ErrorCode::Success ==> request == Ok::<
                Result<Seq<char>, FailureView>,
                FailureView,
            >(Ok(text)) && after == before
            &&& !(request is Ok && request->Ok_0 is Ok) ==> code != ErrorCode::Success
            &&& code != ErrorCode::Success ==> after is Some && code_of(after->0.kind) == code
                && text.len() == 0
        }),
{
}

} // verus!
