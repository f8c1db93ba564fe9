//! Collecting the text a foreign printer streams.
//!
//! The C interface prints by calling back with chunks of bytes. Each chunk
//! is checked to be well-formed UTF-8 before it is forwarded; the first
//! chunk that is not puts the collector into a failed state, in which it
//! forwards nothing more.

use vstd::prelude::*;
use vstd::string::StringExecFns;
use vstd::utf8::*;
use crate::foreign::{chunk_views, Reply};
use crate::raw::MlirStringRef;
use crate::string_ref::StringRef;

verus! {

/// A printer delivered bytes that are not text.
#[derive(Clone, Copy, Debug, PartialEq, Eq, Structural)]
pub struct FmtError;

/// The state a printing callback works on: the text forwarded so far, and
/// whether a chunk has been refused.
pub struct FmtUserdata {
    w: String,
    error: Option<FmtError>,
}

/// What a [`FmtUserdata`] holds.
pub struct FmtState {
    pub text: Seq<char>,
    pub failed: bool,
}

impl View for FmtUserdata {
    type V = FmtState;

    closed spec fn view(&self) -> FmtState {
        FmtState { text: self.w@, failed: self.error is Some }
    }
}

/// The state after one more chunk has been delivered.
pub open spec fn delivered(state: FmtState, chunk: Seq<u8>) -> FmtState {
    if state.failed {
        state
    } else if valid_utf8(chunk) {
        FmtState { text: state.text + decode_utf8(chunk), failed: false }
    } else {
        FmtState { text: state.text, failed: true }
    }
}

/// The state after a sequence of chunks has been delivered in order.
pub open spec fn delivered_all(state: FmtState, chunks: Seq<Seq<u8>>) -> FmtState
    decreases chunks.len(),
{
    if chunks.len() == 0 {
        state
    } else {
        delivered(delivered_all(state, chunks.drop_last()), chunks.last())
    }
}

/// Whether `text` is what collecting `chunks` gives: the chunks decoded and
/// joined in order, or the error if one of them is not well-formed UTF-8.
pub open spec fn rendered(chunks: Seq<Seq<u8>>, text: Result<String, FmtError>) -> bool {
    let end = delivered_all(FmtState { text: Seq::empty(), failed: false }, chunks);
    match text {
        Ok(s) => !end.failed && s@ == end.text,
        Err(_) => end.failed,
    }
}

impl FmtUserdata {
    /// A collector that forwards into `w`.
    pub fn new(w: String) -> (userdata: FmtUserdata)
        ensures
            userdata@ == (FmtState { text: w@, failed: false }),
    {
        FmtUserdata { w, error: None }
    }

    /// Whether a chunk has been refused.
    pub fn failed(&self) -> (failed: bool)
        ensures
            failed == self@.failed,
    {
        self.error.is_some()
    }

    /// The text forwarded, or the error if a chunk was refused.
    pub fn finish(self) -> (text: Result<String, FmtError>)
        ensures
            self@.failed <==> text is Err,
            text matches Ok(s) ==> s@ == self@.text,
    {
        match self.error {
            Some(e) => Err(e),
            None => Ok(self.w),
        }
    }
}

/// The callback a foreign printer is given: forwards one chunk.
///
/// A collector that has failed stays as it is. Otherwise the chunk is
/// appended if it is well-formed UTF-8, and the collector fails if it is
/// not.
pub fn fmt_callback(s: MlirStringRef<'_>, userdata: &mut FmtUserdata)
    ensures
        final(userdata)@ == delivered(old(userdata)@, s@),
{
    if userdata.error.is_some() {
        return ;
    }
    match StringRef::from_raw(s).to_str() {
        Some(text) => {
            userdata.w.append(text);
        },
        None => {
            userdata.error = Some(FmtError);
        },
    }
}

/// Everything a printer streamed, as one text: the chunks in order, or the
/// error if any of them is not well-formed UTF-8.
pub fn collect(chunks: &Vec<Vec<u8>>) -> (text: Result<String, FmtError>)
    ensures
        rendered(chunk_views(chunks@), text),
{
    let mut userdata = FmtUserdata::new(String::new());
    let ghost start = FmtState { text: Seq::<char>::empty(), failed: false };
    let mut i: usize = 0;
    while i < chunks.len()
        invariant
            i <= chunks.len(),
            userdata@ == delivered_all(start, chunk_views(chunks@).take(i as int)),
        decreases chunks.len() - i,
    {
        let chunk = MlirStringRef { data: chunks[i].as_slice() };
        proof {
            let views = chunk_views(chunks@);
            assert(views.take(i + 1).drop_last() =~= views.take(i as int));
            assert(views.take(i + 1).last() == chunks@[i as int]@);
        }
        fmt_callback(chunk, &mut userdata);
        i += 1;
    }
    proof {
        assert(chunk_views(chunks@).take(i as int) =~= chunk_views(chunks@));
    }
    userdata.finish()
}

/// The text of a printer's reply. A reply of another kind holds no chunks
/// and gives the empty text.
pub fn render(reply: &Reply<'_>) -> (text: Result<String, FmtError>)
    ensures
        rendered(reply.printed(), text),
{
    match reply {
        Reply::Printed(chunks) => collect(chunks),
        _ => {
            let none: Vec<Vec<u8>> = Vec::new();
            assert(chunk_views(none@) =~= Seq::<Seq<u8>>::empty());
            collect(&none)
        },
    }
}

/// Well-formed chunks all arrive: if every chunk is well-formed UTF-8, the
/// collector does not fail.
pub proof fn lemma_delivered_all_valid(state: FmtState, chunks: Seq<Seq<u8>>)
    requires
        !state.failed,
        forall|i: int| 0 <= i < chunks.len() ==> valid_utf8(#[trigger] chunks[i]),
    ensures
        !delivered_all(state, chunks).failed,
    decreases chunks.len(),
{
    if chunks.len() > 0 {
        lemma_delivered_all_valid(state, chunks.drop_last());
    }
}

/// A failure is final and loses nothing already forwarded: once failed, the
/// state is the same whatever is delivered afterwards.
pub proof fn lemma_failure_is_final(state: FmtState, chunks: Seq<Seq<u8>>)
    requires
        state.failed,
    ensures
        delivered_all(state, chunks) == state,
    decreases chunks.len(),
{
    if chunks.len() > 0 {
        lemma_failure_is_final(state, chunks.drop_last());
    }
}

} // verus!
