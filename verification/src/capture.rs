//! Capturing the calling thread's stack with symbol names resolved. This is
//! the path a failure handler takes: it may allocate.

use vstd::prelude::*;
use backtrace::Backtrace;
use crate::frames::{resolved_names, stack_names};

verus! {

#[verifier::external_type_specification]
#[verifier::external_body]
pub struct ExBacktrace(backtrace::Backtrace);

/// The symbol names that a resolved capture holds: one entry per frame,
/// innermost first, and in it one entry per symbol that the frame resolved
/// to, `None` where the symbol has no name. Names are demangled and written
/// without their trailing hash.
pub uninterp spec fn backtrace_symbols(capture: Backtrace) -> Seq<Seq<Option<Seq<char>>>>;

/// Calls `backtrace::Backtrace::new`, which walks the stack of the calling
/// thread and resolves every frame. Nothing is claimed of the outcome: it
/// depends on where the call is made and on the debug information at hand.
#[verifier::external_body]
pub(crate) fn capture_resolved() -> (capture: Backtrace) {
    Backtrace::new()
}

/// The number of frames in a capture: the length of `Backtrace::frames`.
#[verifier::external_body]
fn frame_count(capture: &Backtrace) -> (count: usize)
    ensures
        count == backtrace_symbols(*capture).len(),
{
    capture.frames().len()
}

/// The number of symbols that a frame of a capture resolved to: the length
/// of `BacktraceFrame::symbols` for the frame at `frame`.
#[verifier::external_body]
fn symbol_count(capture: &Backtrace, frame: usize) -> (count: usize)
    requires
        frame < backtrace_symbols(*capture).len(),
    ensures
        count == backtrace_symbols(*capture)[frame as int].len(),
{
    capture.frames()[frame].symbols().len()
}

/// The name of one symbol of a capture, from `BacktraceSymbol::name`,
/// written in its alternate display form; `None` where the symbol has none.
#[verifier::external_body]
fn symbol_name(capture: &Backtrace, frame: usize, symbol: usize) -> (name: Option<String>)
    requires
        frame < backtrace_symbols(*capture).len(),
        symbol < backtrace_symbols(*capture)[frame as int].len(),
    ensures
        name.deep_view() == backtrace_symbols(*capture)[frame as int][symbol as int],
{
    capture.frames()[frame].symbols()[symbol].name().map(|name| format!("{:#}", name))
}

/// The symbol names of a capture, frame by frame.
pub fn symbol_names(capture: &Backtrace) -> (frames: Vec<Vec<Option<String>>>)
    ensures
        frames.deep_view() == backtrace_symbols(*capture),
{
    let ghost held = backtrace_symbols(*capture);
    let frame_total = frame_count(capture);
    let mut frames: Vec<Vec<Option<String>>> = Vec::new();
    let mut i: usize = 0;
    while i < frame_total
        invariant
            i <= frame_total == held.len(),
            held == backtrace_symbols(*capture),
            frames.deep_view() == held.take(i as int),
        decreases frame_total - i,
    {
        let symbol_total = symbol_count(capture, i);
        let mut symbols: Vec<Option<String>> = Vec::new();
        let mut j: usize = 0;
        while j < symbol_total
            invariant
                i < frame_total == held.len(),
                held == backtrace_symbols(*capture),
                j <= symbol_total == held[i as int].len(),
                symbols.deep_view() == held[i as int].take(j as int),
            decreases symbol_total - j,
        {
            let name = symbol_name(capture, i, j);
            let ghost before = symbols;
            symbols.push(name);
            proof {
                let upto = held[i as int].take(j as int + 1);
                assert(before.deep_view().len() == j);
                assert forall|k: int| 0 <= k < upto.len() implies symbols.deep_view()[k]
                    == upto[k] by {
                    if k < j {
                        assert(symbols@[k] == before@[k]);
                        assert(before.deep_view()[k] == held[i as int].take(j as int)[k]);
                    }
                }
                assert(symbols.deep_view() =~= upto);
            }
            j += 1;
        }
        assert(held[i as int].take(j as int) =~= held[i as int]);
        let ghost before = frames;
        frames.push(symbols);
        proof {
            let upto = held.take(i as int + 1);
            assert(before.deep_view().len() == i);
            assert forall|k: int| 0 <= k < upto.len() implies frames.deep_view()[k] == upto[k] by {
                if k < i {
                    assert(frames@[k] == before@[k]);
                    assert(before.deep_view()[k] == held.take(i as int)[k]);
                }
            }
            assert(frames.deep_view() =~= upto);
        }
        i += 1;
    }
    assert(held.take(i as int) =~= held);
    frames
}

/// Writes a capture out through its `Debug` form, one numbered entry per
/// frame. The text depends on the working directory of the process, against
/// which file paths are shortened, so nothing is claimed of it.
#[verifier::external_body]
pub(crate) fn backtrace_text(capture: &Backtrace) -> (text: String) {
    format!("{:?}", capture)
}

/// Every name that `capture` resolved, innermost frame first.
pub fn resolved_capture(capture: &Backtrace) -> (names: Vec<String>)
    ensures
        names.deep_view() == stack_names(backtrace_symbols(*capture)),
{
    let symbols = symbol_names(capture);
    resolved_names(&symbols)
}

} // verus!
