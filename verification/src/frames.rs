//! Call-stack frames: what a capture yields and which part of it a report keeps.

use vstd::prelude::*;
use vstd::string::*;

verus! {

/// The symbol at which the runtime starts unwinding. A capture taken inside a
/// failure handler begins with the handler's own machinery and reaches the
/// failing code only after this frame.
pub open spec fn unwind_marker() -> Seq<char> {
    "rust_begin_unwind"@
}

/// The position of the first frame named like the unwind marker, or the
/// length of `frames` when there is none.
pub open spec fn first_marker(frames: Seq<Seq<char>>) -> int
    decreases frames.len(),
{
    if frames.len() == 0 {
        0
    } else if frames[0] == unwind_marker() {
        0
    } else {
        1 + first_marker(frames.skip(1))
    }
}

/// The frames of the failing code: everything after the first unwind marker,
/// or the whole capture when it holds no marker.
pub open spec fn application_frames(frames: Seq<Seq<char>>) -> Seq<Seq<char>> {
    let at = first_marker(frames);
    if at < frames.len() {
        frames.skip(at + 1)
    } else {
        frames
    }
}

/// `first_marker` finds the marker that has none before it.
pub proof fn lemma_first_marker(frames: Seq<Seq<char>>)
    ensures
        0 <= first_marker(frames) <= frames.len(),
        first_marker(frames) < frames.len() ==> frames[first_marker(frames)] == unwind_marker(),
        forall|i: int| 0 <= i < first_marker(frames) ==> frames[i] != unwind_marker(),
    decreases frames.len(),
{
    if frames.len() != 0 && frames[0] != unwind_marker() {
        let rest = frames.skip(1);
        lemma_first_marker(rest);
        assert forall|i: int| 0 <= i < first_marker(frames) implies frames[i] != unwind_marker() by {
            if i > 0 {
                assert(frames[i] == rest[i - 1]);
            }
        }
    }
}

/// What is kept of a capture that holds the marker starts right behind the
/// first marker and runs to the end of the capture, frame for frame; a
/// capture without the marker is kept whole. So no frame that is kept comes
/// from a position at or before the marker.
pub proof fn lemma_frames_follow_marker(frames: Seq<Seq<char>>)
    ensures
        first_marker(frames) >= frames.len() ==> application_frames(frames) == frames,
        first_marker(frames) < frames.len() ==> {
            &&& frames[first_marker(frames)] == unwind_marker()
            &&& application_frames(frames).len() == frames.len() - first_marker(frames) - 1
            &&& forall|k: int|
                0 <= k < application_frames(frames).len() ==> application_frames(frames)[k]
                    == frames[first_marker(frames) + 1 + k]
        },
{
    lemma_first_marker(frames);
}

/// The names that one frame resolved to, in order; a symbol without a name
/// contributes nothing.
pub open spec fn frame_names(symbols: Seq<Option<Seq<char>>>) -> Seq<Seq<char>>
    decreases symbols.len(),
{
    if symbols.len() == 0 {
        Seq::empty()
    } else {
        let before = frame_names(symbols.drop_last());
        match symbols.last() {
            Some(name) => before.push(name),
            None => before,
        }
    }
}

/// The names of a whole capture: those of each frame, innermost frame first.
pub open spec fn stack_names(frames: Seq<Seq<Option<Seq<char>>>>) -> Seq<Seq<char>>
    decreases frames.len(),
{
    if frames.len() == 0 {
        Seq::empty()
    } else {
        stack_names(frames.drop_last()) + frame_names(frames.last())
    }
}

/// Flattens a resolved capture into the list of its symbol names.
pub fn resolved_names(frames: &Vec<Vec<Option<String>>>) -> (names: Vec<String>)
    ensures
        names.deep_view() == stack_names(frames.deep_view()),
{
    let mut names: Vec<String> = Vec::new();
    let mut i: usize = 0;
    assert(frames.deep_view().take(0) =~= Seq::empty());
    assert(names.deep_view() =~= Seq::empty());
    while i < frames.len()
        invariant
            i <= frames.len(),
            names.deep_view() == stack_names(frames.deep_view().take(i as int)),
        decreases frames.len() - i,
    {
        let symbols = &frames[i];
        let ghost done = names.deep_view();
        let mut j: usize = 0;
        assert(symbols.deep_view().take(0) =~= Seq::empty());
        assert(done + Seq::<Seq<char>>::empty() =~= done);
        while j < symbols.len()
            invariant
                j <= symbols.len(),
                names.deep_view() == done + frame_names(symbols.deep_view().take(j as int)),
            decreases symbols.len() - j,
        {
            let ghost before = names.deep_view();
            let ghost upto = symbols.deep_view().take(j as int + 1);
            proof {
                assert(upto.drop_last() =~= symbols.deep_view().take(j as int));
                assert(upto.last() == symbols[j as int].deep_view());
            }
            match &symbols[j] {
                Some(name) => {
                    names.push(name.clone());
                    proof {
                        assert(names.deep_view() =~= before.push(name@));
                        assert(before.push(name@) =~= done + frame_names(upto));
                    }
                },
                None => {},
            }
            j += 1;
        }
        proof {
            let upto = frames.deep_view().take(i as int + 1);
            assert(symbols.deep_view().take(j as int) =~= symbols.deep_view());
            assert(upto.drop_last() =~= frames.deep_view().take(i as int));
            assert(upto.last() == symbols.deep_view());
        }
        i += 1;
    }
    assert(frames.deep_view().take(i as int) =~= frames.deep_view());
    names
}

/// Drops the frames of the failure machinery from a capture: the first frame
/// named like the unwind marker and everything before it. A capture without
/// the marker is returned whole.
pub fn strip_unwind_frames(frames: Vec<String>) -> (kept: Vec<String>)
    ensures
        kept.deep_view() == application_frames(frames.deep_view()),
{
    let marker = String::from_str("rust_begin_unwind");
    let ghost raw = frames.deep_view();
    let mut frames = frames;
    let mut at: usize = 0;
    proof {
        lemma_first_marker(raw);
    }
    while at < frames.len() && frames[at] != marker
        invariant
            at <= frames.len(),
            frames.deep_view() == raw,
            marker@ == unwind_marker(),
            forall|i: int| 0 <= i < at ==> raw[i] != unwind_marker(),
        decreases frames.len() - at,
    {
        assert(raw[at as int] == frames[at as int]@);
        at += 1;
    }
    proof {
        if at < frames.len() {
            assert(raw[at as int] == frames[at as int]@);
        }
        assert(at == first_marker(raw));
    }
    if at < frames.len() {
        let kept = frames.split_off(at + 1);
        assert(kept.deep_view() =~= raw.skip(at as int + 1));
        kept
    } else {
        frames
    }
}

} // verus!
