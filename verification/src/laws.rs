//! The guarantees of the document-state transitions, stated and proved over
//! the spec-level transition functions of [`crate::editor`].
//!
//! The filesystem is modelled as a map from paths to file contents: a
//! successful write inserts the contents at the path, and a read returns the
//! contents stored at the path, if any. The shell's dialogs appear only
//! through their outcomes, exactly as in the transitions themselves.

use vstd::prelude::*;
use crate::editor::DocView;
use crate::editor::open_step;
use crate::editor::save_as_commit_step;
use crate::editor::save_as_write_of;
use crate::editor::save_bind_step;
use crate::editor::write_of;

verus! {

/// The filesystem after a successful full-file write.
pub open spec fn fs_write(
    fs: Map<Seq<char>, Seq<char>>,
    path: Seq<char>,
    contents: Seq<char>,
) -> Map<Seq<char>, Seq<char>> {
    fs.insert(path, contents)
}

/// What a full-file read returns: the stored contents, or nothing when the
/// path holds no file.
pub open spec fn fs_read(fs: Map<Seq<char>, Seq<char>>, path: Seq<char>) -> Option<Seq<char>> {
    if fs.dom().contains(path) {
        Option::Some(fs[path])
    } else {
        Option::None
    }
}

/// Round trip: writing the buffer to a chosen path through Save-As and then
/// opening that same path yields a buffer equal to what was written, with the
/// document bound to that path.
pub proof fn lemma_save_as_open_round_trip(
    d: DocView,
    fs: Map<Seq<char>, Seq<char>>,
    chosen: Seq<char>,
)
    ensures
        ({
            let w = save_as_write_of(d, Option::Some(chosen));
            let fs1 = fs_write(fs, w->Some_0.0, w->Some_0.1);
            let d1 = save_as_commit_step(d, chosen, true);
            let d2 = open_step(d1, Option::Some(chosen), fs_read(fs1, chosen));
            &&& d2.text == d.text
            &&& d2.path == Option::Some(chosen)
            &&& d2.pinned == d.pinned
        }),
{
}

/// A failed read leaves the document exactly as it was.
pub proof fn lemma_open_failure_no_change(d: DocView, chosen: Seq<char>)
    ensures
        open_step(d, Option::Some(chosen), Option::None) == d,
{
}

/// A cancelled Open dialog leaves the document exactly as it was, whatever a
/// read would have returned.
pub proof fn lemma_open_cancel_no_change(d: DocView, contents: Option<Seq<char>>)
    ensures
        open_step(d, Option::None, contents) == d,
{
}

/// Save on an unbound document whose destination prompt was cancelled leaves
/// the document unbound and asks for no write.
pub proof fn lemma_save_cancel_unbound(d: DocView)
    requires
        d.path is None,
    ensures
        save_bind_step(d, Option::None) == d,
        write_of(save_bind_step(d, Option::None)) is None,
{
}

/// Save on a bound document changes nothing and writes the whole buffer to
/// the bound path, whatever the prompt outcome (none is shown).
pub proof fn lemma_save_bound_writes_bound_path(
    d: DocView,
    p: Seq<char>,
    prompt: Option<Seq<char>>,
)
    requires
        d.path == Option::Some(p),
    ensures
        save_bind_step(d, prompt) == d,
        write_of(save_bind_step(d, prompt)) == Option::Some((p, d.text)),
{
}

/// The document after a run of consecutive Saves, each with its own prompt
/// outcome (Save's write changes no state, so only the binding steps count).
pub open spec fn run_saves(d: DocView, prompts: Seq<Option<Seq<char>>>) -> DocView
    decreases prompts.len(),
{
    if prompts.len() == 0 {
        d
    } else {
        run_saves(save_bind_step(d, prompts[0]), prompts.skip(1))
    }
}

/// However many times Save is invoked consecutively on a bound document, the
/// document — and with it the target path of every one of those writes — is
/// unchanged.
pub proof fn lemma_repeated_save_keeps_path(
    d: DocView,
    p: Seq<char>,
    prompts: Seq<Option<Seq<char>>>,
)
    requires
        d.path == Option::Some(p),
    ensures
        run_saves(d, prompts) == d,
    decreases prompts.len(),
{
    if prompts.len() > 0 {
        lemma_repeated_save_keeps_path(save_bind_step(d, prompts[0]), p, prompts.skip(1));
    }
}

/// Save-As goes by the prompt alone: on success the binding moves to the
/// newly chosen path, even when the document was already bound elsewhere, and
/// the buffer is untouched; on failure nothing changes.
pub proof fn lemma_save_as_rebinds(d: DocView, chosen: Seq<char>)
    ensures
        save_as_commit_step(d, chosen, true).path == Option::Some(chosen),
        save_as_commit_step(d, chosen, true).text == d.text,
        save_as_commit_step(d, chosen, true).pinned == d.pinned,
        save_as_commit_step(d, chosen, false) == d,
{
}

/// One tick's worth of document-state change, with every dialog and
/// filesystem outcome resolved. `Idle` is a tick on which no menu action
/// fired; Quit changes no document state and so needs no variant of its own.
pub enum TickEv {
    OpenOp { chosen: Option<Seq<char>>, contents: Option<Seq<char>> },
    SaveOp { prompt: Option<Seq<char>> },
    SaveAsOp { chosen: Option<Seq<char>>, write_ok: bool },
    EditOp { text: Seq<char> },
    PinOp { value: bool },
    Idle,
}

/// The document after one tick.
pub open spec fn tick_step(d: DocView, e: TickEv) -> DocView {
    match e {
        TickEv::OpenOp { chosen, contents } => open_step(d, chosen, contents),
        TickEv::SaveOp { prompt } => save_bind_step(d, prompt),
        TickEv::SaveAsOp { chosen, write_ok } => match chosen {
            Option::Some(p) => save_as_commit_step(d, p, write_ok),
            Option::None => d,
        },
        TickEv::EditOp { text } => DocView { text, ..d },
        TickEv::PinOp { value } => DocView { pinned: value, ..d },
        TickEv::Idle => d,
    }
}

/// The document after a run of ticks.
pub open spec fn run_ticks(d: DocView, evs: Seq<TickEv>) -> DocView
    decreases evs.len(),
{
    if evs.len() == 0 {
        d
    } else {
        run_ticks(tick_step(d, evs[0]), evs.skip(1))
    }
}

/// Once pinned, a document stays pinned through any run of ticks on which the
/// pin is not switched off.
pub proof fn lemma_pin_persists(d: DocView, evs: Seq<TickEv>)
    requires
        d.pinned,
        forall|j: int| 0 <= j < evs.len() ==> evs[j] != (TickEv::PinOp { value: false }),
    ensures
        run_ticks(d, evs).pinned,
    decreases evs.len(),
{
    if evs.len() > 0 {
        lemma_pin_persists(tick_step(d, evs[0]), evs.skip(1));
    }
}

/// Pinning and then ticking any number of times keeps the document pinned at
/// every intermediate tick — so the always-on-top hint, which the shell
/// re-derives from the pin flag on every tick, is issued on every one of
/// them — until the pin is switched off.
pub proof fn lemma_pin_hint_every_tick(d: DocView, evs: Seq<TickEv>)
    requires
        d.pinned,
        forall|j: int| 0 <= j < evs.len() ==> evs[j] != (TickEv::PinOp { value: false }),
    ensures
        forall|i: int| 0 <= i <= evs.len() ==> run_ticks(d, #[trigger] evs.take(i)).pinned,
{
    assert forall|i: int| 0 <= i <= evs.len() implies run_ticks(
        d,
        #[trigger] evs.take(i),
    ).pinned by {
        lemma_pin_persists(d, evs.take(i));
    }
}

} // verus!
