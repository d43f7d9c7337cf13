//! What holds of every traversal, whatever the walk and the reads bring.

use vstd::prelude::*;

use crate::binary::is_binary_content;
use crate::collector::{initial, lemma_after_keeps_wf, CollectorView, EventView, Request};
use crate::extension::extension_passes;
use crate::format::{content_block, contents, path_line, paths};
use crate::options::OptionsView;
use crate::report::{content_only_on_files, EntryView};

verus! {

/// The paths that a sequence of events visits, in order.
pub open spec fn visited_paths(events: Seq<EventView>) -> Seq<Seq<char>>
    decreases events.len(),
{
    if events.len() == 0 {
        Seq::empty()
    } else {
        let before = visited_paths(events.drop_last());
        match events.last() {
            EventView::Visited { path, .. } => before.push(path),
            _ => before,
        }
    }
}

/// An entry is settled once nothing is outstanding for it: it is not the
/// last one, or the collector waits for the next path.
pub open spec fn settled(state: CollectorView, k: int) -> bool {
    &&& 0 <= k < state.entries.len()
    &&& k < state.entries.len() - 1 || state.pending == Request::NextPath
}

/// Every sequence of events keeps a collector well-formed.
pub proof fn lemma_run_keeps_wf(state: CollectorView, events: Seq<EventView>)
    requires
        state.wf(),
    ensures
        state.run(events).wf(),
    decreases events.len(),
{
    if events.len() > 0 {
        lemma_run_keeps_wf(state, events.drop_last());
        lemma_after_keeps_wf(state.run(events.drop_last()), events.last());
    }
}

/// Events never change the options of a collector.
pub proof fn lemma_run_keeps_options(state: CollectorView, events: Seq<EventView>)
    ensures
        state.run(events).options == state.options,
    decreases events.len(),
{
    if events.len() > 0 {
        lemma_run_keeps_options(state, events.drop_last());
    }
}

/// A settled entry stays as it is, whatever comes after.
pub proof fn lemma_settled_entry_stays(state: CollectorView, k: int, events: Seq<EventView>)
    requires
        settled(state, k),
    ensures
        settled(state.run(events), k),
        state.run(events).entries[k] == state.entries[k],
    decreases events.len(),
{
    if events.len() > 0 {
        lemma_settled_entry_stays(state, k, events.drop_last());
    }
}

/// The report lists the paths that the walk visited and no others: one
/// entry for each visit, in the order of the walk.
pub proof fn lemma_report_lists_visited_paths(options: OptionsView, events: Seq<EventView>)
    ensures
        paths(initial(options).run(events).entries) == visited_paths(events),
    decreases events.len(),
{
    let start = initial(options);
    if events.len() == 0 {
        assert(paths(start.entries) =~= visited_paths(events));
    } else {
        let before = start.run(events.drop_last());
        lemma_report_lists_visited_paths(options, events.drop_last());
        lemma_run_keeps_wf(start, events.drop_last());
        assert(paths(before.after(events.last()).entries) =~= visited_paths(events));
    }
}

/// A file with a zero byte among its first `PROBE_LEN` bytes never gets
/// text, whatever the options are and whatever is read afterwards.
pub proof fn lemma_binary_file_stays_without_content(
    state: CollectorView,
    path: Seq<char>,
    bytes: Seq<u8>,
    rest: Seq<EventView>,
)
    requires
        state.wf(),
        is_binary_content(bytes),
    ensures
        ({
            let k = state.entries.len() as int;
            let end = state.after(EventView::Visited { path, is_file: true }).after(
                EventView::PrefixRead(Some(bytes)),
            ).run(rest);
            &&& k < end.entries.len()
            &&& end.entries[k].path == path
            &&& end.entries[k].content is None
        }),
{
    let k = state.entries.len() as int;
    let visited = state.after(EventView::Visited { path, is_file: true });
    let probed = visited.after(EventView::PrefixRead(Some(bytes)));
    lemma_settled_entry_stays(probed, k, rest);
}

/// A file that gets through the extension filters, is not binary and can be
/// read gets its text, while text is collected, and keeps it.
pub proof fn lemma_text_file_keeps_content(
    state: CollectorView,
    path: Seq<char>,
    bytes: Seq<u8>,
    text: Seq<char>,
    rest: Seq<EventView>,
)
    requires
        state.wf(),
        state.options.include_content,
        extension_passes(path, state.options.extensions),
        !is_binary_content(bytes),
    ensures
        ({
            let k = state.entries.len() as int;
            let end = state.after(EventView::Visited { path, is_file: true }).after(
                EventView::PrefixRead(Some(bytes)),
            ).after(EventView::TextRead(Some(text))).run(rest);
            &&& k < end.entries.len()
            &&& end.entries[k].path == path
            &&& end.entries[k].content == Some(text)
        }),
{
    let k = state.entries.len() as int;
    let visited = state.after(EventView::Visited { path, is_file: true });
    let probed = visited.after(EventView::PrefixRead(Some(bytes)));
    let read = probed.after(EventView::TextRead(Some(text)));
    lemma_settled_entry_stays(read, k, rest);
}

/// Only a file that gets through the extension filters ever has text: a
/// directory, or a file that the filters reject, is listed without.
pub proof fn lemma_content_only_on_selected_files(options: OptionsView, events: Seq<EventView>)
    ensures
        forall|i: int|
            #![trigger initial(options).run(events).entries[i]]
            0 <= i < initial(options).run(events).entries.len() && initial(options).run(
                events,
            ).entries[i].content is Some ==> {
                &&& initial(options).run(events).entries[i].kind is File
                &&& extension_passes(initial(options).run(events).entries[i].path, options.extensions)
            },
        content_only_on_files(initial(options).run(events).entries),
{
    lemma_run_keeps_wf(initial(options), events);
    lemma_run_keeps_options(initial(options), events);
}

/// While text is not collected no entry has any, whatever the tree holds.
pub proof fn lemma_no_content_when_disabled(options: OptionsView, events: Seq<EventView>)
    requires
        !options.include_content,
    ensures
        forall|i: int|
            0 <= i < initial(options).run(events).entries.len() ==> (#[trigger] initial(
                options,
            ).run(events).entries[i]).content is None,
{
    lemma_run_keeps_wf(initial(options), events);
    lemma_run_keeps_options(initial(options), events);
}

/// Where the walk starts, which ignore rules it honours and which layout is
/// asked for do not bear on what is collected: the same events give the same
/// entries.
pub proof fn lemma_entries_do_not_depend_on_format(
    a: OptionsView,
    b: OptionsView,
    events: Seq<EventView>,
)
    requires
        a.extensions == b.extensions,
        a.include_content == b.include_content,
    ensures
        initial(a).run(events).entries == initial(b).run(events).entries,
        initial(a).run(events).processed == initial(b).run(events).processed,
        initial(a).run(events).pending == initial(b).run(events).pending,
    decreases events.len(),
{
    if events.len() > 0 {
        lemma_entries_do_not_depend_on_format(a, b, events.drop_last());
        lemma_run_keeps_options(initial(a), events.drop_last());
        lemma_run_keeps_options(initial(b), events.drop_last());
    }
}

/// What the plain layout shows of the entries: for each one the path on its
/// line, and whether it has a block.
pub open spec fn shown_plain(entries: Seq<EntryView>) -> Set<(Seq<char>, bool)> {
    Set::new(
        |pair: (Seq<char>, bool)|
            exists|i: int|
                0 <= i < entries.len() && pair == (
                    #[trigger] path_line(entries[i]).drop_last(),
                    content_block(entries[i]).len() > 0,
                ),
    )
}

/// What the structured layout shows of the entries: for each record its
/// path, and whether its content is text and not null.
pub open spec fn shown_structured(entries: Seq<EntryView>) -> Set<(Seq<char>, bool)> {
    Set::new(
        |pair: (Seq<char>, bool)|
            exists|i: int|
                0 <= i < entries.len() && pair == (
                    #[trigger] paths(entries)[i],
                    contents(entries)[i] is Some,
                ),
    )
}

/// The two layouts of one report show the same pairs of a path and whether
/// text is there, and show them entry by entry in the same order.
pub proof fn lemma_layouts_show_same_entries(entries: Seq<EntryView>)
    ensures
        shown_plain(entries) == shown_structured(entries),
        paths(entries).len() == entries.len(),
        contents(entries).len() == entries.len(),
        forall|i: int|
            0 <= i < entries.len() ==> {
                &&& #[trigger] path_line(entries[i]).drop_last() == paths(entries)[i]
                &&& content_block(entries[i]).len() > 0 <==> contents(entries)[i] is Some
            },
{
    reveal_strlit("=== ");
    reveal_strlit("\n");
    assert forall|i: int| 0 <= i < entries.len() implies {
        &&& #[trigger] path_line(entries[i]).drop_last() == paths(entries)[i]
        &&& content_block(entries[i]).len() > 0 <==> contents(entries)[i] is Some
    } by {
        assert(path_line(entries[i]).drop_last() =~= entries[i].path);
        if entries[i].content is Some {
            assert(content_block(entries[i]).len() >= "=== "@.len());
        }
    }
    assert forall|pair: (Seq<char>, bool)| shown_plain(entries).contains(pair) implies shown_structured(
        entries,
    ).contains(pair) by {
        let i = choose|i: int|
            0 <= i < entries.len() && pair == (
                #[trigger] path_line(entries[i]).drop_last(),
                content_block(entries[i]).len() > 0,
            );
        assert(pair == (paths(entries)[i], contents(entries)[i] is Some));
    }
    assert forall|pair: (Seq<char>, bool)| shown_structured(entries).contains(pair) implies shown_plain(
        entries,
    ).contains(pair) by {
        let i = choose|i: int|
            0 <= i < entries.len() && pair == (
                #[trigger] paths(entries)[i],
                contents(entries)[i] is Some,
            );
        assert(pair == (path_line(entries[i]).drop_last(), content_block(entries[i]).len() > 0));
    }
}

} // verus!
