//! The collector: the decisions of a traversal, one event at a time.
//!
//! The caller walks the tree and reads the files; the collector says what to
//! read. After each event it answers with a [`Request`]: hand over the next
//! path, read the start of the file last visited, or read that file whole.
//! An event that answers no outstanding request changes nothing, and a visit
//! that comes while a read is outstanding leaves the earlier file without
//! text.

use vstd::prelude::*;

use crate::binary::{is_binary, is_binary_content};
use crate::extension::{extension_passes, matches_extension};
use crate::format::{format_report, rendered, FormatError};
use crate::options::{OptionsView, OutputFormat, TraversalOptions};
use crate::report::{EntryKind, EntryView, Report};

verus! {

/// What the collector needs next.
#[derive(Clone, Copy, Debug, PartialEq, Eq, Structural)]
pub enum Request {
    /// The next path of the walk.
    NextPath,
    /// The leading bytes of the file last visited, `PROBE_LEN` of them at most.
    ReadPrefix,
    /// The whole of the file last visited, as UTF-8 text.
    ReadText,
}

/// What the caller found out.
#[derive(Debug)]
pub enum Event {
    /// The walk has reached `path`; `is_file` says whether it is a regular file.
    Visited { path: String, is_file: bool },
    /// The leading bytes of the file last visited, or `None` where reading failed.
    PrefixRead(Option<Vec<u8>>),
    /// The text of the file last visited, or `None` where reading or decoding failed.
    TextRead(Option<String>),
}

/// An event as mathematical values.
pub enum EventView {
    Visited { path: Seq<char>, is_file: bool },
    PrefixRead(Option<Seq<u8>>),
    TextRead(Option<Seq<char>>),
}

impl View for Event {
    type V = EventView;

    open spec fn view(&self) -> EventView {
        match self {
            Event::Visited { path, is_file } => EventView::Visited { path: path@, is_file: *is_file },
            Event::PrefixRead(prefix) => EventView::PrefixRead(
                match prefix {
                    Some(bytes) => Some(bytes@),
                    None => None,
                },
            ),
            Event::TextRead(text) => EventView::TextRead(text.deep_view()),
        }
    }
}

/// Whether an error of the walk ends the run. An error at depth 0 concerns
/// the start of the walk itself and is fatal; an error further down, or one
/// without a depth, costs only the entry it concerns.
pub open spec fn is_fatal_depth(depth: Option<usize>) -> bool {
    depth == Some(0usize)
}

/// Decides whether an error that the walk reported at `depth` ends the run.
pub fn walk_error_is_fatal(depth: Option<usize>) -> (fatal: bool)
    ensures
        fatal == is_fatal_depth(depth),
{
    match depth {
        Some(d) => d == 0,
        None => false,
    }
}

/// The events of a list as mathematical values.
pub open spec fn event_views(events: Seq<Event>) -> Seq<EventView> {
    events.map_values(|e: Event| e@)
}

/// Whether an entry is a file that gets through the extension filters.
pub open spec fn selected(filters: Seq<Seq<char>>, entry: EntryView) -> bool {
    entry.kind is File && extension_passes(entry.path, filters)
}

/// How many of the entries are files that get through the extension filters.
pub open spec fn selected_count(filters: Seq<Seq<char>>, entries: Seq<EntryView>) -> nat
    decreases entries.len(),
{
    if entries.len() == 0 {
        0
    } else {
        let rest = selected_count(filters, entries.drop_last());
        if selected(filters, entries.last()) {
            rest + 1
        } else {
            rest
        }
    }
}

/// The state of a collector as mathematical values.
pub struct CollectorView {
    pub options: OptionsView,
    pub entries: Seq<EntryView>,
    pub processed: nat,
    pub pending: Request,
}

/// Options that ask for nothing: no start, no filters, no text.
pub open spec fn blank_options() -> OptionsView {
    OptionsView {
        start: Seq::empty(),
        respect_ignore: false,
        extensions: Seq::empty(),
        include_content: false,
        format: OutputFormat::Plain,
    }
}

/// The state of a collector before the walk.
pub open spec fn initial(options: OptionsView) -> CollectorView {
    CollectorView { options, entries: Seq::empty(), processed: 0, pending: Request::NextPath }
}

impl CollectorView {
    /// What holds of a collector in every state: the count of processed files
    /// is the number of selected entries; text sits only on selected files,
    /// and only while text is collected; and a read is outstanding only for
    /// the last entry, a selected file that has no text yet.
    pub open spec fn wf(self) -> bool {
        &&& self.processed == selected_count(self.options.extensions, self.entries)
        &&& forall|i: int|
            0 <= i < self.entries.len() && (#[trigger] self.entries[i]).content is Some ==> {
                &&& selected(self.options.extensions, self.entries[i])
                &&& self.options.include_content
            }
        &&& self.pending != Request::NextPath ==> {
            &&& self.entries.len() > 0
            &&& selected(self.options.extensions, self.entries.last())
            &&& self.entries.last().content is None
            &&& self.options.include_content
        }
    }

    /// The state after one event.
    ///
    /// A visit adds the path without text. If it is a file that gets through
    /// the extension filters it counts as processed, and if text is collected
    /// its leading bytes are asked for. Leading bytes that were read and are
    /// not binary lead on to the text; anything else settles the entry without
    /// text. The text, if it was read, goes to the entry.
    pub open spec fn after(self, event: EventView) -> CollectorView {
        match event {
            EventView::Visited { path, is_file } => {
                let kind = if is_file {
                    EntryKind::File
                } else {
                    EntryKind::Directory
                };
                let entry = EntryView { path, kind, content: None };
                let chosen = selected(self.options.extensions, entry);
                CollectorView {
                    options: self.options,
                    entries: self.entries.push(entry),
                    processed: if chosen {
                        self.processed + 1
                    } else {
                        self.processed
                    },
                    pending: if chosen && self.options.include_content {
                        Request::ReadPrefix
                    } else {
                        Request::NextPath
                    },
                }
            },
            EventView::PrefixRead(prefix) => {
                if self.pending == Request::ReadPrefix {
                    CollectorView {
                        pending: if prefix matches Some(bytes) && !is_binary_content(bytes) {
                            Request::ReadText
                        } else {
                            Request::NextPath
                        },
                        ..self
                    }
                } else {
                    self
                }
            },
            EventView::TextRead(text) => {
                if self.pending == Request::ReadText {
                    CollectorView {
                        entries: self.entries.update(
                            self.entries.len() - 1,
                            EntryView { content: text, ..self.entries.last() },
                        ),
                        pending: Request::NextPath,
                        ..self
                    }
                } else {
                    self
                }
            },
        }
    }

    /// The state after a sequence of events.
    pub open spec fn run(self, events: Seq<EventView>) -> CollectorView
        decreases events.len(),
    {
        if events.len() == 0 {
            self
        } else {
            self.run(events.drop_last()).after(events.last())
        }
    }
}

/// Adding an entry adds one to the count if the entry is selected.
pub proof fn lemma_selected_count_push(
    filters: Seq<Seq<char>>,
    entries: Seq<EntryView>,
    entry: EntryView,
)
    ensures
        selected_count(filters, entries.push(entry)) == selected_count(filters, entries) + (if selected(
            filters,
            entry,
        ) {
            1nat
        } else {
            0nat
        }),
{
    assert(entries.push(entry).drop_last() =~= entries);
}

/// No more entries are selected than there are.
pub proof fn lemma_selected_count_bound(filters: Seq<Seq<char>>, entries: Seq<EntryView>)
    ensures
        selected_count(filters, entries) <= entries.len(),
    decreases entries.len(),
{
    if entries.len() > 0 {
        lemma_selected_count_bound(filters, entries.drop_last());
    }
}

/// The text of the last entry does not bear on the count.
pub proof fn lemma_selected_count_ignores_content(
    filters: Seq<Seq<char>>,
    entries: Seq<EntryView>,
    content: Option<Seq<char>>,
)
    requires
        entries.len() > 0,
    ensures
        selected_count(
            filters,
            entries.update(entries.len() - 1, EntryView { content, ..entries.last() }),
        ) == selected_count(filters, entries),
{
    let changed = entries.update(entries.len() - 1, EntryView { content, ..entries.last() });
    assert(changed.drop_last() =~= entries.drop_last());
}

/// A collector starts out well-formed.
pub proof fn lemma_initial_wf(options: OptionsView)
    ensures
        initial(options).wf(),
{
}

/// Every event keeps a collector well-formed.
pub proof fn lemma_after_keeps_wf(state: CollectorView, event: EventView)
    requires
        state.wf(),
    ensures
        state.after(event).wf(),
{
    let next = state.after(event);
    let filters = state.options.extensions;
    match event {
        EventView::Visited { path, is_file } => {
            let entry = next.entries.last();
            lemma_selected_count_push(filters, state.entries, entry);
            assert forall|i: int|
                0 <= i < next.entries.len() && (#[trigger] next.entries[i]).content is Some implies selected(
                filters,
                next.entries[i],
            ) && next.options.include_content by {
                assert(next.entries[i] == state.entries[i]);
            }
        },
        EventView::PrefixRead(_) => {},
        EventView::TextRead(text) => {
            if state.pending == Request::ReadText {
                lemma_selected_count_ignores_content(
                    filters,
                    state.entries,
                    text,
                );
                assert forall|i: int|
                    0 <= i < next.entries.len() && (#[trigger] next.entries[i]).content is Some implies selected(
                    filters,
                    next.entries[i],
                ) && next.options.include_content by {
                    if i < state.entries.len() - 1 {
                        assert(next.entries[i] == state.entries[i]);
                    }
                }
            }
        },
    }
}

/// The collector of one traversal.
pub struct Collector {
    options: TraversalOptions,
    report: Report,
    processed: usize,
    pending: Request,
}

impl View for Collector {
    type V = CollectorView;

    closed spec fn view(&self) -> CollectorView {
        CollectorView {
            options: self.options@,
            entries: self.report@,
            processed: self.processed as nat,
            pending: self.pending,
        }
    }
}

impl Collector {
    #[verifier::type_invariant]
    spec fn inv(self) -> bool {
        self@.wf()
    }

    /// A collector that has seen nothing yet.
    pub fn new(options: TraversalOptions) -> (collector: Collector)
        ensures
            collector@ == initial(options@),
            collector@.wf(),
    {
        proof {
            lemma_initial_wf(options@);
        }
        Collector { options, report: Report::new(), processed: 0, pending: Request::NextPath }
    }

    /// A collector to stand in for one that is being worked on: it has seen
    /// nothing, and its options ask for nothing.
    fn blank() -> (collector: Collector)
        ensures
            collector@ == initial(blank_options()),
    {
        let options = TraversalOptions {
            start: String::new(),
            respect_ignore: false,
            extensions: Vec::new(),
            include_content: false,
            format: OutputFormat::Plain,
        };
        assert(options@.extensions =~= Seq::<Seq<char>>::empty());
        assert(options@ == blank_options());
        Collector::new(options)
    }

    /// Takes in one event and answers with what is needed next.
    pub fn step(&mut self, event: Event) -> (request: Request)
        ensures
            final(self)@ == old(self)@.after(event@),
            final(self)@.wf(),
            request == final(self)@.pending,
    {
        proof {
            use_type_invariant(&*self);
        }
        // The parts are updated apart from the collector and put back as a
        // whole, so that the collector is never seen half-updated.
        let mut taken = Collector::blank();
        std::mem::swap(self, &mut taken);
        let Collector { options, mut report, mut processed, mut pending } = taken;
        proof {
            let before = old(self)@;
            lemma_after_keeps_wf(before, event@);
            lemma_selected_count_bound(before.options.extensions, before.entries);
        }
        match event {
            Event::Visited { path, is_file } => {
                let chosen = is_file && matches_extension(
                    path.as_str(),
                    options.extensions.as_slice(),
                );
                let kind = if is_file {
                    EntryKind::File
                } else {
                    EntryKind::Directory
                };
                report.push_bare(path, kind);
                if chosen {
                    processed = processed + 1;
                }
                pending = if chosen && options.include_content {
                    Request::ReadPrefix
                } else {
                    Request::NextPath
                };
            },
            Event::PrefixRead(prefix) => {
                if pending == Request::ReadPrefix {
                    pending = match &prefix {
                        Some(bytes) => {
                            if is_binary(bytes.as_slice()) {
                                Request::NextPath
                            } else {
                                Request::ReadText
                            }
                        },
                        None => Request::NextPath,
                    };
                }
            },
            Event::TextRead(text) => {
                if pending == Request::ReadText {
                    report.set_last_content(text);
                    pending = Request::NextPath;
                }
            },
        }
        *self = Collector { options, report, processed, pending };
        pending
    }

    /// Takes in a sequence of events, one after the other, and answers with
    /// what is needed after the last.
    pub fn feed(&mut self, events: Vec<Event>) -> (request: Request)
        ensures
            final(self)@ == old(self)@.run(event_views(events@)),
            final(self)@.wf(),
            request == final(self)@.pending,
    {
        proof {
            use_type_invariant(&*self);
        }
        let ghost all = event_views(events@);
        for event in it: events
            invariant
                all == event_views(events@),
                self@ == old(self)@.run(all.take(it.index() as int)),
                self@.wf(),
        {
            proof {
                assert(all.take(it.index() + 1).drop_last() =~= all.take(it.index() as int));
            }
            self.step(event);
        }
        proof {
            assert(all.take(all.len() as int) =~= all);
        }
        self.pending()
    }

    /// What the collector is waiting for.
    pub fn pending(&self) -> (request: Request)
        ensures
            request == self@.pending,
            self@.wf(),
    {
        proof {
            use_type_invariant(self);
        }
        self.pending
    }

    /// The entries collected so far.
    pub fn report(&self) -> (report: &Report)
        ensures
            report@ == self@.entries,
            self@.wf(),
    {
        proof {
            use_type_invariant(self);
        }
        &self.report
    }

    /// How many files got through the extension filters so far.
    pub fn files_processed(&self) -> (n: usize)
        ensures
            n == self@.processed,
            self@.wf(),
    {
        proof {
            use_type_invariant(self);
        }
        self.processed
    }

    /// Renders what was collected so far in the layout that the options ask
    /// for.
    pub fn output(&self) -> (out: Result<String, FormatError>)
        ensures
            out matches Ok(text) && text@ == rendered(self@.entries, self@.options.format),
    {
        format_report(&self.report, self.options.format)
    }
}

} // verus!
