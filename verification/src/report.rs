//! The entries of a traversal, in the order the walk met them.

use vstd::prelude::*;

verus! {

/// What a visited path is.
#[derive(Clone, Copy, Debug, PartialEq, Eq, Structural)]
pub enum EntryKind {
    /// A regular file.
    File,
    /// Anything else; in practice a directory.
    Directory,
}

/// One visited path, with the text of the file where it was read.
#[derive(Clone, Debug, PartialEq, Eq)]
pub struct Entry {
    pub path: String,
    pub kind: EntryKind,
    pub content: Option<String>,
}

/// An entry as mathematical values.
pub struct EntryView {
    pub path: Seq<char>,
    pub kind: EntryKind,
    pub content: Option<Seq<char>>,
}

impl View for Entry {
    type V = EntryView;

    open spec fn view(&self) -> EntryView {
        EntryView { path: self.path@, kind: self.kind, content: self.content.deep_view() }
    }
}

/// The entries of a list as mathematical values.
pub open spec fn entry_views(entries: Seq<Entry>) -> Seq<EntryView> {
    entries.map_values(|e: Entry| e@)
}

/// Only files carry text.
pub open spec fn content_only_on_files(entries: Seq<EntryView>) -> bool {
    forall|i: int|
        0 <= i < entries.len() && (#[trigger] entries[i]).content is Some
            ==> entries[i].kind is File
}

/// The entries of a traversal. Only a collector fills a report.
pub struct Report {
    entries: Vec<Entry>,
}

impl View for Report {
    type V = Seq<EntryView>;

    closed spec fn view(&self) -> Seq<EntryView> {
        entry_views(self.entries@)
    }
}

impl Report {
    #[verifier::type_invariant]
    spec fn inv(self) -> bool {
        content_only_on_files(self@)
    }

    /// A report without entries.
    pub fn new() -> (report: Report)
        ensures
            report@ == Seq::<EntryView>::empty(),
    {
        let report = Report { entries: Vec::new() };
        report
    }

    /// The number of entries.
    pub fn len(&self) -> (n: usize)
        ensures
            n == self@.len(),
    {
        self.entries.len()
    }

    /// The entries, in the order the walk met them.
    pub fn entries(&self) -> (entries: &Vec<Entry>)
        ensures
            entry_views(entries@) == self@,
            content_only_on_files(self@),
    {
        proof {
            use_type_invariant(self);
        }
        &self.entries
    }

    /// Adds a path without text at the end.
    pub(crate) fn push_bare(&mut self, path: String, kind: EntryKind)
        ensures
            final(self)@ == old(self)@.push(EntryView { path: path@, kind, content: None }),
            final(self)@.len() <= usize::MAX,
    {
        proof {
            use_type_invariant(&*self);
        }
        // The list is taken out, changed and put back, so that the report
        // is never seen half-updated.
        let mut entries: Vec<Entry> = Vec::new();
        std::mem::swap(&mut self.entries, &mut entries);
        entries.push(Entry { path, kind, content: None });
        assert(entry_views(entries@) =~= old(self)@.push(
            EntryView { path: path@, kind, content: None },
        ));
        assert(entry_views(entries@).len() == entries.len());
        self.entries = entries;
    }

    /// Gives the last entry, a file, its text.
    pub(crate) fn set_last_content(&mut self, content: Option<String>)
        requires
            old(self)@.len() > 0,
            old(self)@.last().kind is File,
        ensures
            final(self)@ == old(self)@.update(
                old(self)@.len() - 1,
                EntryView { content: content.deep_view(), ..old(self)@.last() },
            ),
    {
        proof {
            use_type_invariant(&*self);
        }
        let mut entries: Vec<Entry> = Vec::new();
        std::mem::swap(&mut self.entries, &mut entries);
        let last = entries.pop();
        match last {
            Some(entry) => {
                let Entry { path, kind, content: _ } = entry;
                entries.push(Entry { path, kind, content });
            },
            None => {},
        }
        assert(entry_views(entries@) =~= old(self)@.update(
            old(self)@.len() - 1,
            EntryView { content: content.deep_view(), ..old(self)@.last() },
        ));
        self.entries = entries;
    }
}

} // verus!
