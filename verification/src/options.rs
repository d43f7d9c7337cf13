//! What a run is asked to do.

use vstd::prelude::*;

verus! {

/// The layout of the listing.
#[derive(Clone, Copy, Debug, PartialEq, Eq, Structural)]
pub enum OutputFormat {
    /// A header, the visited paths, and a block of text for each file read.
    Plain,
    /// A list of records, one for each visited path.
    Structured,
}

/// The options of one traversal.
#[derive(Clone, Debug)]
pub struct TraversalOptions {
    /// The directory the walk starts from.
    pub start: String,
    /// Whether the walk honours ignore rules: hidden entries and ignore files.
    pub respect_ignore: bool,
    /// The extensions whose files are read; empty for every file.
    pub extensions: Vec<String>,
    /// Whether the text of files is collected at all.
    pub include_content: bool,
    /// The layout of the listing.
    pub format: OutputFormat,
}

/// The options as mathematical values.
pub struct OptionsView {
    pub start: Seq<char>,
    pub respect_ignore: bool,
    pub extensions: Seq<Seq<char>>,
    pub include_content: bool,
    pub format: OutputFormat,
}

impl View for TraversalOptions {
    type V = OptionsView;

    open spec fn view(&self) -> OptionsView {
        OptionsView {
            start: self.start@,
            respect_ignore: self.respect_ignore,
            extensions: self.extensions.deep_view(),
            include_content: self.include_content,
            format: self.format,
        }
    }
}

/// The filters of a directory walk, each one switched on or off.
#[derive(Clone, Copy, Debug, PartialEq, Eq, Structural)]
pub struct WalkFilters {
    /// Skip hidden files and directories.
    pub hidden: bool,
    /// Read ignore files of the directories above the start.
    pub parents: bool,
    /// Honour `.ignore` files.
    pub ignore: bool,
    /// Honour `.gitignore` files.
    pub git_ignore: bool,
    /// Honour the user's global gitignore file.
    pub git_global: bool,
    /// Honour `.git/info/exclude` files.
    pub git_exclude: bool,
}

/// The filters that a walk runs with: all of the standard ones while ignore
/// rules are respected, and none of them otherwise, so that hidden entries
/// and entries that an ignore file excludes are then visited like any other.
pub open spec fn filters_for(respect_ignore: bool) -> WalkFilters {
    WalkFilters {
        hidden: respect_ignore,
        parents: respect_ignore,
        ignore: respect_ignore,
        git_ignore: respect_ignore,
        git_global: respect_ignore,
        git_exclude: respect_ignore,
    }
}

impl TraversalOptions {
    /// The filters that the walk for these options runs with.
    pub fn walk_filters(&self) -> (filters: WalkFilters)
        ensures
            filters == filters_for(self.respect_ignore),
    {
        WalkFilters {
            hidden: self.respect_ignore,
            parents: self.respect_ignore,
            ignore: self.respect_ignore,
            git_ignore: self.respect_ignore,
            git_global: self.respect_ignore,
            git_exclude: self.respect_ignore,
        }
    }
}

} // verus!
