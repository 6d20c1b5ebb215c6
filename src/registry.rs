//! The catalog of tools: tool metadata, package tables, and loading a
//! catalog from the entries of a catalog document.

use vstd::prelude::*;

verus! {

/// The package-name table of `pairs`: each key maps to the value of its
/// last pair.
pub open spec fn spec_pairs_map(pairs: Seq<(String, String)>) -> Map<Seq<char>, Seq<char>>
    decreases pairs.len(),
{
    if pairs.len() == 0 {
        Map::empty()
    } else {
        spec_pairs_map(pairs.drop_last()).insert(pairs.last().0@, pairs.last().1@)
    }
}

/// Package names of a tool, keyed by package-manager key (`"pacman"`,
/// `"apt"`, `"dnf"`, `"homebrew"`, `"chocolatey"`, `"winget"`, `"aur"`,
/// `"default"`).
#[derive(Debug, Clone, PartialEq, Eq)]
pub struct PackageMap {
    pairs: Vec<(String, String)>,
}

impl View for PackageMap {
    type V = Map<Seq<char>, Seq<char>>;

    closed spec fn view(&self) -> Map<Seq<char>, Seq<char>> {
        spec_pairs_map(self.pairs@)
    }
}

impl PackageMap {
    /// An empty table.
    pub fn new() -> (r: Self)
        ensures
            r@ == Map::<Seq<char>, Seq<char>>::empty(),
    {
        PackageMap { pairs: Vec::new() }
    }

    /// The table holding `pairs`; a key given twice keeps its last value.
    pub fn from_pairs(pairs: Vec<(String, String)>) -> (r: Self)
        ensures
            r@ == spec_pairs_map(pairs@),
    {
        PackageMap { pairs }
    }

    /// The pairs this table was built from, in insertion order.
    pub fn pairs(&self) -> (r: &Vec<(String, String)>)
        ensures
            spec_pairs_map(r@) == self@,
    {
        &self.pairs
    }

    /// Sets the package name of `key` to `value`.
    pub fn insert(&mut self, key: String, value: String)
        ensures
            final(self)@ == old(self)@.insert(key@, value@),
    {
        let ghost before = self.pairs@;
        self.pairs.push((key, value));
        proof {
            assert(self.pairs@.drop_last() =~= before);
        }
    }

    /// The package name recorded under `key`.
    pub fn get(&self, key: &str) -> (r: Option<&String>)
        ensures
            r matches Some(v) ==> self@.contains_key(key@) && self@[key@] == v@,
            r is None ==> !self@.contains_key(key@),
    {
        let wanted = key.to_string();
        let mut i: usize = self.pairs.len();
        proof {
            assert(self.pairs@.take(i as int) =~= self.pairs@);
        }
        while i > 0
            invariant
                i <= self.pairs@.len(),
                wanted@ == key@,
                self@.contains_key(key@) == spec_pairs_map(self.pairs@.take(i as int)).contains_key(key@),
                self@.contains_key(key@) ==> self@[key@] == spec_pairs_map(self.pairs@.take(i as int))[key@],
            decreases i,
        {
            let j = i - 1;
            proof {
                assert(self.pairs@.take(i as int).drop_last() =~= self.pairs@.take(j as int));
                assert(self.pairs@.take(i as int).last() == self.pairs@[j as int]);
            }
            if self.pairs[j].0 == wanted {
                return Some(&self.pairs[j].1);
            }
            i = j;
        }
        proof {
            assert(self.pairs@.take(0) =~= Seq::<(String, String)>::empty());
        }
        None
    }

    /// Whether a package name is recorded under `key`.
    pub fn contains_key(&self, key: &str) -> (r: bool)
        ensures
            r == self@.contains_key(key@),
    {
        self.get(key).is_some()
    }
}

/// What kind of tool an entry describes.
#[derive(Debug, Clone, Copy, PartialEq, Eq, Hash, Structural)]
pub enum ToolType {
    Executable,
    Website,
}

/// Windows-specific metadata on how a tool runs.
#[derive(Debug, Clone, PartialEq, Eq)]
pub struct ToolWindowsMetadata {
    /// Candidate absolute paths of the tool's executable.
    pub exec_paths: Vec<String>,
}

impl ToolWindowsMetadata {
    /// No candidate paths.
    pub fn new() -> (r: Self)
        ensures
            r.exec_paths@.len() == 0,
    {
        ToolWindowsMetadata { exec_paths: Vec::new() }
    }
}

/// The kind of file a download link points at.
#[allow(clippy::upper_case_acronyms)]
#[derive(Debug, Clone, Copy, PartialEq, Eq, Structural)]
pub enum DownloadFileFormat {
    ZIP,
    Executable,
}

/// Where to download a tool from, and what kind of file it is.
#[derive(Debug, Clone, PartialEq, Eq)]
pub struct ToolDownloadInstructions {
    pub format: DownloadFileFormat,
    pub url: String,
}

/// Download instructions for a tool, per operating system.
#[derive(Debug, Clone, PartialEq, Eq)]
pub struct ToolPlatformDownloads {
    pub windows: Option<ToolDownloadInstructions>,
    pub macos: Option<ToolDownloadInstructions>,
    pub linux: Option<ToolDownloadInstructions>,
}

impl ToolPlatformDownloads {
    /// No download for any platform.
    pub fn new() -> (r: Self)
        ensures
            r.windows is None,
            r.macos is None,
            r.linux is None,
    {
        ToolPlatformDownloads { windows: None, macos: None, linux: None }
    }
}

/// Metadata describing one tool of a catalog: how to identify, display,
/// install and invoke it.
#[derive(Debug, Clone, PartialEq, Eq)]
pub struct ToolMetadata {
    /// The display name.
    pub name: String,
    /// Whether the tool is run as an executable or opened as a web page.
    pub kind: ToolType,
    /// The command that invokes the tool; unique within a catalog.
    pub command: String,
    /// Example invocations.
    pub examples: Vec<String>,
    /// A short description.
    pub description: String,
    /// A web page for the tool.
    pub url: Option<String>,
    /// Package names per package-manager key.
    pub packages: PackageMap,
    /// Windows-only fallback locations of the executable.
    pub windows: ToolWindowsMetadata,
    /// Download links per operating system.
    pub downloads: ToolPlatformDownloads,
}

/// Builds a [`ToolMetadata`] field by field; unset fields are empty.
pub struct ToolMetadataBuilder {
    tool: ToolMetadata,
}

impl ToolMetadata {
    /// A builder whose fields are all empty, of kind `Executable`.
    pub fn builder() -> (r: ToolMetadataBuilder)
        ensures
            r.spec_tool().name@.len() == 0,
            r.spec_tool().command@.len() == 0,
            r.spec_tool().description@.len() == 0,
            r.spec_tool().examples@.len() == 0,
            r.spec_tool().url is None,
            r.spec_tool().kind == ToolType::Executable,
            r.spec_tool().packages@ == Map::<Seq<char>, Seq<char>>::empty(),
            r.spec_tool().windows.exec_paths@.len() == 0,
            r.spec_tool().downloads == (ToolPlatformDownloads { windows: None, macos: None, linux: None }),
    {
        ToolMetadataBuilder {
            tool: ToolMetadata {
                name: String::new(),
                kind: ToolType::Executable,
                command: String::new(),
                examples: Vec::new(),
                description: String::new(),
                url: None,
                packages: PackageMap::new(),
                windows: ToolWindowsMetadata::new(),
                downloads: ToolPlatformDownloads::new(),
            },
        }
    }
}

impl ToolMetadataBuilder {
    /// The tool built so far.
    pub closed spec fn spec_tool(&self) -> ToolMetadata {
        self.tool
    }

    /// Sets the display name.
    pub fn name(self, name: String) -> (r: Self)
        ensures
            r.spec_tool() == (ToolMetadata { name, ..self.spec_tool() }),
    {
        ToolMetadataBuilder { tool: ToolMetadata { name, ..self.tool } }
    }

    /// Sets the command.
    pub fn command(self, command: String) -> (r: Self)
        ensures
            r.spec_tool() == (ToolMetadata { command, ..self.spec_tool() }),
    {
        ToolMetadataBuilder { tool: ToolMetadata { command, ..self.tool } }
    }

    /// Sets the kind.
    pub fn kind(self, kind: ToolType) -> (r: Self)
        ensures
            r.spec_tool() == (ToolMetadata { kind, ..self.spec_tool() }),
    {
        ToolMetadataBuilder { tool: ToolMetadata { kind, ..self.tool } }
    }

    /// Sets the description.
    pub fn description(self, description: String) -> (r: Self)
        ensures
            r.spec_tool() == (ToolMetadata { description, ..self.spec_tool() }),
    {
        ToolMetadataBuilder { tool: ToolMetadata { description, ..self.tool } }
    }

    /// Sets the example invocations.
    pub fn examples(self, examples: Vec<String>) -> (r: Self)
        ensures
            r.spec_tool() == (ToolMetadata { examples, ..self.spec_tool() }),
    {
        ToolMetadataBuilder { tool: ToolMetadata { examples, ..self.tool } }
    }

    /// Sets the web page.
    pub fn url(self, url: String) -> (r: Self)
        ensures
            r.spec_tool() == (ToolMetadata { url: Some(url), ..self.spec_tool() }),
    {
        ToolMetadataBuilder { tool: ToolMetadata { url: Some(url), ..self.tool } }
    }

    /// Sets the package names.
    pub fn packages(self, packages: PackageMap) -> (r: Self)
        ensures
            r.spec_tool() == (ToolMetadata { packages, ..self.spec_tool() }),
    {
        ToolMetadataBuilder { tool: ToolMetadata { packages, ..self.tool } }
    }

    /// Sets the Windows metadata.
    pub fn windows(self, windows: ToolWindowsMetadata) -> (r: Self)
        ensures
            r.spec_tool() == (ToolMetadata { windows, ..self.spec_tool() }),
    {
        ToolMetadataBuilder { tool: ToolMetadata { windows, ..self.tool } }
    }

    /// Sets the download links.
    pub fn downloads(self, downloads: ToolPlatformDownloads) -> (r: Self)
        ensures
            r.spec_tool() == (ToolMetadata { downloads, ..self.spec_tool() }),
    {
        ToolMetadataBuilder { tool: ToolMetadata { downloads, ..self.tool } }
    }

    /// The tool.
    pub fn build(self) -> (r: ToolMetadata)
        ensures
            r == self.spec_tool(),
    {
        self.tool
    }
}

/// What `str::trim` returns for `s`: `s` without its leading and trailing
/// Unicode white space.
pub uninterp spec fn trimmed_of(s: Seq<char>) -> Seq<char>;

/// Relies on `str::trim`: the text without leading and trailing white space.
#[verifier::external_body]
fn trim_text(s: &str) -> (r: String)
    ensures
        r@ == trimmed_of(s@),
{
    s.trim().to_string()
}

/// Whether `s` is empty or consists of white space only.
pub open spec fn spec_blank(s: Seq<char>) -> bool {
    trimmed_of(s).len() == 0
}

/// The key of a catalog document that holds a comment, not a tool.
pub open spec fn spec_reserved_key(command: Seq<char>) -> bool {
    command == "_comment"@
}

/// `packages` with `"default"` mapped to `command` unless it names a
/// default package already.
pub open spec fn spec_with_default(
    packages: Map<Seq<char>, Seq<char>>,
    command: Seq<char>,
) -> Map<Seq<char>, Seq<char>> {
    if packages.contains_key("default"@) {
        packages
    } else {
        packages.insert("default"@, command)
    }
}

/// One tool as a catalog document writes it, under its command key.
/// An empty `name` stands for a name that the document leaves out.
#[derive(Debug, Clone, PartialEq, Eq)]
pub struct CatalogEntry {
    pub command: String,
    pub name: String,
    pub description: String,
    pub examples: Vec<String>,
    pub url: Option<String>,
    pub packages: PackageMap,
    pub windows: ToolWindowsMetadata,
    pub downloads: ToolPlatformDownloads,
}

/// The entries of `entries` that describe tools, in order.
pub open spec fn spec_kept(entries: Seq<CatalogEntry>) -> Seq<CatalogEntry>
    decreases entries.len(),
{
    if entries.len() == 0 {
        Seq::empty()
    } else {
        let rest = spec_kept(entries.drop_last());
        if spec_reserved_key(entries.last().command@) {
            rest
        } else {
            rest.push(entries.last())
        }
    }
}

/// `tool` is what loading `entry` gives: the name falls back to the
/// command, the description is trimmed, a tool with a web page is a
/// website, and the default package falls back to the command.
pub open spec fn spec_tool_from_entry(tool: ToolMetadata, entry: CatalogEntry) -> bool {
    &&& tool.command == entry.command
    &&& tool.name@ == (if spec_blank(entry.name@) { entry.command@ } else { entry.name@ })
    &&& tool.description@ == trimmed_of(entry.description@)
    &&& tool.examples == entry.examples
    &&& tool.url == entry.url
    &&& tool.kind == (if entry.url is Some { ToolType::Website } else { ToolType::Executable })
    &&& tool.packages@ == spec_with_default(entry.packages@, entry.command@)
    &&& tool.windows == entry.windows
    &&& tool.downloads == entry.downloads
}

/// `entry` writes out `tool` field for field.
pub open spec fn spec_entry_from_tool(entry: CatalogEntry, tool: ToolMetadata) -> bool {
    &&& entry.command == tool.command
    &&& entry.name == tool.name
    &&& entry.description == tool.description
    &&& entry.examples == tool.examples
    &&& entry.url == tool.url
    &&& entry.packages == tool.packages
    &&& entry.windows == tool.windows
    &&& entry.downloads == tool.downloads
}

/// A tool as loading a catalog leaves it: its command is not the reserved
/// key, its name is not blank unless it is the command, and it names a
/// default package.
pub open spec fn spec_loaded_tool(tool: ToolMetadata) -> bool {
    &&& !spec_reserved_key(tool.command@)
    &&& (!spec_blank(tool.name@) || tool.name@ == tool.command@)
    &&& tool.packages@.contains_key("default"@)
}

/// A collection of tool definitions: the catalog.
#[derive(Debug, Clone, PartialEq, Eq)]
pub struct Toolkit {
    tools: Vec<ToolMetadata>,
}

impl View for Toolkit {
    type V = Seq<ToolMetadata>;

    closed spec fn view(&self) -> Seq<ToolMetadata> {
        self.tools@
    }
}

/// `toolkit` holds what loading `entries` gives, in order.
pub open spec fn spec_toolkit_from_entries(toolkit: Seq<ToolMetadata>, entries: Seq<CatalogEntry>) -> bool {
    &&& toolkit.len() == spec_kept(entries).len()
    &&& forall|i: int| 0 <= i < toolkit.len() ==> spec_tool_from_entry(#[trigger] toolkit[i], spec_kept(entries)[i])
}

/// `entries` writes out `toolkit`, in order.
pub open spec fn spec_entries_from_toolkit(entries: Seq<CatalogEntry>, toolkit: Seq<ToolMetadata>) -> bool {
    &&& entries.len() == toolkit.len()
    &&& forall|i: int| 0 <= i < entries.len() ==> spec_entry_from_tool(#[trigger] entries[i], toolkit[i])
}

impl Default for Toolkit {
    /// The built-in catalog, which holds no tools: a catalog is loaded
    /// with [`Toolkit::from_entries`].
    fn default() -> (r: Self)
        ensures
            r@.len() == 0,
    {
        Toolkit { tools: Vec::new() }
    }
}

impl Toolkit {
    /// A toolkit of `tools`, in order.
    pub fn new(tools: Vec<ToolMetadata>) -> (r: Self)
        ensures
            r@ == tools@,
    {
        Toolkit { tools }
    }

    /// The tools, in order.
    pub fn tools(&self) -> (r: &[ToolMetadata])
        ensures
            r@ == self@,
    {
        self.tools.as_slice()
    }

    /// Loads the entries of a catalog document, in order: the reserved
    /// `_comment` key is skipped, a blank name falls back to the command,
    /// descriptions are trimmed, a tool with a web page is a website, and a
    /// missing default package is the command.
    pub fn from_entries(entries: Vec<CatalogEntry>) -> (r: Self)
        ensures
            spec_toolkit_from_entries(r@, entries@),
            forall|i: int| 0 <= i < r@.len() ==> spec_loaded_tool(#[trigger] r@[i]),
    {
        let ghost all = entries@;
        let mut rest = entries;
        let mut tools: Vec<ToolMetadata> = Vec::new();
        let ghost mut k: int = 0;
        while rest.len() > 0
            invariant
                0 <= k,
                k + rest@.len() == all.len(),
                rest@ == all.subrange(k as int, all.len() as int),
                spec_toolkit_from_entries(tools@, all.take(k as int)),
                forall|i: int| 0 <= i < tools@.len() ==> spec_loaded_tool(#[trigger] tools@[i]),
            decreases rest@.len(),
        {
            let entry = rest.remove(0);
            proof {
                assert(all.take(k + 1).drop_last() =~= all.take(k as int));
                assert(all.take(k + 1).last() == entry);
                assert(rest@ =~= all.subrange(k + 1, all.len() as int));
            }
            let reserved = "_comment".to_string();
            if entry.command == reserved {
                proof {
                    assert(spec_kept(all.take(k + 1)) == spec_kept(all.take(k as int)));
                }
            } else {
                let tool = load_entry(entry);
                let ghost before = tools@;
                tools.push(tool);
                proof {
                    let kept = spec_kept(all.take(k + 1));
                    assert(kept == spec_kept(all.take(k as int)).push(entry));
                    assert forall|i: int| 0 <= i < tools@.len() implies spec_tool_from_entry(
                        #[trigger] tools@[i],
                        kept[i],
                    ) by {
                        if i < before.len() {
                            assert(tools@[i] == before[i]);
                        }
                    }
                }
            }
            proof {
                k = k + 1;
            }
        }
        proof {
            assert(all.take(k as int) =~= all);
        }
        Toolkit { tools }
    }

    /// Writes the toolkit out as catalog entries, in order.
    pub fn into_entries(self) -> (r: Vec<CatalogEntry>)
        ensures
            spec_entries_from_toolkit(r@, self@),
    {
        let ghost all = self.tools@;
        let mut rest = self.tools;
        let mut entries: Vec<CatalogEntry> = Vec::new();
        while rest.len() > 0
            invariant
                entries@.len() + rest@.len() == all.len(),
                rest@ == all.subrange(entries@.len() as int, all.len() as int),
                forall|i: int| 0 <= i < entries@.len() ==> spec_entry_from_tool(#[trigger] entries@[i], all[i]),
            decreases rest@.len(),
        {
            let ghost k = entries@.len() as int;
            let tool = rest.remove(0);
            proof {
                assert(tool == all[k]);
                assert(rest@ =~= all.subrange(k + 1, all.len() as int));
            }
            let ToolMetadata { name, kind: _, command, examples, description, url, packages, windows, downloads } = tool;
            entries.push(CatalogEntry { command, name, description, examples, url, packages, windows, downloads });
        }
        entries
    }
}

/// Loads one catalog entry that describes a tool.
fn load_entry(entry: CatalogEntry) -> (r: ToolMetadata)
    requires
        !spec_reserved_key(entry.command@),
    ensures
        spec_tool_from_entry(r, entry),
        spec_loaded_tool(r),
{
    let ghost e = entry;
    let CatalogEntry { command, name, description, examples, url, packages, windows, downloads } = entry;
    let trimmed_name = trim_text(name.as_str());
    let name = if trimmed_name.as_str().is_empty() {
        command.clone()
    } else {
        name
    };
    let description = trim_text(description.as_str());
    let kind = if url.is_some() {
        ToolType::Website
    } else {
        ToolType::Executable
    };
    let mut packages = packages;
    if !packages.contains_key("default") {
        packages.insert("default".to_string(), command.clone());
    }
    proof {
        assert(e.packages@ == packages@ || !e.packages@.contains_key("default"@));
    }
    ToolMetadata { name, kind, command, examples, description, url, packages, windows, downloads }
}

/// A catalog written out and loaded back gives the same tools: each keeps
/// its command, name, package names, download links, web page, examples
/// and Windows paths, in order.
pub proof fn lemma_catalog_round_trip(toolkit: Toolkit, entries: Seq<CatalogEntry>, reloaded: Toolkit)
    requires
        forall|i: int| 0 <= i < toolkit@.len() ==> spec_loaded_tool(#[trigger] toolkit@[i]),
        spec_entries_from_toolkit(entries, toolkit@),
        spec_toolkit_from_entries(reloaded@, entries),
    ensures
        reloaded@.len() == toolkit@.len(),
        forall|i: int| 0 <= i < reloaded@.len() ==> {
            &&& (#[trigger] reloaded@[i]).command == toolkit@[i].command
            &&& reloaded@[i].name@ == toolkit@[i].name@
            &&& reloaded@[i].packages@ == toolkit@[i].packages@
            &&& reloaded@[i].downloads == toolkit@[i].downloads
            &&& reloaded@[i].url == toolkit@[i].url
            &&& reloaded@[i].examples == toolkit@[i].examples
            &&& reloaded@[i].windows == toolkit@[i].windows
            &&& reloaded@[i].description@ == trimmed_of(toolkit@[i].description@)
        },
{
    lemma_kept_all(entries);
    assert forall|i: int| 0 <= i < reloaded@.len() implies {
        &&& (#[trigger] reloaded@[i]).command == toolkit@[i].command
        &&& reloaded@[i].name@ == toolkit@[i].name@
        &&& reloaded@[i].packages@ == toolkit@[i].packages@
    } by {
        assert(spec_entry_from_tool(entries[i], toolkit@[i]));
        assert(spec_loaded_tool(toolkit@[i]));
    }
}

/// Entries none of which has the reserved key are all kept.
proof fn lemma_kept_all(entries: Seq<CatalogEntry>)
    requires
        forall|i: int| 0 <= i < entries.len() ==> !spec_reserved_key((#[trigger] entries[i]).command@),
    ensures
        spec_kept(entries) == entries,
    decreases entries.len(),
{
    if entries.len() > 0 {
        let init = entries.drop_last();
        assert forall|i: int| 0 <= i < init.len() implies !spec_reserved_key((#[trigger] init[i]).command@) by {
            assert(init[i] == entries[i]);
        }
        lemma_kept_all(init);
        assert(!spec_reserved_key(entries[entries.len() - 1].command@));
        assert(init.push(entries.last()) =~= entries);
    }
}

} // verus!
