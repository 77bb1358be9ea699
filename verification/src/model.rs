//! The record and sum types that make up a package manifest.

use vstd::prelude::*;

use crate::json::Json;
use crate::json::JsonView;
use crate::json::fields_view;

verus! {

/// An ordered map for `bin` entries.
pub type BinSet = Vec<(String, String)>;

/// An ordered map for `dependencies` entries.
pub type DepsSet = Vec<(String, String)>;

/// An ordered map for `engines` entries.
pub type EnginesSet = Vec<(String, String)>;

/// An ordered map for `scripts` entries.
pub type ScriptsSet = Vec<(String, String)>;

/// The view of a sequence of strings.
pub open spec fn strs_view(v: Seq<String>) -> Seq<Seq<char>> {
    v.map_values(|s: String| s@)
}

/// The view of a sequence of map entries.
pub open spec fn pairs_view(v: Seq<(String, String)>) -> Seq<(Seq<char>, Seq<char>)> {
    v.map_values(|p: (String, String)| (p.0@, p.1@))
}

/// The view of an optional string.
pub open spec fn opt_str_view(o: Option<String>) -> Option<Seq<char>> {
    match o {
        Some(s) => Some(s@),
        None => None,
    }
}

/// The model of a bug contacting form.
pub struct BugView {
    pub email: Option<Seq<char>>,
    pub url: Option<Seq<char>>,
}

/// A bug contacting form.
#[derive(Clone, Debug, PartialEq, Eq)]
pub struct Bug {
    /// The email to use for contact.
    pub email: Option<String>,
    /// The url to use to submit bugs.
    pub url: Option<String>,
}

impl View for Bug {
    type V = BugView;

    open spec fn view(&self) -> BugView {
        BugView { email: opt_str_view(self.email), url: opt_str_view(self.url) }
    }
}

/// The model of a person.
pub struct PersonView {
    pub name: Seq<char>,
    pub email: Option<Seq<char>>,
    pub url: Option<Seq<char>>,
}

/// A person.
#[derive(Clone, Debug, PartialEq, Eq)]
pub struct Person {
    /// The name of a person.
    pub name: String,
    /// The email of a person.
    pub email: Option<String>,
    /// The homepage of the person.
    pub url: Option<String>,
}

impl View for Person {
    type V = PersonView;

    open spec fn view(&self) -> PersonView {
        PersonView {
            name: self.name@,
            email: opt_str_view(self.email),
            url: opt_str_view(self.url),
        }
    }
}

/// The model of a reference to a person.
pub enum PersonReferenceView {
    Short(Seq<char>),
    Full(PersonView),
}

/// A reference to a person.
#[derive(Clone, Debug, PartialEq, Eq)]
pub enum PersonReference {
    /// A short reference.
    ///
    /// Short references have a fixed format of `John Doe <john@doe.dev>
    /// (https://john.doe.dev)`. The text is kept opaque; the library does not
    /// take it apart.
    Short(String),
    /// A full reference, with the parts spelled out as a record.
    Full(Person),
}

impl View for PersonReference {
    type V = PersonReferenceView;

    open spec fn view(&self) -> PersonReferenceView {
        match self {
            PersonReference::Short(s) => PersonReferenceView::Short(s@),
            PersonReference::Full(p) => PersonReferenceView::Full(p@),
        }
    }
}

/// The view of a sequence of person references.
pub open spec fn refs_view(v: Seq<PersonReference>) -> Seq<PersonReferenceView> {
    v.map_values(|r: PersonReference| r@)
}

/// The view of an optional person reference.
pub open spec fn opt_ref_view(o: Option<PersonReference>) -> Option<PersonReferenceView> {
    match o {
        Some(r) => Some(r@),
        None => None,
    }
}

/// The model of a reference to a man page.
pub enum ManReferenceView {
    Single(Seq<char>),
    Multiple(Seq<Seq<char>>),
}

/// A reference to a man page.
#[derive(Clone, Debug, PartialEq, Eq)]
pub enum ManReference {
    /// A single man page reference. Points to one single file.
    Single(String),
    /// Multiple man pages, can contain anything from zero to n.
    Multiple(Vec<String>),
}

impl View for ManReference {
    type V = ManReferenceView;

    open spec fn view(&self) -> ManReferenceView {
        match self {
            ManReference::Single(s) => ManReferenceView::Single(s@),
            ManReference::Multiple(v) => ManReferenceView::Multiple(strs_view(v@)),
        }
    }
}

/// The view of an optional man page reference.
pub open spec fn opt_man_view(o: Option<ManReference>) -> Option<ManReferenceView> {
    match o {
        Some(m) => Some(m@),
        None => None,
    }
}

/// The model of a repository.
pub struct RepositoryView {
    pub vcs: Seq<char>,
    pub url: Seq<char>,
}

/// A repository.
///
/// The version control system is stored in the document under the key
/// `type`; that word is a keyword here, so the field is called `vcs`.
#[derive(Clone, Debug, PartialEq, Eq)]
pub struct Repository {
    /// The version control system that the repository uses.
    pub vcs: String,
    /// The url to the repository.
    pub url: String,
}

impl View for Repository {
    type V = RepositoryView;

    open spec fn view(&self) -> RepositoryView {
        RepositoryView { vcs: self.vcs@, url: self.url@ }
    }
}

/// The model of a repository reference.
pub enum RepositoryReferenceView {
    Short(Seq<char>),
    Full(RepositoryView),
}

/// A repository reference.
#[derive(Clone, Debug, PartialEq, Eq)]
pub enum RepositoryReference {
    /// A short reference to the repository, in the syntax that installers
    /// accept. The text is kept opaque.
    Short(String),
    /// A full reference.
    Full(Repository),
}

impl View for RepositoryReference {
    type V = RepositoryReferenceView;

    open spec fn view(&self) -> RepositoryReferenceView {
        match self {
            RepositoryReference::Short(s) => RepositoryReferenceView::Short(s@),
            RepositoryReference::Full(r) => RepositoryReferenceView::Full(r@),
        }
    }
}

/// The view of an optional repository reference.
pub open spec fn opt_repo_view(o: Option<RepositoryReference>) -> Option<
    RepositoryReferenceView,
> {
    match o {
        Some(r) => Some(r@),
        None => None,
    }
}

/// The view of an optional bug form.
pub open spec fn opt_bug_view(o: Option<Bug>) -> Option<BugView> {
    match o {
        Some(b) => Some(b@),
        None => None,
    }
}

/// The model of a package manifest.
pub struct PackageView {
    pub name: Seq<char>,
    pub version: Seq<char>,
    pub description: Option<Seq<char>>,
    pub keywords: Seq<Seq<char>>,
    pub homepage: Option<Seq<char>>,
    pub bugs: Option<BugView>,
    pub license: Option<Seq<char>>,
    pub author: Option<PersonReferenceView>,
    pub contributors: Seq<PersonReferenceView>,
    pub files: Seq<Seq<char>>,
    pub main: Option<Seq<char>>,
    pub browser: Option<Seq<char>>,
    pub bin: Seq<(Seq<char>, Seq<char>)>,
    pub man: Option<ManReferenceView>,
    pub repository: Option<RepositoryReferenceView>,
    pub scripts: Seq<(Seq<char>, Seq<char>)>,
    pub dependencies: Seq<(Seq<char>, Seq<char>)>,
    pub dev_dependencies: Seq<(Seq<char>, Seq<char>)>,
    pub peer_dependencies: Seq<(Seq<char>, Seq<char>)>,
    pub bundled_dependencies: Seq<(Seq<char>, Seq<char>)>,
    pub optional_dependencies: Seq<(Seq<char>, Seq<char>)>,
    pub engines: Seq<(Seq<char>, Seq<char>)>,
    pub private: bool,
    pub others: Seq<(Seq<char>, JsonView)>,
}

/// The top-level `package.json` structure.
#[derive(Clone, Debug, PartialEq, Eq)]
pub struct Package {
    /// The package name.
    pub name: String,
    /// The package version.
    pub version: String,
    /// The optional package description.
    pub description: Option<String>,
    /// The optional list of keywords.
    pub keywords: Vec<String>,
    /// The optional package homepage.
    pub homepage: Option<String>,
    /// The optional bug contact form.
    pub bugs: Option<Bug>,
    /// The optional package license.
    pub license: Option<String>,
    /// The optional author.
    pub author: Option<PersonReference>,
    /// The optional list of contributors.
    pub contributors: Vec<PersonReference>,
    /// The optional list of files to include. Each entry defines a regex
    /// pattern.
    pub files: Vec<String>,
    /// The optional package main entry file.
    pub main: Option<String>,
    /// The optional package browser entry file.
    ///
    /// This is usually defined in libraries that are meant to be consumed by
    /// browsers, which can refer to objects that are not available on a
    /// server (like `window`).
    pub browser: Option<String>,
    /// The optional set of binary definitions.
    pub bin: BinSet,
    /// The optional list of man page references.
    pub man: Option<ManReference>,
    /// The optional repository reference.
    pub repository: Option<RepositoryReference>,
    /// The optional list of script entries.
    pub scripts: ScriptsSet,
    /// The optional list of dependencies.
    pub dependencies: DepsSet,
    /// The optional list of development dependencies.
    pub dev_dependencies: DepsSet,
    /// The optional list of peer dependencies.
    pub peer_dependencies: DepsSet,
    /// The optional list of bundled dependencies.
    pub bundled_dependencies: DepsSet,
    /// The optional list of optional dependencies.
    pub optional_dependencies: DepsSet,
    /// The optional list of engine entries.
    pub engines: EnginesSet,
    /// The package privacy.
    pub private: bool,
    /// Other custom fields that have been defined inside the `package.json`
    /// file, keyed by their original name and kept verbatim.
    pub others: Vec<(String, Json)>,
}

impl View for Package {
    type V = PackageView;

    open spec fn view(&self) -> PackageView {
        PackageView {
            name: self.name@,
            version: self.version@,
            description: opt_str_view(self.description),
            keywords: strs_view(self.keywords@),
            homepage: opt_str_view(self.homepage),
            bugs: opt_bug_view(self.bugs),
            license: opt_str_view(self.license),
            author: opt_ref_view(self.author),
            contributors: refs_view(self.contributors@),
            files: strs_view(self.files@),
            main: opt_str_view(self.main),
            browser: opt_str_view(self.browser),
            bin: pairs_view(self.bin@),
            man: opt_man_view(self.man),
            repository: opt_repo_view(self.repository),
            scripts: pairs_view(self.scripts@),
            dependencies: pairs_view(self.dependencies@),
            dev_dependencies: pairs_view(self.dev_dependencies@),
            peer_dependencies: pairs_view(self.peer_dependencies@),
            bundled_dependencies: pairs_view(self.bundled_dependencies@),
            optional_dependencies: pairs_view(self.optional_dependencies@),
            engines: pairs_view(self.engines@),
            private: self.private,
            others: fields_view(self.others@),
        }
    }
}

/// The model of a manifest with nothing filled in.
pub open spec fn package_default_view() -> PackageView {
    PackageView {
        name: Seq::empty(),
        version: Seq::empty(),
        description: None,
        keywords: Seq::empty(),
        homepage: None,
        bugs: None,
        license: None,
        author: None,
        contributors: Seq::empty(),
        files: Seq::empty(),
        main: None,
        browser: None,
        bin: Seq::empty(),
        man: None,
        repository: None,
        scripts: Seq::empty(),
        dependencies: Seq::empty(),
        dev_dependencies: Seq::empty(),
        peer_dependencies: Seq::empty(),
        bundled_dependencies: Seq::empty(),
        optional_dependencies: Seq::empty(),
        engines: Seq::empty(),
        private: false,
        others: Seq::empty(),
    }
}

impl Default for Bug {
    /// An empty bug form.
    fn default() -> (r: Bug)
        ensures
            r@ == (BugView { email: None, url: None }),
    {
        Bug { email: None, url: None }
    }
}

impl Default for Person {
    /// A person with an empty name and no contact data.
    fn default() -> (r: Person)
        ensures
            r@ == (PersonView { name: Seq::<char>::empty(), email: None, url: None }),
    {
        Person { name: String::new(), email: None, url: None }
    }
}

impl Default for Repository {
    /// A repository with empty coordinates.
    fn default() -> (r: Repository)
        ensures
            r@ == (RepositoryView { vcs: Seq::<char>::empty(), url: Seq::<char>::empty() }),
    {
        Repository { vcs: String::new(), url: String::new() }
    }
}

impl Default for Package {
    /// A manifest with nothing filled in.
    fn default() -> (r: Package)
        ensures
            r@ == package_default_view(),
    {
        let r = Package {
            name: String::new(),
            version: String::new(),
            description: None,
            keywords: Vec::new(),
            homepage: None,
            bugs: None,
            license: None,
            author: None,
            contributors: Vec::new(),
            files: Vec::new(),
            main: None,
            browser: None,
            bin: Vec::new(),
            man: None,
            repository: None,
            scripts: Vec::new(),
            dependencies: Vec::new(),
            dev_dependencies: Vec::new(),
            peer_dependencies: Vec::new(),
            bundled_dependencies: Vec::new(),
            optional_dependencies: Vec::new(),
            engines: Vec::new(),
            private: false,
            others: Vec::new(),
        };
        proof {
            assert(strs_view(r.keywords@) =~= Seq::<Seq<char>>::empty());
            assert(refs_view(r.contributors@) =~= Seq::<PersonReferenceView>::empty());
            assert(strs_view(r.files@) =~= Seq::<Seq<char>>::empty());
            assert(pairs_view(r.bin@) =~= Seq::<(Seq<char>, Seq<char>)>::empty());
            assert(pairs_view(r.scripts@) =~= Seq::<(Seq<char>, Seq<char>)>::empty());
            assert(pairs_view(r.dependencies@) =~= Seq::<(Seq<char>, Seq<char>)>::empty());
            assert(pairs_view(r.dev_dependencies@) =~= Seq::<(Seq<char>, Seq<char>)>::empty());
            assert(pairs_view(r.peer_dependencies@) =~= Seq::<(Seq<char>, Seq<char>)>::empty());
            assert(pairs_view(r.bundled_dependencies@) =~= Seq::<(Seq<char>, Seq<char>)>::empty());
            assert(pairs_view(r.optional_dependencies@) =~= Seq::<(Seq<char>, Seq<char>)>::empty());
            assert(pairs_view(r.engines@) =~= Seq::<(Seq<char>, Seq<char>)>::empty());
            assert(fields_view(r.others@) =~= Seq::<(Seq<char>, JsonView)>::empty());
        }
        r
    }
}

} // verus!
