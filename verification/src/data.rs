use vstd::prelude::*;

verus! {

/// Mathematical view of one dependency entry: the dependency's name and its
/// version-requirement expression, both opaque character sequences.
#[verifier::ext_equal]
pub struct DepEntryView {
    pub name: Seq<char>,
    pub requirements: Seq<char>,
}

/// One development-time dependency of a package: its name and its
/// version-requirement expression, both opaque strings at this layer.
#[derive(Debug, PartialEq, Eq)]
pub struct GemDevDeps {
    pub name: String,
    pub requirements: String,
}

impl View for GemDevDeps {
    type V = DepEntryView;

    open spec fn view(&self) -> DepEntryView {
        DepEntryView { name: self.name@, requirements: self.requirements@ }
    }
}

impl DeepView for GemDevDeps {
    type V = DepEntryView;

    open spec fn deep_view(&self) -> DepEntryView {
        self.view()
    }
}

/// One runtime dependency of a package: its name and its
/// version-requirement expression, both opaque strings at this layer.
#[derive(Debug, PartialEq, Eq)]
pub struct GemRunDeps {
    pub name: String,
    pub requirements: String,
}

impl View for GemRunDeps {
    type V = DepEntryView;

    open spec fn view(&self) -> DepEntryView {
        DepEntryView { name: self.name@, requirements: self.requirements@ }
    }
}

impl DeepView for GemRunDeps {
    type V = DepEntryView;

    open spec fn deep_view(&self) -> DepEntryView {
        self.view()
    }
}

/// Mathematical view of a package's dependency lists. `None` records that
/// the server omitted the list (or sent null), which is distinct from an
/// empty list.
#[verifier::ext_equal]
pub struct GemDepsView {
    pub development: Option<Seq<DepEntryView>>,
    pub runtime: Option<Seq<DepEntryView>>,
}

/// A package's dependency lists: development-time and runtime dependencies,
/// each in server-provided order. A list the server omitted (or sent as
/// null) is `None`, never coerced to an empty list.
#[derive(Debug, PartialEq, Eq)]
pub struct GemDeps {
    pub development: Option<Vec<GemDevDeps>>,
    pub runtime: Option<Vec<GemRunDeps>>,
}

impl View for GemDeps {
    type V = GemDepsView;

    open spec fn view(&self) -> GemDepsView {
        GemDepsView {
            development: self.development.deep_view(),
            runtime: self.runtime.deep_view(),
        }
    }
}

impl DeepView for GemDeps {
    type V = GemDepsView;

    open spec fn deep_view(&self) -> GemDepsView {
        self.view()
    }
}

/// Mathematical view of a package's published metadata.
#[verifier::ext_equal]
pub struct GemInfoView {
    pub name: Seq<char>,
    pub authors: Seq<char>,
    pub version: Seq<char>,
    pub info: Option<Seq<char>>,
    pub licenses: Option<Seq<Seq<char>>>,
    pub project_uri: Seq<char>,
    pub gem_uri: Seq<char>,
    pub homepage_uri: Option<Seq<char>>,
    pub wiki_uri: Option<Seq<char>>,
    pub documentation_uri: Option<Seq<char>>,
    pub dependencies: GemDepsView,
    pub sha: Seq<char>,
}

/// An immutable snapshot of one package's published metadata, as decoded
/// from the registry's JSON response. A field typed `Option` is `None`
/// exactly where the server omitted it or sent null.
#[derive(Debug, PartialEq, Eq)]
pub struct GemInfo {
    pub name: String,
    pub authors: String,
    pub version: String,
    pub info: Option<String>,
    pub licenses: Option<Vec<String>>,
    pub project_uri: String,
    pub gem_uri: String,
    pub homepage_uri: Option<String>,
    pub wiki_uri: Option<String>,
    pub documentation_uri: Option<String>,
    pub dependencies: GemDeps,
    pub sha: String,
}

impl View for GemInfo {
    type V = GemInfoView;

    open spec fn view(&self) -> GemInfoView {
        GemInfoView {
            name: self.name@,
            authors: self.authors@,
            version: self.version@,
            info: self.info.deep_view(),
            licenses: self.licenses.deep_view(),
            project_uri: self.project_uri@,
            gem_uri: self.gem_uri@,
            homepage_uri: self.homepage_uri.deep_view(),
            wiki_uri: self.wiki_uri.deep_view(),
            documentation_uri: self.documentation_uri.deep_view(),
            dependencies: self.dependencies@,
            sha: self.sha@,
        }
    }
}

} // verus!
