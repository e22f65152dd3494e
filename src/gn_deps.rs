use vstd::prelude::*;

use crate::cross::strings_view;

verus! {

/// The error of `toml::from_str`, carried as an opaque value.
#[verifier::external_type_specification]
#[verifier::external_body]
pub struct ExTomlError(toml::de::Error);

/// The `dependencies` section of a crate manifest, as far as reading the
/// names needs: absent, present but not a table, or the table's entries, each a
/// name with whether its value is a plain version string.
#[derive(Debug)]
pub enum DependencySection {
    Missing,
    NotTable,
    Entries(Vec<(String, bool)>),
}

/// A `DependencySection` as seen by contracts.
pub enum SectionView {
    Missing,
    NotTable,
    Entries(Seq<(Seq<char>, bool)>),
}

impl View for DependencySection {
    type V = SectionView;

    open spec fn view(&self) -> SectionView {
        match self {
            DependencySection::Missing => SectionView::Missing,
            DependencySection::NotTable => SectionView::NotTable,
            DependencySection::Entries(e) => SectionView::Entries(
                e@.map_values(|p: (String, bool)| (p.0@, p.1)),
            ),
        }
    }
}

/// The dependency section that the TOML parser finds in a manifest text, or
/// `None` when the text is not valid TOML.
pub uninterp spec fn toml_dependency_section(text: Seq<char>) -> Option<SectionView>;

/// No two entries of the section share a name.
pub open spec fn section_keys_distinct(s: SectionView) -> bool {
    match s {
        SectionView::Entries(e) => forall|i: int, j: int|
            0 <= i < j < e.len() ==> #[trigger] e[i].0 != #[trigger] e[j].0,
        _ => true,
    }
}

/// Relies on `toml::from_str` to parse the manifest into a `toml::Value`,
/// on `toml::Value::get` to find its top-level `dependencies` entry, and on
/// `toml::Value::is_str` to tell string values from the others. The
/// result depends on the text alone, and the entries of a table, kept in a
/// `BTreeMap`, have distinct keys.
#[verifier::external_body]
fn read_dependency_section(text: &str) -> (r: Result<DependencySection, toml::de::Error>)
    ensures
        match r {
            Ok(s) => toml_dependency_section(text@) == Some(s@) && section_keys_distinct(s@),
            Err(_) => toml_dependency_section(text@) is None,
        },
{
    let doc: toml::Value = toml::from_str(text)?;
    Ok(match doc.get("dependencies") {
        None => DependencySection::Missing,
        Some(toml::Value::Table(t)) => DependencySection::Entries(
            t.iter().map(|(k, v)| (k.clone(), v.is_str())).collect(),
        ),
        Some(_) => DependencySection::NotTable,
    })
}

/// Why the dependency names of a manifest could not be read.
#[derive(Debug)]
pub enum ManifestError {
    /// The text is not valid TOML.
    Parse,
    /// The manifest has no `dependencies` section.
    MissingSection,
    /// The `dependencies` section is not a table.
    NotATable,
    /// The named dependency's value is not a version string.
    NonStringDependency(String),
}

pub enum ManifestErrorView {
    Parse,
    MissingSection,
    NotATable,
    NonStringDependency(Seq<char>),
}

impl View for ManifestError {
    type V = ManifestErrorView;

    open spec fn view(&self) -> ManifestErrorView {
        match self {
            ManifestError::Parse => ManifestErrorView::Parse,
            ManifestError::MissingSection => ManifestErrorView::MissingSection,
            ManifestError::NotATable => ManifestErrorView::NotATable,
            ManifestError::NonStringDependency(k) => ManifestErrorView::NonStringDependency(k@),
        }
    }
}

pub open spec fn names_outcome(r: Result<Vec<String>, ManifestError>) -> Result<
    Seq<Seq<char>>,
    ManifestErrorView,
> {
    match r {
        Ok(v) => Ok(strings_view(v@)),
        Err(e) => Err(e@),
    }
}

/// The first entry at or after `i` whose value is not a string.
pub open spec fn first_non_string(e: Seq<(Seq<char>, bool)>, i: int) -> Option<int>
    decreases e.len() - i,
{
    if i < 0 || i >= e.len() {
        None
    } else if !e[i].1 {
        Some(i)
    } else {
        first_non_string(e, i + 1)
    }
}

/// The names that a dependency section declares, in its order; the whole
/// read fails on the first entry whose value is not a version string.
pub open spec fn names_spec(s: SectionView) -> Result<Seq<Seq<char>>, ManifestErrorView> {
    match s {
        SectionView::Missing => Err(ManifestErrorView::MissingSection),
        SectionView::NotTable => Err(ManifestErrorView::NotATable),
        SectionView::Entries(e) => match first_non_string(e, 0) {
            Some(i) => Err(ManifestErrorView::NonStringDependency(e[i].0)),
            None => Ok(e.map_values(|p: (Seq<char>, bool)| p.0)),
        },
    }
}

/// The names that the manifest text `text` declares as dependencies.
pub open spec fn manifest_names_spec(text: Seq<char>) -> Result<Seq<Seq<char>>, ManifestErrorView> {
    match toml_dependency_section(text) {
        None => Err(ManifestErrorView::Parse),
        Some(s) => names_spec(s),
    }
}

/// Checks a dependency section and lists its names.
pub fn dependency_names(section: &DependencySection) -> (r: Result<Vec<String>, ManifestError>)
    ensures
        names_outcome(r) == names_spec(section@),
{
    match section {
        DependencySection::Missing => Err(ManifestError::MissingSection),
        DependencySection::NotTable => Err(ManifestError::NotATable),
        DependencySection::Entries(entries) => {
            let ghost e = section@->Entries_0;
            let mut names: Vec<String> = Vec::new();
            let mut i: usize = 0;
            while i < entries.len()
                invariant
                    e == entries@.map_values(|p: (String, bool)| (p.0@, p.1)),
                    section@ == SectionView::Entries(e),
                    i <= entries.len(),
                    first_non_string(e, 0) == first_non_string(e, i as int),
                    names.len() == i,
                    forall|j: int| 0 <= j < i ==> #[trigger] names@[j]@ == e[j].0,
                decreases entries.len() - i,
            {
                assert(e[i as int] == (entries@[i as int].0@, entries@[i as int].1));
                if !entries[i].1 {
                    assert(first_non_string(e, i as int) == Some(i as int));
                    return Err(ManifestError::NonStringDependency(entries[i].0.clone()));
                }
                names.push(entries[i].0.clone());
                i = i + 1;
            }
            assert(strings_view(names@) =~= e.map_values(|p: (Seq<char>, bool)| p.0));
            Ok(names)
        },
    }
}

/// Reads the dependency names of a crate manifest: every entry of its
/// `dependencies` table, each of which must map to a version string.
pub fn get_dependency_names(manifest: &str) -> (r: Result<Vec<String>, ManifestError>)
    ensures
        names_outcome(r) == manifest_names_spec(manifest@),
        match r {
            Ok(v) => strings_view(v@).no_duplicates(),
            Err(_) => true,
        },
{
    match read_dependency_section(manifest) {
        Ok(section) => {
            let r = dependency_names(&section);
            proof {
                if r is Ok {
                    let e = section@->Entries_0;
                    let names = e.map_values(|p: (Seq<char>, bool)| p.0);
                    assert forall|i: int, j: int| 0 <= i < names.len() && 0 <= j < names.len()
                        && i != j implies names[i] != names[j] by {
                        if i < j {
                            assert(e[i].0 != e[j].0);
                        } else {
                            assert(e[j].0 != e[i].0);
                        }
                    }
                }
            }
            r
        },
        Err(_) => Err(ManifestError::Parse),
    }
}

} // verus!
