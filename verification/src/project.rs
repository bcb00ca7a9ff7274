//! The kind of project that a directory holds, told from the marker files
//! that lie directly in it.

use vstd::prelude::*;

verus! {

/// The label for a directory that holds no marker file.
pub open spec fn unknown_label() -> Seq<char> {
    "Unknown"@
}

/// The marker files with the label that each stands for, highest priority
/// first.
pub open spec fn markers() -> Seq<(Seq<char>, Seq<char>)> {
    seq![
        ("Cargo.toml"@, "Rust"@),
        ("package.json"@, "Node.js"@),
        ("requirements.txt"@, "Python"@),
        ("go.mod"@, "Go"@),
        ("pom.xml"@, "Maven"@),
        ("build.gradle"@, "Gradle"@),
        ("Makefile"@, "Make"@),
        ("Dockerfile"@, "Docker"@),
        ("tsconfig.json"@, "TypeScript"@),
        ("pyproject.toml"@, "Python"@),
    ]
}

/// The label of the first marker at or after position `from` that is among
/// `names`, or the label for none.
pub open spec fn label_from(names: Seq<Seq<char>>, from: nat) -> Seq<char>
    decreases markers().len() - from,
{
    if from >= markers().len() {
        unknown_label()
    } else if names.contains(markers()[from as int].0) {
        markers()[from as int].1
    } else {
        label_from(names, from + 1)
    }
}

/// The kind of project in a directory whose entries are `names`.
pub open spec fn project_type(names: Seq<Seq<char>>) -> Seq<char> {
    label_from(names, 0)
}

/// The marker that wins is the first one present: a marker that is among the
/// names, while none before it is, gives its label.
pub proof fn lemma_first_marker_wins(names: Seq<Seq<char>>, i: int)
    requires
        0 <= i < markers().len(),
        names.contains(markers()[i].0),
        forall|j: int| 0 <= j < i ==> !names.contains(#[trigger] markers()[j].0),
    ensures
        project_type(names) == markers()[i].1,
{
    lemma_label_skips_absent(names, 0, i as nat);
}

/// Where no marker is among the names, the kind is unknown.
pub proof fn lemma_no_marker_is_unknown(names: Seq<Seq<char>>)
    requires
        forall|j: int| 0 <= j < markers().len() ==> !names.contains(#[trigger] markers()[j].0),
    ensures
        project_type(names) == unknown_label(),
{
    lemma_label_skips_absent(names, 0, markers().len());
}

/// Markers that are not among the names do not change the label.
proof fn lemma_label_skips_absent(names: Seq<Seq<char>>, from: nat, to: nat)
    requires
        from <= to <= markers().len(),
        forall|j: int| from <= j < to ==> !names.contains(#[trigger] markers()[j].0),
    ensures
        label_from(names, from) == label_from(names, to),
    decreases to - from,
{
    if from < to {
        lemma_label_skips_absent(names, from + 1, to);
    }
}

/// The marker files and their labels as values, in the order of `markers`.
pub fn marker_table() -> (table: Vec<(&'static str, &'static str)>)
    ensures
        table@.len() == markers().len(),
        forall|i: int|
            0 <= i < table@.len() ==> (#[trigger] table@[i]).0@ == markers()[i].0 && table@[i].1@
                == markers()[i].1,
{
    let mut table: Vec<(&'static str, &'static str)> = Vec::new();
    table.push(("Cargo.toml", "Rust"));
    table.push(("package.json", "Node.js"));
    table.push(("requirements.txt", "Python"));
    table.push(("go.mod", "Go"));
    table.push(("pom.xml", "Maven"));
    table.push(("build.gradle", "Gradle"));
    table.push(("Makefile", "Make"));
    table.push(("Dockerfile", "Docker"));
    table.push(("tsconfig.json", "TypeScript"));
    table.push(("pyproject.toml", "Python"));
    table
}

/// Tells whether `wanted` is one of `names`.
fn is_among(names: &Vec<String>, wanted: &str) -> (found: bool)
    ensures
        found == names.deep_view().contains(wanted@),
{
    let wanted_name = String::from_str(wanted);
    let mut i: usize = 0;
    while i < names.len()
        invariant
            i <= names.len(),
            wanted_name@ == wanted@,
            forall|j: int| 0 <= j < i ==> names.deep_view()[j] != wanted@,
        decreases names.len() - i,
    {
        if names[i] == wanted_name {
            assert(names.deep_view()[i as int] == wanted@);
            return true;
        }
        i = i + 1;
    }
    false
}

/// The kind of project in a directory, given the names of what lies directly
/// in it: the label of the marker file of highest priority among them, or
/// "Unknown" where none of them is a marker file.
pub fn detect_project_type(names: &Vec<String>) -> (label: String)
    ensures
        label@ == project_type(names.deep_view()),
{
    let table = marker_table();
    let mut i: usize = 0;
    while i < table.len()
        invariant
            i <= table.len(),
            table@.len() == markers().len(),
            forall|k: int|
                0 <= k < table@.len() ==> (#[trigger] table@[k]).0@ == markers()[k].0
                    && table@[k].1@ == markers()[k].1,
            label_from(names.deep_view(), 0) == label_from(names.deep_view(), i as nat),
        decreases table.len() - i,
    {
        let (file, label) = table[i];
        if is_among(names, file) {
            return String::from_str(label);
        }
        i = i + 1;
    }
    String::from_str("Unknown")
}

} // verus!
