use vstd::prelude::*;
use crate::error::{SchemaProblem, SdistError};
use crate::manifest::DESCRIPTOR_FILE;
use crate::paths::{chars_of, join_path, joined, string_of};

verus! {

/// The key of the build system table in a project descriptor.
pub const BUILD_SYSTEM_KEY: &'static str = "build-system";

/// The key of the build requirements inside the build system table.
pub const REQUIRES_KEY: &'static str = "requires";

/// The key of the build backend inside the build system table.
pub const BUILD_BACKEND_KEY: &'static str = "build-backend";

/// A parsed descriptor document, holding what validation reads: strings,
/// arrays and tables, with every other kind of value lumped together.
#[derive(Debug)]
pub enum TomlValue {
    Text(String),
    Array(Vec<TomlValue>),
    /// Key and value pairs, in document order.
    Table(Vec<(String, TomlValue)>),
    /// A number, boolean or date.
    Scalar,
}

/// The `[build-system]` section of a project descriptor: the packages that
/// building needs, and the backend that performs the build.
#[derive(Debug, Clone)]
pub struct BuildSystem {
    requirements: Vec<String>,
    build_backend: String,
}

impl View for BuildSystem {
    type V = (Seq<Seq<char>>, Seq<char>);

    closed spec fn view(&self) -> (Seq<Seq<char>>, Seq<char>) {
        (self.requirements@.map_values(|s: String| s@), self.build_backend@)
    }
}

/// A project descriptor, of which only the build system is read.
#[derive(Debug, Clone)]
pub struct PyProjectToml {
    build_system: BuildSystem,
}

impl View for PyProjectToml {
    type V = (Seq<Seq<char>>, Seq<char>);

    closed spec fn view(&self) -> (Seq<Seq<char>>, Seq<char>) {
        self.build_system@
    }
}

/// The value of the first pair in `table` whose key is `key`.
pub open spec fn lookup(table: Seq<(String, TomlValue)>, key: Seq<char>) -> Option<TomlValue>
    decreases table.len(),
{
    if table.len() == 0 {
        None
    } else if table[0].0@ == key {
        Some(table[0].1)
    } else {
        lookup(table.drop_first(), key)
    }
}

/// Whether every item is a string.
pub open spec fn all_text(items: Seq<TomlValue>) -> bool {
    forall|i: int| 0 <= i < items.len() ==> #[trigger] items[i] is Text
}

/// The strings that `items` hold.
pub open spec fn texts(items: Seq<TomlValue>) -> Seq<Seq<char>> {
    items.map_values(|v: TomlValue| v->Text_0@)
}

/// The requirements and backend that `doc` declares, or the first thing
/// that keeps it from declaring them. Keys other than the ones read are
/// ignored.
pub open spec fn build_system_of(doc: TomlValue) -> Result<(Seq<Seq<char>>, Seq<char>), SchemaProblem> {
    let section = match doc {
        TomlValue::Table(top) => lookup(top@, BUILD_SYSTEM_KEY@),
        _ => None,
    };
    match section {
        None => Err(SchemaProblem::MissingBuildSystem),
        Some(TomlValue::Table(bs)) => match lookup(bs@, REQUIRES_KEY@) {
            None => Err(SchemaProblem::MissingRequires),
            Some(req) => if !(req is Array && all_text(req->Array_0@)) {
                Err(SchemaProblem::RequiresNotStrings)
            } else {
                match lookup(bs@, BUILD_BACKEND_KEY@) {
                    None => Err(SchemaProblem::MissingBuildBackend),
                    Some(TomlValue::Text(b)) => Ok((texts(req->Array_0@), b@)),
                    Some(_) => Err(SchemaProblem::BuildBackendNotString),
                }
            },
        },
        Some(_) => Err(SchemaProblem::BuildSystemNotTable),
    }
}

/// Inserting a pair under another key leaves what `key` finds unchanged.
proof fn lemma_lookup_insert(
    table: Seq<(String, TomlValue)>,
    i: int,
    pair: (String, TomlValue),
    key: Seq<char>,
)
    requires
        0 <= i <= table.len(),
        pair.0@ != key,
    ensures
        lookup(table.insert(i, pair), key) == lookup(table, key),
    decreases table.len(),
{
    if i == 0 {
        assert(table.insert(0, pair).drop_first() =~= table);
    } else {
        assert(table.insert(i, pair)[0] == table[0]);
        if table[0].0@ != key {
            assert(table.insert(i, pair).drop_first() =~= table.drop_first().insert(i - 1, pair));
            lemma_lookup_insert(table.drop_first(), i - 1, pair, key);
        }
    }
}

/// Sections other than `build-system` do not matter: a document with one
/// more top-level entry under any other key, anywhere, declares exactly
/// what the document without it declares, or fails in the same way.
pub proof fn lemma_other_sections_ignored(
    doc: TomlValue,
    extended: TomlValue,
    at: int,
    entry: (String, TomlValue),
)
    requires
        doc is Table,
        extended is Table,
        0 <= at <= doc->Table_0@.len(),
        extended->Table_0@ == doc->Table_0@.insert(at, entry),
        entry.0@ != BUILD_SYSTEM_KEY@,
    ensures
        build_system_of(extended) == build_system_of(doc),
{
    lemma_lookup_insert(doc->Table_0@, at, entry, BUILD_SYSTEM_KEY@);
}

/// A document with no `build-system` entry at its top level is refused
/// with `MissingBuildSystem`.
pub proof fn lemma_missing_build_system(doc: TomlValue)
    requires
        doc matches TomlValue::Table(top) && forall|i: int|
            0 <= i < top@.len() ==> #[trigger] top@[i].0@ != BUILD_SYSTEM_KEY@,
    ensures
        build_system_of(doc) == Err::<(Seq<Seq<char>>, Seq<char>), _>(
            SchemaProblem::MissingBuildSystem,
        ),
{
    lemma_lookup_absent(doc->Table_0@, BUILD_SYSTEM_KEY@);
}

/// A key held by no pair finds nothing.
proof fn lemma_lookup_absent(table: Seq<(String, TomlValue)>, key: Seq<char>)
    requires
        forall|i: int| 0 <= i < table.len() ==> #[trigger] table[i].0@ != key,
    ensures
        lookup(table, key) is None,
    decreases table.len(),
{
    if table.len() > 0 {
        assert(table[0].0@ != key);
        assert forall|i: int| 0 <= i < table.drop_first().len() implies #[trigger] table.drop_first()[i].0@ != key by {
            assert(table[i + 1].0@ != key);
        }
        lemma_lookup_absent(table.drop_first(), key);
    }
}

/// The value stored under `key` in `table`, taking the first match.
pub fn table_get<'a>(table: &'a Vec<(String, TomlValue)>, key: &str) -> (r: Option<&'a TomlValue>)
    ensures
        match r {
            Some(v) => lookup(table@, key@) == Some(*v),
            None => lookup(table@, key@) is None,
        },
{
    let wanted = string_of(chars_of(key).as_slice());
    let mut i: usize = 0;
    assert(table@.skip(0) =~= table@);
    while i < table.len()
        invariant
            i <= table.len(),
            wanted@ == key@,
            lookup(table@, key@) == lookup(table@.skip(i as int), key@),
        decreases table.len() - i,
    {
        assert(table@.skip(i as int).drop_first() =~= table@.skip(i + 1 as int));
        if table[i].0 == wanted {
            return Some(&table[i].1);
        }
        i += 1;
    }
    None
}

/// The strings held by `items`, if every item is a string.
pub fn text_items(items: &Vec<TomlValue>) -> (r: Option<Vec<String>>)
    ensures
        r is Some <==> all_text(items@),
        r matches Some(v) ==> v@.map_values(|s: String| s@) == texts(items@),
{
    let mut out: Vec<String> = Vec::new();
    let mut i: usize = 0;
    while i < items.len()
        invariant
            i <= items.len(),
            out.len() == i,
            out@.map_values(|s: String| s@) == texts(items@.take(i as int)),
            forall|j: int| 0 <= j < i ==> #[trigger] items@[j] is Text,
        decreases items.len() - i,
    {
        let ghost before = out@;
        match &items[i] {
            TomlValue::Text(s) => {
                out.push(s.clone());
            },
            _ => {
                return None;
            },
        }
        i += 1;
        proof {
            let prev = texts(items@.take(i - 1 as int));
            assert forall|j: int| 0 <= j < i - 1 implies #[trigger] out@[j]@ == prev[j] by {
                assert(out@[j] == before[j]);
                assert(before.map_values(|s: String| s@)[j] == prev[j]);
            }
            assert(out@.map_values(|s: String| s@) =~= texts(items@.take(i as int)));
        }
    }
    assert(items@.take(items.len() as int) =~= items@);
    Some(out)
}

impl BuildSystem {
    /// A build system with the given requirements and backend.
    pub fn new(requirements: Vec<String>, build_backend: String) -> (r: BuildSystem)
        ensures
            r@ == (requirements@.map_values(|s: String| s@), build_backend@),
    {
        BuildSystem { requirements, build_backend }
    }

    /// The packages that building needs.
    pub fn requirements(&self) -> (r: &Vec<String>)
        ensures
            r@.map_values(|s: String| s@) == self@.0,
    {
        &self.requirements
    }

    /// The backend that performs the build.
    pub fn build_backend(&self) -> (r: &String)
        ensures
            r@ == self@.1,
    {
        &self.build_backend
    }
}

impl PyProjectToml {
    /// A descriptor declaring `build_system`.
    pub fn new(build_system: BuildSystem) -> (r: PyProjectToml)
        ensures
            r@ == build_system@,
    {
        PyProjectToml { build_system }
    }

    /// The declared build system.
    pub fn build_system(&self) -> (r: &BuildSystem)
        ensures
            r@ == self@,
    {
        &self.build_system
    }

    /// The descriptor that `doc` declares, or `Schema` with the first
    /// problem found.
    pub fn from_document(doc: &TomlValue) -> (r: Result<PyProjectToml, SdistError>)
        ensures
            match r {
                Ok(p) => build_system_of(*doc) == Ok::<_, SchemaProblem>(p@),
                Err(e) => build_system_of(*doc) matches Err(problem) && e == SdistError::Schema(
                    problem,
                ),
            },
    {
        let top = match doc {
            TomlValue::Table(t) => t,
            _ => return Err(SdistError::Schema(SchemaProblem::MissingBuildSystem)),
        };
        let section = match table_get(top, BUILD_SYSTEM_KEY) {
            Some(TomlValue::Table(bs)) => bs,
            Some(_) => return Err(SdistError::Schema(SchemaProblem::BuildSystemNotTable)),
            None => return Err(SdistError::Schema(SchemaProblem::MissingBuildSystem)),
        };
        let requirements = match table_get(section, REQUIRES_KEY) {
            Some(TomlValue::Array(items)) => match text_items(items) {
                Some(v) => v,
                None => return Err(SdistError::Schema(SchemaProblem::RequiresNotStrings)),
            },
            Some(_) => return Err(SdistError::Schema(SchemaProblem::RequiresNotStrings)),
            None => return Err(SdistError::Schema(SchemaProblem::MissingRequires)),
        };
        let build_backend = match table_get(section, BUILD_BACKEND_KEY) {
            Some(TomlValue::Text(b)) => b.clone(),
            Some(_) => return Err(SdistError::Schema(SchemaProblem::BuildBackendNotString)),
            None => return Err(SdistError::Schema(SchemaProblem::MissingBuildBackend)),
        };
        Ok(PyProjectToml { build_system: BuildSystem { requirements, build_backend } })
    }
}

/// Where the project descriptor of the project at `project_root` lies.
pub fn descriptor_path(project_root: &str) -> (r: String)
    ensures
        r@ == joined(project_root@, DESCRIPTOR_FILE@),
{
    join_path(project_root, DESCRIPTOR_FILE)
}

} // verus!
