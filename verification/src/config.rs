//! The table of repositories and their destination rooms.
//!
//! The table is written in TOML: an array `repos` of tables, each with a
//! string `id`, the repository, and a string `room`, the destination.
//! Members that the table does not ask for are passed over.

use vstd::prelude::*;
use toml::Value;

verus! {

#[verifier::external_type_specification]
#[verifier::external_body]
pub struct ExTomlValue(toml::Value);

#[verifier::external_type_specification]
#[verifier::external_body]
pub struct ExTomlError(toml::de::Error);

/// A TOML value. A table that was read from a document holds its members
/// in the order of their keys, each key once; of a table built by hand, the
/// first member under a key counts.
#[derive(Debug, PartialEq, Eq)]
pub enum TomlValue {
    Text(String),
    Integer(i64),
    /// A number with a fraction; its value is not kept.
    Float,
    Boolean(bool),
    /// A date or time; its value is not kept.
    Datetime,
    Array(Vec<TomlValue>),
    Table(Vec<(String, TomlValue)>),
}

/// The mathematical value of a [`TomlValue`].
pub enum TomlModel {
    Text(Seq<char>),
    Integer(i64),
    Float,
    Boolean(bool),
    Datetime,
    Array(Seq<TomlModel>),
    Table(Seq<(Seq<char>, TomlModel)>),
}

/// The mathematical value of a TOML value: the same tree, with sequences
/// for its strings, arrays and tables.
pub open spec fn model_of(value: TomlValue) -> TomlModel
    decreases value,
{
    match value {
        TomlValue::Text(text) => TomlModel::Text(text@),
        TomlValue::Integer(number) => TomlModel::Integer(number),
        TomlValue::Float => TomlModel::Float,
        TomlValue::Boolean(flag) => TomlModel::Boolean(flag),
        TomlValue::Datetime => TomlModel::Datetime,
        TomlValue::Array(items) => TomlModel::Array(
            Seq::new(
                items@.len(),
                |i: int|
                    if 0 <= i < items@.len() {
                        model_of(items@[i])
                    } else {
                        arbitrary()
                    },
            ),
        ),
        TomlValue::Table(members) => TomlModel::Table(
            Seq::new(
                members@.len(),
                |i: int|
                    if 0 <= i < members@.len() {
                        (members@[i].0@, model_of(members@[i].1))
                    } else {
                        arbitrary()
                    },
            ),
        ),
    }
}

impl View for TomlValue {
    type V = TomlModel;

    open spec fn view(&self) -> TomlModel {
        model_of(*self)
    }
}

/// The document that `toml::from_str` reads from a text, as a table, or
/// `None` where it refuses the text.
pub uninterp spec fn toml_document(text: Seq<char>) -> Option<TomlModel>;

/// Rewrites a `toml::Value` as a [`TomlValue`], variant by variant: strings,
/// integers and booleans keep their value, arrays their items in order, and
/// tables their members in the order in which `toml::Table` hands them out.
/// Nothing is claimed of the result here.
#[verifier::external_body]
fn plain_value(value: Value) -> TomlValue {
    match value {
        Value::String(text) => TomlValue::Text(text),
        Value::Integer(number) => TomlValue::Integer(number),
        Value::Float(_) => TomlValue::Float,
        Value::Boolean(flag) => TomlValue::Boolean(flag),
        Value::Datetime(_) => TomlValue::Datetime,
        Value::Array(items) => TomlValue::Array(items.into_iter().map(plain_value).collect()),
        Value::Table(table) => TomlValue::Table(
            table.into_iter().map(|(key, item)| (key, plain_value(item))).collect(),
        ),
    }
}

/// Calls `toml::from_str` for a `toml::Table`. The contract gives the
/// outcome a name, [`toml_document`], and claims only that the outcome is
/// determined by the text: the table on success, the parser's error where
/// the text is no TOML document.
#[verifier::external_body]
fn read_document(text: &str) -> (outcome: Result<TomlValue, toml::de::Error>)
    ensures
        match outcome {
            Ok(document) => toml_document(text@) == Some(document@),
            Err(_) => toml_document(text@) is None,
        },
{
    match toml::from_str::<toml::Table>(text) {
        Ok(table) => Ok(plain_value(Value::Table(table))),
        Err(error) => Err(error),
    }
}

/// Why a repository has no destination.
#[derive(Debug, Clone, Copy, PartialEq, Eq)]
pub enum ResolveError {
    /// The table could not be read, or what was read is no such table.
    ConfigUnavailable,
    /// The table names no destination for the repository.
    NotFound,
}

/// One line of the table.
#[derive(Debug, Clone, PartialEq, Eq)]
pub struct Repo {
    pub id: String,
    pub room: String,
}

/// The table: repositories and their destinations, in the order written.
/// Where a repository stands more than once, its first line counts.
#[derive(Debug, Clone, PartialEq, Eq)]
pub struct RepoDestinationMap {
    pub repos: Vec<Repo>,
}

impl View for RepoDestinationMap {
    type V = Seq<(Seq<char>, Seq<char>)>;

    open spec fn view(&self) -> Seq<(Seq<char>, Seq<char>)> {
        self.repos@.map_values(|repo: Repo| (repo.id@, repo.room@))
    }
}

/// The keys of a table's members, in order.
pub open spec fn keys_of(members: Seq<(Seq<char>, TomlModel)>) -> Seq<Seq<char>> {
    members.map_values(|member: (Seq<char>, TomlModel)| member.0)
}

/// The member of a table under a key, if `value` is a table and has one.
pub open spec fn member_of(value: TomlModel, key: Seq<char>) -> Option<TomlModel> {
    match value {
        TomlModel::Table(members) => match keys_of(members).index_of_first(key) {
            Some(index) => Some(members[index].1),
            None => None,
        },
        _ => None,
    }
}

/// The text of a value that is there and is a string.
pub open spec fn text_of(value: Option<TomlModel>) -> Option<Seq<char>> {
    match value {
        Some(TomlModel::Text(text)) => Some(text),
        _ => None,
    }
}

/// The line that an item of `repos` stands for: it must be a table whose
/// members `id` and `room` are strings.
pub open spec fn line_of(item: TomlModel) -> Option<(Seq<char>, Seq<char>)> {
    match (text_of(member_of(item, "id"@)), text_of(member_of(item, "room"@))) {
        (Some(id), Some(room)) => Some((id, room)),
        _ => None,
    }
}

/// The lines of the table that a document holds: the document must be a
/// table whose member `repos` is an array, and every item of it a line.
pub open spec fn lines_of(document: TomlModel) -> Option<Seq<(Seq<char>, Seq<char>)>> {
    match member_of(document, "repos"@) {
        Some(TomlModel::Array(items)) => if forall|i: int|
            0 <= i < items.len() ==> line_of(#[trigger] items[i]) is Some {
            Some(items.map_values(|item: TomlModel| line_of(item)->Some_0))
        } else {
            None
        },
        _ => None,
    }
}

/// The lines of the table that a text holds, if it is a TOML document that
/// holds such a table.
pub open spec fn configured(text: Seq<char>) -> Option<Seq<(Seq<char>, Seq<char>)>> {
    match toml_document(text) {
        Some(document) => lines_of(document),
        None => None,
    }
}

/// The repositories of the lines, in order.
pub open spec fn repositories(lines: Seq<(Seq<char>, Seq<char>)>) -> Seq<Seq<char>> {
    lines.map_values(|line: (Seq<char>, Seq<char>)| line.0)
}

/// The destination of a repository: that of the first line that names
/// exactly this repository, character for character.
pub open spec fn destination(lines: Seq<(Seq<char>, Seq<char>)>, repo: Seq<char>) -> Option<Seq<char>> {
    match repositories(lines).index_of_first(repo) {
        Some(index) => Some(lines[index].1),
        None => None,
    }
}

/// What [`resolve`] answers, given the table's text where it could be read.
pub open spec fn resolution(config: Option<Seq<char>>, repo: Seq<char>) -> Result<Seq<char>, ResolveError> {
    match config {
        None => Err(ResolveError::ConfigUnavailable),
        Some(text) => match configured(text) {
            None => Err(ResolveError::ConfigUnavailable),
            Some(lines) => match destination(lines, repo) {
                Some(room) => Ok(room),
                None => Err(ResolveError::NotFound),
            },
        },
    }
}

/// If `index` is the first place at which `key` stands in `keys`, it is the
/// place that `index_of_first` gives.
proof fn lemma_first_place(keys: Seq<Seq<char>>, key: Seq<char>, index: int)
    requires
        0 <= index < keys.len(),
        keys[index] == key,
        forall|j: int| 0 <= j < index ==> keys[j] != key,
    ensures
        keys.index_of_first(key) == Some(index),
{
    keys.index_of_first_ensures(key);
    assert(keys.contains(key));
}

/// If `key` stands nowhere in `keys`, `index_of_first` gives no place.
proof fn lemma_no_place(keys: Seq<Seq<char>>, key: Seq<char>)
    requires
        forall|j: int| 0 <= j < keys.len() ==> keys[j] != key,
    ensures
        keys.index_of_first(key) is None,
{
    keys.index_of_first_ensures(key);
}

/// A repository that the table names is resolved to the room of the first
/// line that names it, exactly as that line gives it.
pub proof fn lemma_named_repository_resolves(lines: Seq<(Seq<char>, Seq<char>)>, index: int)
    requires
        0 <= index < lines.len(),
        forall|j: int| 0 <= j < index ==> lines[j].0 != lines[index].0,
    ensures
        destination(lines, lines[index].0) == Some(lines[index].1),
{
    lemma_first_place(repositories(lines), lines[index].0, index);
}

/// A repository that the table names has a destination, and it is the room
/// of one of the lines that name it.
pub proof fn lemma_present_repository_resolves(lines: Seq<(Seq<char>, Seq<char>)>, repo: Seq<char>)
    requires
        exists|i: int| 0 <= i < lines.len() && (#[trigger] lines[i]).0 == repo,
    ensures
        destination(lines, repo) is Some,
        exists|i: int|
            0 <= i < lines.len() && (#[trigger] lines[i]).0 == repo && destination(lines, repo) == Some(
                lines[i].1,
            ),
{
    let witness = choose|i: int| 0 <= i < lines.len() && (#[trigger] lines[i]).0 == repo;
    let keys = repositories(lines);
    assert(keys[witness] == repo);
    keys.index_of_first_ensures(repo);
    let first = keys.index_of_first(repo)->Some_0;
    assert(lines[first].0 == keys[first]);
}

/// A repository that the table does not name has no destination.
pub proof fn lemma_absent_repository_fails(lines: Seq<(Seq<char>, Seq<char>)>, repo: Seq<char>)
    requires
        forall|i: int| 0 <= i < lines.len() ==> (#[trigger] lines[i]).0 != repo,
    ensures
        destination(lines, repo) is None,
{
    assert forall|j: int| 0 <= j < repositories(lines).len() implies repositories(lines)[j] != repo by {
        assert(repositories(lines)[j] == lines[j].0);
    }
    lemma_no_place(repositories(lines), repo);
}

/// Resolution against a readable table: a repository that the table names
/// gets a destination that the table gives it, and any other repository
/// gets [`ResolveError::NotFound`].
pub proof fn lemma_resolution_of_readable_table(text: Seq<char>, repo: Seq<char>)
    requires
        configured(text) is Some,
    ensures
        ({
            let lines = configured(text)->Some_0;
            if exists|i: int| 0 <= i < lines.len() && (#[trigger] lines[i]).0 == repo {
                exists|i: int|
                    0 <= i < lines.len() && (#[trigger] lines[i]).0 == repo && resolution(Some(text), repo)
                        == Ok::<Seq<char>, ResolveError>(lines[i].1)
            } else {
                resolution(Some(text), repo) == Err::<Seq<char>, ResolveError>(ResolveError::NotFound)
            }
        }),
{
    let lines = configured(text)->Some_0;
    if exists|i: int| 0 <= i < lines.len() && (#[trigger] lines[i]).0 == repo {
        lemma_present_repository_resolves(lines, repo);
        let i = choose|i: int|
            0 <= i < lines.len() && (#[trigger] lines[i]).0 == repo && destination(lines, repo) == Some(
                lines[i].1,
            );
        assert(resolution(Some(text), repo) == Ok::<Seq<char>, ResolveError>(lines[i].1));
    } else {
        lemma_absent_repository_fails(lines, repo);
    }
}

/// The member of a table under a key.
pub fn member<'a>(value: &'a TomlValue, key: &str) -> (found: Option<&'a TomlValue>)
    ensures
        match found {
            Some(item) => member_of(value@, key@) == Some(item@),
            None => member_of(value@, key@) is None,
        },
{
    let members = match value {
        TomlValue::Table(members) => members,
        _ => {
            return None;
        },
    };
    let ghost models = value@->Table_0;
    let wanted: String = key.to_owned();
    let n: usize = members.len();
    let mut i: usize = 0;
    while i < n
        invariant
            n == members.len(),
            0 <= i <= n,
            wanted@ == key@,
            value@ == TomlModel::Table(models),
            models.len() == n,
            forall|j: int| 0 <= j < n ==> #[trigger] models[j] == (members@[j].0@, members@[j].1@),
            forall|j: int| 0 <= j < i ==> keys_of(models)[j] != key@,
        decreases n - i,
    {
        if members[i].0 == wanted {
            proof {
                assert(models[i as int].0 == key@);
                lemma_first_place(keys_of(models), key@, i as int);
            }
            return Some(&members[i].1);
        }
        proof {
            assert(models[i as int].0 != key@);
        }
        i += 1;
    }
    proof {
        lemma_no_place(keys_of(models), key@);
    }
    None
}

/// The text of a table's member under a key, where that member is a string.
pub fn text_member(value: &TomlValue, key: &str) -> (found: Option<String>)
    ensures
        match found {
            Some(text) => text_of(member_of(value@, key@)) == Some(text@),
            None => text_of(member_of(value@, key@)) is None,
        },
{
    match member(value, key) {
        Some(TomlValue::Text(text)) => Some(text.clone()),
        _ => None,
    }
}

impl RepoDestinationMap {
    /// Takes the table out of a document: every line of it, in order, or
    /// nothing where the document holds no such table.
    pub fn from_document(document: &TomlValue) -> (result: Option<RepoDestinationMap>)
        ensures
            match lines_of(document@) {
                Some(lines) => result is Some && result->Some_0@ == lines,
                None => result is None,
            },
    {
        let items = match member(document, "repos") {
            Some(TomlValue::Array(items)) => items,
            _ => {
                return None;
            },
        };
        let n: usize = items.len();
        let ghost models = member_of(document@, "repos"@)->Some_0->Array_0;
        let mut repos: Vec<Repo> = Vec::new();
        let mut i: usize = 0;
        while i < n
            invariant
                n == items.len(),
                0 <= i <= n,
                repos@.len() == i,
                member_of(document@, "repos"@) == Some(TomlModel::Array(models)),
                models.len() == n,
                forall|j: int| 0 <= j < n ==> #[trigger] models[j] == items@[j]@,
                forall|j: int| 0 <= j < i ==> line_of(#[trigger] models[j]) == Some((repos@[j].id@, repos@[j].room@)),
            decreases n - i,
        {
            let id = text_member(&items[i], "id");
            let room = text_member(&items[i], "room");
            match (id, room) {
                (Some(id), Some(room)) => {
                    repos.push(Repo { id, room });
                },
                _ => {
                    assert(line_of(models[i as int]) is None);
                    return None;
                },
            }
            i += 1;
        }
        let table = RepoDestinationMap { repos };
        proof {
            assert(table@ =~= lines_of(document@)->Some_0);
        }
        Some(table)
    }

    /// Reads the table from its text.
    pub fn parse(text: &str) -> (result: Result<RepoDestinationMap, ResolveError>)
        ensures
            match configured(text@) {
                Some(lines) => result is Ok && result->Ok_0@ == lines,
                None => result is Err && result->Err_0 == ResolveError::ConfigUnavailable,
            },
    {
        match read_document(text) {
            Ok(document) => match RepoDestinationMap::from_document(&document) {
                Some(table) => Ok(table),
                None => Err(ResolveError::ConfigUnavailable),
            },
            Err(_) => Err(ResolveError::ConfigUnavailable),
        }
    }

    /// The destination of a repository: the room of the first line whose
    /// repository equals `repo` exactly, or nothing where no line does.
    pub fn lookup(&self, repo: &str) -> (found: Option<String>)
        ensures
            match destination(self@, repo@) {
                Some(room) => found is Some && found->Some_0@ == room,
                None => found is None,
            },
    {
        let wanted: String = repo.to_owned();
        let n: usize = self.repos.len();
        let mut i: usize = 0;
        while i < n
            invariant
                n == self.repos.len(),
                0 <= i <= n,
                wanted@ == repo@,
                forall|j: int| 0 <= j < i ==> repositories(self@)[j] != repo@,
            decreases n - i,
        {
            if self.repos[i].id == wanted {
                proof {
                    lemma_first_place(repositories(self@), repo@, i as int);
                }
                return Some(self.repos[i].room.clone());
            }
            i += 1;
        }
        proof {
            lemma_no_place(repositories(self@), repo@);
        }
        None
    }
}

/// Resolves a repository to its destination room. `config` is the text of
/// the table, or `None` where it could not be read.
pub fn resolve(config: Option<&str>, repo: &str) -> (result: Result<String, ResolveError>)
    ensures
        match resolution(config_text(config), repo@) {
            Ok(room) => result is Ok && result->Ok_0@ == room,
            Err(error) => result is Err && result->Err_0 == error,
        },
{
    let text = match config {
        Some(text) => text,
        None => {
            return Err(ResolveError::ConfigUnavailable);
        },
    };
    let table = match RepoDestinationMap::parse(text) {
        Ok(table) => table,
        Err(error) => {
            return Err(error);
        },
    };
    match table.lookup(repo) {
        Some(room) => Ok(room),
        None => Err(ResolveError::NotFound),
    }
}

/// The characters of the table's text, where there is one.
pub open spec fn config_text(config: Option<&str>) -> Option<Seq<char>> {
    match config {
        Some(text) => Some(text@),
        None => None,
    }
}

} // verus!
