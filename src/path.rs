use vstd::prelude::*;

use crate::error::WorkspaceError;

verus! {

/// A filesystem path as the sequence of components that are pushed, in
/// order, onto an empty path. The first component is usually absolute.
#[derive(Debug)]
pub struct WorkPath {
    pub parts: Vec<String>,
}

impl View for WorkPath {
    type V = Seq<Seq<char>>;

    open spec fn view(&self) -> Seq<Seq<char>> {
        self.parts@.map_values(|s: String| s@)
    }
}

impl WorkPath {
    /// A path made of a single component.
    pub fn new(first: String) -> (r: WorkPath)
        ensures
            r@ == seq![first@],
    {
        let mut parts: Vec<String> = Vec::new();
        parts.push(first);
        let r = WorkPath { parts };
        assert(r@ =~= seq![first@]);
        r
    }

    /// A copy with the same components.
    pub fn duplicate(&self) -> (r: WorkPath)
        ensures
            r@ == self@,
    {
        let mut parts: Vec<String> = Vec::new();
        let mut i: usize = 0;
        while i < self.parts.len()
            invariant
                i <= self.parts@.len(),
                parts@.len() == i,
                forall|j: int| 0 <= j < i ==> #[trigger] parts@[j]@ == self.parts@[j]@,
            decreases self.parts@.len() - i,
        {
            parts.push(self.parts[i].clone());
            i += 1;
        }
        let r = WorkPath { parts };
        assert(r@ =~= self@);
        r
    }

    /// This path with one more component at its end.
    pub fn join(&self, name: &str) -> (r: WorkPath)
        ensures
            r@ == self@.push(name@),
    {
        let mut r = self.duplicate();
        r.parts.push(String::from_str(name));
        assert(r@ =~= self@.push(name@));
        r
    }
}

/// The current local date as two pieces of text: the year (`%Y`) and the
/// month followed by the day of month (`%m%d`).
#[derive(Debug)]
pub struct DateStamp {
    pub year: String,
    pub month_day: String,
}

pub open spec fn is_digit(c: char) -> bool {
    '0' <= c && c <= '9'
}

pub open spec fn digit_value(c: char) -> int {
    c as int - '0' as int
}

/// A year as `%Y` writes it: four digits for the years 0 to 9999, otherwise
/// a sign followed by at least four digits.
pub open spec fn is_year_text(y: Seq<char>) -> bool {
    &&& y.len() >= 4
    &&& forall|i: int| 1 <= i < y.len() ==> is_digit(#[trigger] y[i])
    &&& if is_digit(y[0]) {
        y.len() == 4
    } else {
        (y[0] == '+' || y[0] == '-') && y.len() >= 5
    }
}

impl DateStamp {
    /// The year is written as `is_year_text` says; the month and day are two
    /// zero-padded digits each, the month in 01..=12 and the day in 01..=31.
    pub open spec fn wf(&self) -> bool {
        &&& is_year_text(self.year@)
        &&& self.month_day@.len() == 4
        &&& forall|i: int| 0 <= i < 4 ==> is_digit(#[trigger] self.month_day@[i])
        &&& 1 <= 10 * digit_value(self.month_day@[0]) + digit_value(self.month_day@[1]) <= 12
        &&& 1 <= 10 * digit_value(self.month_day@[2]) + digit_value(self.month_day@[3]) <= 31
    }
}

/// Relies on chrono's conversion of `SystemTime::now()` into a
/// `DateTime<Local>` for the current local date (a time before 1970 becomes a
/// negative timestamp rather than a panic), and on its `%Y`, `%m` and `%d`
/// formats: the year as four zero-padded digits for 0..=9999 and with a sign
/// and at least four digits otherwise, the month as 01..=12 and the day as
/// 01..=31, each zero-padded to two digits.
#[verifier::external_body]
fn local_stamp() -> (r: DateStamp)
    ensures
        r.wf(),
{
    let now = chrono::DateTime::<chrono::Local>::from(std::time::SystemTime::now());
    DateStamp { year: now.format("%Y").to_string(), month_day: now.format("%m%d").to_string() }
}

/// Which of the workspace paths is asked for.
#[derive(PartialEq, Eq, Structural, Clone, Copy, Debug)]
pub enum WorkspacePathKind {
    Temp,
    Year,
    Date,
}

/// The template directory, the year directory and the date directory under
/// `root`, for the date `stamp`.
pub open spec fn path_of(root: Seq<Seq<char>>, kind: WorkspacePathKind, stamp: DateStamp) -> Seq<
    Seq<char>,
> {
    match kind {
        WorkspacePathKind::Temp => root.push("template"@),
        WorkspacePathKind::Year => root.push(stamp.year@),
        WorkspacePathKind::Date => root.push(stamp.year@).push(stamp.month_day@),
    }
}

/// The path of `kind` under `root` for the date `stamp`.
pub fn resolve_path(root: &WorkPath, kind: WorkspacePathKind, stamp: &DateStamp) -> (r: WorkPath)
    ensures
        r@ == path_of(root@, kind, *stamp),
{
    match kind {
        WorkspacePathKind::Temp => root.join("template"),
        WorkspacePathKind::Year => root.join(stamp.year.as_str()),
        WorkspacePathKind::Date => root.join(stamp.year.as_str()).join(stamp.month_day.as_str()),
    }
}

/// The path of `kind` under `root` for the local date at the time of the call.
pub fn workspace_path(root: &WorkPath, kind: WorkspacePathKind) -> (r: WorkPath)
    ensures
        exists|s: DateStamp| s.wf() && r@ == path_of(root@, kind, s),
{
    let stamp = local_stamp();
    resolve_path(root, kind, &stamp)
}

/// The three paths of one workspace, resolved against the same date.
#[derive(Debug)]
pub struct WorkspacePaths {
    pub template: WorkPath,
    pub year: WorkPath,
    pub date: WorkPath,
}

impl WorkspacePaths {
    pub open spec fn resolved(&self, root: Seq<Seq<char>>, stamp: DateStamp) -> bool {
        &&& self.template@ == path_of(root, WorkspacePathKind::Temp, stamp)
        &&& self.year@ == path_of(root, WorkspacePathKind::Year, stamp)
        &&& self.date@ == path_of(root, WorkspacePathKind::Date, stamp)
    }
}

/// The three paths under `root` for the date `stamp`.
pub fn resolve_paths(root: &WorkPath, stamp: &DateStamp) -> (r: WorkspacePaths)
    ensures
        r.resolved(root@, *stamp),
{
    WorkspacePaths {
        template: resolve_path(root, WorkspacePathKind::Temp, stamp),
        year: resolve_path(root, WorkspacePathKind::Year, stamp),
        date: resolve_path(root, WorkspacePathKind::Date, stamp),
    }
}

/// The three paths under `root`, all for the local date read once at the time
/// of the call.
pub fn workspace_paths(root: &WorkPath) -> (r: WorkspacePaths)
    ensures
        exists|s: DateStamp| s.wf() && r.resolved(root@, s),
{
    let stamp = local_stamp();
    resolve_paths(root, &stamp)
}

/// The directories that provisioning a workspace reads or writes.
#[derive(PartialEq, Eq, Structural, Clone, Copy, Debug, Hash)]
pub enum Place {
    Template,
    Year,
    Date,
    /// Where copying the template into the year directory puts it.
    CopiedTemplate,
}

/// The path that stands for `place`.
pub open spec fn place_path(paths: WorkspacePaths, place: Place) -> Seq<Seq<char>> {
    match place {
        Place::Template => paths.template@,
        Place::Year => paths.year@,
        Place::Date => paths.date@,
        Place::CopiedTemplate => paths.year@.push("template"@),
    }
}

impl WorkspacePaths {
    pub fn locate(&self, place: Place) -> (r: WorkPath)
        ensures
            r@ == place_path(*self, place),
    {
        match place {
            Place::Template => self.template.duplicate(),
            Place::Year => self.year.duplicate(),
            Place::Date => self.date.duplicate(),
            Place::CopiedTemplate => self.year.join("template"),
        }
    }
}

/// The workspace root below a home directory, before links in it are
/// resolved: `home/workspace/daily`. Fails when no home directory is known.
pub fn workspace_root_candidate(home: Option<String>) -> (r: Result<WorkPath, WorkspaceError>)
    ensures
        home is None ==> r matches Err(WorkspaceError::HomeNotFound),
        home matches Some(h) ==> r matches Ok(p) && p@ == seq![h@, "workspace"@, "daily"@],
{
    match home {
        None => Err(WorkspaceError::HomeNotFound),
        Some(h) => {
            let p = WorkPath::new(h).join("workspace").join("daily");
            assert(p@ =~= seq![h@, "workspace"@, "daily"@]);
            Ok(p)
        },
    }
}

} // verus!
