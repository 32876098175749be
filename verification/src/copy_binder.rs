//! The binding of `COPY`: which kinds of source and destination go
//! together, where a stage location points, and which files are to be
//! copied.

use crate::error::{EMPTY_DATA, ErrorCode, STORAGE_INSECURE, SYNTAX_EXCEPTION};
use crate::text::{find_char_from, position_of, same_text, trim_start_matches, trim_start_matches_from, without_leading};
use vstd::prelude::*;
use vstd::string::*;

verus! {

/// The kinds of thing that `COPY` reads from or writes to.
#[derive(Clone, Copy, Debug, PartialEq, Eq, Structural)]
pub enum CopyUnit {
    Table,
    StageLocation,
    UriLocation,
    Query,
}

/// The ways in which `COPY` can move data.
#[derive(Clone, Copy, Debug, PartialEq, Eq, Structural)]
pub enum CopyRoute {
    StageIntoTable,
    UriIntoTable,
    TableIntoStage,
    TableIntoUri,
    QueryIntoStage,
    QueryIntoUri,
    QueryIntoTable,
}

/// The name of a kind, as messages show it.
pub open spec fn unit_name(u: CopyUnit) -> Seq<char> {
    match u {
        CopyUnit::Table => "Table"@,
        CopyUnit::StageLocation => "StageLocation"@,
        CopyUnit::UriLocation => "UriLocation"@,
        CopyUnit::Query => "Query"@,
    }
}

/// The way from `src` to `dst`, where `COPY` has one.
pub open spec fn route_of(src: CopyUnit, dst: CopyUnit) -> Option<CopyRoute> {
    match (src, dst) {
        (CopyUnit::StageLocation, CopyUnit::Table) => Some(CopyRoute::StageIntoTable),
        (CopyUnit::UriLocation, CopyUnit::Table) => Some(CopyRoute::UriIntoTable),
        (CopyUnit::Table, CopyUnit::StageLocation) => Some(CopyRoute::TableIntoStage),
        (CopyUnit::Table, CopyUnit::UriLocation) => Some(CopyRoute::TableIntoUri),
        (CopyUnit::Query, CopyUnit::StageLocation) => Some(CopyRoute::QueryIntoStage),
        (CopyUnit::Query, CopyUnit::UriLocation) => Some(CopyRoute::QueryIntoUri),
        (CopyUnit::Query, CopyUnit::Table) => Some(CopyRoute::QueryIntoTable),
        _ => None,
    }
}

/// The message for a pair of kinds that do not go together.
pub open spec fn invalid_copy_message(src: CopyUnit, dst: CopyUnit) -> Seq<char> {
    "COPY INTO <"@ + unit_name(dst) + "> FROM <"@ + unit_name(src) + "> is invalid"@
}

impl CopyUnit {
    /// The name of this kind, as messages show it.
    pub fn target(&self) -> (s: &'static str)
        ensures
            s@ == unit_name(*self),
    {
        match self {
            CopyUnit::Table => "Table",
            CopyUnit::StageLocation => "StageLocation",
            CopyUnit::UriLocation => "UriLocation",
            CopyUnit::Query => "Query",
        }
    }
}

/// Decides how a `COPY` from `src` into `dst` is bound, or rejects the
/// pair as a syntax error.
pub fn bind_copy(src: CopyUnit, dst: CopyUnit) -> (r: Result<CopyRoute, ErrorCode>)
    ensures
        match route_of(src, dst) {
            Some(route) => r == Ok::<CopyRoute, ErrorCode>(route),
            None => r is Err && r->Err_0.code == SYNTAX_EXCEPTION && r->Err_0.message@
                == invalid_copy_message(src, dst),
        },
{
    match (src, dst) {
        (CopyUnit::StageLocation, CopyUnit::Table) => Ok(CopyRoute::StageIntoTable),
        (CopyUnit::UriLocation, CopyUnit::Table) => Ok(CopyRoute::UriIntoTable),
        (CopyUnit::Table, CopyUnit::StageLocation) => Ok(CopyRoute::TableIntoStage),
        (CopyUnit::Table, CopyUnit::UriLocation) => Ok(CopyRoute::TableIntoUri),
        (CopyUnit::Query, CopyUnit::StageLocation) => Ok(CopyRoute::QueryIntoStage),
        (CopyUnit::Query, CopyUnit::UriLocation) => Ok(CopyRoute::QueryIntoUri),
        (CopyUnit::Query, CopyUnit::Table) => Ok(CopyRoute::QueryIntoTable),
        (src, dst) => {
            let mut message = String::from_str("COPY INTO <");
            message.append(dst.target());
            message.append("> FROM <");
            message.append(src.target());
            message.append("> is invalid");
            Err(ErrorCode::syntax_exception(message.as_str()))
        },
    }
}

/// The direction of a copy, seen from the storage.
#[derive(Clone, Copy, Debug, PartialEq, Eq, Structural)]
pub enum Direction {
    From,
    Into,
}

/// Admits a storage endpoint: an insecure endpoint is refused unless the
/// configuration allows insecure storage.
pub fn check_secure(is_secure: bool, allow_insecure: bool, direction: Direction) -> (r: Result<
    (),
    ErrorCode,
>)
    ensures
        (is_secure || allow_insecure) ==> r is Ok,
        !(is_secure || allow_insecure) ==> r is Err && r->Err_0.code == STORAGE_INSECURE
            && r->Err_0.message@ == (match direction {
            Direction::From => "copy from insecure storage is not allowed"@,
            Direction::Into => "copy into insecure storage is not allowed"@,
        }),
{
    if !is_secure && !allow_insecure {
        match direction {
            Direction::From => Err(
                ErrorCode::storage_insecure("copy from insecure storage is not allowed"),
            ),
            Direction::Into => Err(
                ErrorCode::storage_insecure("copy into insecure storage is not allowed"),
            ),
        }
    } else {
        Ok(())
    }
}

/// What to do with a file that cannot be loaded.
#[derive(Clone, Copy, Debug, PartialEq, Eq, Structural)]
pub enum OnErrorMode {
    Abort,
    Continue,
    SkipFile,
}

/// The mode that a setting names; `None` for a name that is not a mode.
pub open spec fn on_error_mode(name: Seq<char>) -> Option<OnErrorMode> {
    if name == ""@ || name == "abort"@ {
        Some(OnErrorMode::Abort)
    } else if name == "continue"@ {
        Some(OnErrorMode::Continue)
    } else if name == "skipfile"@ {
        Some(OnErrorMode::SkipFile)
    } else {
        None
    }
}

/// The options of a copy that a stage carries.
#[derive(Clone, Copy, Debug, PartialEq, Eq, Structural)]
pub struct CopyOptions {
    pub on_error: OnErrorMode,
    pub size_limit: usize,
    pub max_file_size: usize,
    pub split_size: usize,
    pub single: bool,
    pub purge: bool,
}

/// The options of a copy that the statement gives.
#[derive(Debug, PartialEq, Eq)]
pub struct CopyStmtOptions {
    pub on_error: String,
    pub size_limit: usize,
    pub max_file_size: usize,
    pub split_size: usize,
    pub single: bool,
    pub purge: bool,
}

/// The options of the stage after those of the statement have been
/// applied: a size limit and a maximal file size of zero leave the stage's
/// own in place; everything else is taken from the statement.
pub open spec fn applied_options(stmt: CopyStmtOptions, stage: CopyOptions, mode: OnErrorMode) -> CopyOptions {
    CopyOptions {
        on_error: mode,
        size_limit: if stmt.size_limit != 0 {
            stmt.size_limit
        } else {
            stage.size_limit
        },
        max_file_size: if stmt.max_file_size != 0 {
            stmt.max_file_size
        } else {
            stage.max_file_size
        },
        split_size: stmt.split_size,
        single: stmt.single,
        purge: stmt.purge,
    }
}

/// Applies the options of the statement to those of the stage. Fails
/// with a syntax error, and leaves the stage as it is, where the statement
/// names no known error mode.
pub fn apply_stage_options(stmt: &CopyStmtOptions, stage: &mut CopyOptions) -> (r: Result<
    (),
    ErrorCode,
>)
    ensures
        match on_error_mode(stmt.on_error@) {
            Some(mode) => r is Ok && *final(stage) == applied_options(*stmt, *old(stage), mode),
            None => r is Err && r->Err_0.code == SYNTAX_EXCEPTION && r->Err_0.message@
                == "Unknown OnError mode"@ && *final(stage) == *old(stage),
        },
{
    let name = stmt.on_error.as_str();
    let mode = if same_text(name, "") || same_text(name, "abort") {
        OnErrorMode::Abort
    } else if same_text(name, "continue") {
        OnErrorMode::Continue
    } else if same_text(name, "skipfile") {
        OnErrorMode::SkipFile
    } else {
        return Err(ErrorCode::syntax_exception("Unknown OnError mode"));
    };
    stage.on_error = mode;
    if stmt.size_limit != 0 {
        stage.size_limit = stmt.size_limit;
    }
    if stmt.max_file_size != 0 {
        stage.max_file_size = stmt.max_file_size;
    }
    stage.split_size = stmt.split_size;
    stage.single = stmt.single;
    stage.purge = stmt.purge;
    Ok(())
}

/// What a query that is the source of a copy reads from.
#[derive(Clone, Copy, Debug, PartialEq, Eq, Structural)]
pub enum TableReference {
    /// A stage, with this many options given at the table function.
    Stage { options: usize },
    /// Anything else.
    Other,
}

/// The shape of a query, as far as a copy restricts it.
#[derive(Debug, PartialEq, Eq)]
pub struct QueryShape {
    pub has_offset: bool,
    pub limit_count: usize,
    pub order_by_count: usize,
    pub has_with: bool,
    /// Whether the body is a plain `SELECT`.
    pub is_select: bool,
    pub has_group_by: bool,
    pub distinct: bool,
    pub has_having: bool,
    pub from: Vec<TableReference>,
}

/// Whether the query only projects from one table reference.
pub open spec fn is_plain_projection(q: QueryShape) -> bool {
    &&& !q.has_offset
    &&& q.limit_count == 0
    &&& q.order_by_count == 0
    &&& !q.has_with
    &&& q.is_select
    &&& !q.has_group_by
    &&& !q.distinct
    &&& !q.has_having
    &&& q.from@.len() == 1
}

/// The message for a query that a copy cannot read from.
pub open spec fn transform_message(q: QueryShape) -> Seq<char> {
    if is_plain_projection(q) && q.from@[0] is Stage {
        "stage table function inside copy not allow options, apply them in the outer copy stmt instead."@
    } else {
        "query as source of copy only allow projection on one stage table"@
    }
}

/// Admits a query as the source of a copy: it must be a plain projection
/// on one stage, and the stage must be named without options.
pub fn check_transform_query(query: &QueryShape) -> (r: Result<(), ErrorCode>)
    ensures
        r is Ok <==> (is_plain_projection(*query) && query.from@[0] == (TableReference::Stage {
            options: 0,
        })),
        r is Err ==> r->Err_0.code == SYNTAX_EXCEPTION && r->Err_0.message@ == transform_message(
            *query,
        ),
{
    if !query.has_offset && query.limit_count == 0 && query.order_by_count == 0 && !query.has_with
        && query.is_select && !query.has_group_by && !query.distinct && !query.has_having
        && query.from.len() == 1 {
        if let TableReference::Stage { options } = query.from[0] {
            if options == 0 {
                return Ok(());
            } else {
                return Err(
                    ErrorCode::syntax_exception(
                        "stage table function inside copy not allow options, apply them in the outer copy stmt instead.",
                    ),
                );
            }
        }
    }
    Err(ErrorCode::syntax_exception("query as source of copy only allow projection on one stage table"))
}

/// The part of a stage location between its first `@` and the next one.
pub open spec fn stage_segment(location: Seq<char>) -> Seq<char> {
    let start = position_of(location, '@') + 1;
    let rest = location.subrange(start, location.len() as int);
    rest.subrange(0, position_of(rest, '@'))
}

/// The name of the stage and the path inside it that a segment gives;
/// `None` where the segment names no stage.
///
/// The segment is cut at its first slash. The name is the part before the
/// slash; where that part is empty, the part after the slash is the name
/// and there is no path. The path loses its leading slashes; an empty path
/// is the root, `/`.
pub open spec fn stage_parts(segment: Seq<char>) -> Option<(Seq<char>, Seq<char>)> {
    let cut = position_of(segment, '/');
    let head = segment.subrange(0, cut);
    let tail = if cut < segment.len() {
        segment.subrange(cut + 1, segment.len() as int)
    } else {
        Seq::empty()
    };
    if head.len() > 0 {
        let path = without_leading(tail, '/');
        Some(
            (
                head,
                if path.len() == 0 {
                    "/"@
                } else {
                    path
                },
            ),
        )
    } else if tail.len() > 0 {
        Some((tail, "/"@))
    } else {
        None
    }
}

/// The name of the stage and the path inside it that a location of the
/// form `@stage/path` gives; `None` where the location has no `@` or names
/// no stage.
pub open spec fn stage_location_parts(location: Seq<char>) -> Option<(Seq<char>, Seq<char>)> {
    if position_of(location, '@') >= location.len() {
        None
    } else {
        stage_parts(stage_segment(location))
    }
}

/// Takes a location of the form `@stage/path` apart into the name of the
/// stage and the path inside it. Fails with a syntax error where the
/// location has no `@` or names no stage.
pub fn parse_stage_location(location: &str) -> (r: Result<(String, String), ErrorCode>)
    ensures
        match stage_location_parts(location@) {
            Some((name, path)) => r is Ok && r->Ok_0.0@ == name && r->Ok_0.1@ == path,
            None => r is Err && r->Err_0.code == SYNTAX_EXCEPTION && r->Err_0.message@ == (
            if position_of(location@, '@') >= location@.len() {
                "stage location must start with @"@
            } else {
                "stage location names no stage"@
            }),
        },
{
    let n = location.unicode_len();
    proof {
        assert(location@.subrange(0, n as int) =~= location@);
    }
    let at = find_char_from(location, '@', 0);
    if at >= n {
        return Err(ErrorCode::syntax_exception("stage location must start with @"));
    }
    let start = at + 1;
    let end = find_char_from(location, '@', start);
    let segment = location.substring_char(start, end);
    proof {
        let rest = location@.subrange(start as int, n as int);
        assert(rest.subrange(0, end - start) =~= location@.subrange(start as int, end as int));
        assert(segment@ == stage_segment(location@));
    }
    let m = segment.unicode_len();
    proof {
        assert(segment@.subrange(0, m as int) =~= segment@);
    }
    let cut = find_char_from(segment, '/', 0);
    let head = segment.substring_char(0, cut);
    if cut > 0 {
        if cut < m {
            let path = trim_start_matches_from(segment, '/', cut + 1);
            if path.unicode_len() == 0 {
                Ok((String::from_str(head), String::from_str("/")))
            } else {
                Ok((String::from_str(head), String::from_str(path)))
            }
        } else {
            proof {
                assert(without_leading(Seq::<char>::empty(), '/') =~= Seq::<char>::empty());
            }
            Ok((String::from_str(head), String::from_str("/")))
        }
    } else if cut < m && cut + 1 < m {
        let tail = segment.substring_char(cut + 1, m);
        Ok((String::from_str(tail), String::from_str("/")))
    } else {
        proof {
            if cut < m {
                assert(segment@.subrange(cut + 1, m as int) =~= Seq::<char>::empty());
            }
        }
        Err(ErrorCode::syntax_exception("stage location names no stage"))
    }
}

/// The path inside a stage that a path of the statement gives: the path
/// without its leading slashes.
pub fn parse_stage_location_v2(path: &str) -> (relative_path: String)
    ensures
        relative_path@ == without_leading(path@, '/'),
{
    String::from_str(trim_start_matches(path, '/'))
}

/// Whether the stage name stands for the stage of the current user.
pub fn is_user_stage(name: &str) -> (b: bool)
    ensures
        b == (name@ == "~"@),
{
    same_text(name, "~")
}

/// A location of files: in a stage, or at an address.
#[derive(Debug, PartialEq, Eq)]
pub enum FileLocation {
    /// A stage and a path in it.
    Stage { name: String, path: String },
    /// An address; `is_secure` tells whether its endpoint is secure, and
    /// `path` is the path that the address gives.
    Uri { is_secure: bool, path: String },
}

/// Where the files of a location are: the path inside the stage for a
/// stage, the path of the address for an address. An address with an
/// insecure endpoint is refused unless the configuration allows insecure
/// storage.
pub fn parse_file_location(location: &FileLocation, allow_insecure: bool) -> (r: Result<
    String,
    ErrorCode,
>)
    ensures
        match *location {
            FileLocation::Stage { name, path } => r is Ok && r->Ok_0@ == without_leading(
                path@,
                '/',
            ),
            FileLocation::Uri { is_secure, path } => if is_secure || allow_insecure {
                r is Ok && r->Ok_0@ == path@
            } else {
                r is Err && r->Err_0.code == STORAGE_INSECURE && r->Err_0.message@
                    == "copy from insecure storage is not allowed"@
            },
        },
{
    match location {
        FileLocation::Stage { name, path } => Ok(parse_stage_location_v2(path.as_str())),
        FileLocation::Uri { is_secure, path } => match check_secure(
            *is_secure,
            allow_insecure,
            Direction::From,
        ) {
            Ok(()) => Ok(path.clone()),
            Err(e) => Err(e),
        },
    }
}

/// Whether a file of a stage still has to be copied.
#[derive(Clone, Copy, Debug, PartialEq, Eq, Structural)]
pub enum StageFileStatus {
    NeedCopy,
    AlreadyCopied,
}

/// A file of a stage.
#[derive(Debug, PartialEq, Eq)]
pub struct StageFileInfo {
    pub path: String,
    pub size: u64,
    pub status: StageFileStatus,
}

/// The positions, among the first `n` files, of those that need copying.
pub open spec fn need_copy_positions(files: Seq<StageFileInfo>, n: nat) -> Seq<int>
    decreases n,
{
    if n == 0 {
        Seq::empty()
    } else {
        let rest = need_copy_positions(files, (n - 1) as nat);
        if files[n - 1].status == StageFileStatus::NeedCopy {
            rest.push(n - 1)
        } else {
            rest
        }
    }
}

/// Picks the files that still have to be copied, in their order. Fails
/// where there is none.
pub fn need_copy_files(files: &Vec<StageFileInfo>) -> (r: Result<Vec<StageFileInfo>, ErrorCode>)
    ensures
        need_copy_positions(files@, files.len() as nat).len() > 0 ==> r is Ok && r->Ok_0.len()
            == need_copy_positions(files@, files.len() as nat).len() && forall|k: int|
            0 <= k < r->Ok_0.len() ==> {
                let p = need_copy_positions(files@, files.len() as nat)[k];
                &&& 0 <= p < files.len()
                &&& (#[trigger] r->Ok_0[k]).path@ == files[p].path@
                &&& r->Ok_0[k].size == files[p].size
                &&& r->Ok_0[k].status == StageFileStatus::NeedCopy
            },
        need_copy_positions(files@, files.len() as nat).len() == 0 ==> r is Err && r->Err_0.code
            == EMPTY_DATA && r->Err_0.message@ == "no file need to copy"@,
{
    let mut need_copy_file_infos: Vec<StageFileInfo> = Vec::new();
    let mut i: usize = 0;
    while i < files.len()
        invariant
            i <= files.len(),
            need_copy_file_infos.len() == need_copy_positions(files@, i as nat).len(),
            forall|k: int|
                0 <= k < need_copy_file_infos.len() ==> {
                    let p = need_copy_positions(files@, i as nat)[k];
                    &&& 0 <= p < i
                    &&& (#[trigger] need_copy_file_infos[k]).path@ == files[p].path@
                    &&& need_copy_file_infos[k].size == files[p].size
                    &&& need_copy_file_infos[k].status == StageFileStatus::NeedCopy
                },
        decreases files.len() - i,
    {
        let file = &files[i];
        if let StageFileStatus::NeedCopy = file.status {
            need_copy_file_infos.push(
                StageFileInfo {
                    path: file.path.clone(),
                    size: file.size,
                    status: StageFileStatus::NeedCopy,
                },
            );
        }
        i = i + 1;
    }
    if need_copy_file_infos.len() == 0 {
        return Err(ErrorCode::empty_data("no file need to copy"));
    }
    Ok(need_copy_file_infos)
}

} // verus!
