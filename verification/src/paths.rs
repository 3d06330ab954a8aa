//! The `get_app_paths` command: resolve the platform's application-data and
//! application-config directories into a pair of path strings, or surface
//! the first host failure as an error string. The host runtime performs the
//! two directory queries; this module decides what becomes of their
//! outcomes.

use vstd::prelude::*;

verus! {

/// The pair of directories that a successful `get_app_paths` reports.
/// Built fresh for each request and handed straight back to the caller.
#[derive(Clone, Debug)]
pub struct AppPaths {
    pub app_data: String,
    pub app_config: String,
}

/// The mathematical content of an [`AppPaths`]: its two paths as character
/// sequences.
pub struct AppPathsView {
    pub app_data: Seq<char>,
    pub app_config: Seq<char>,
}

impl View for AppPaths {
    type V = AppPathsView;

    open spec fn view(&self) -> AppPathsView {
        AppPathsView { app_data: self.app_data@, app_config: self.app_config@ }
    }
}

/// A host query outcome reduced to its mathematical content: the resolved
/// path, or the error description.
pub open spec fn query_view(q: Result<String, String>) -> Result<Seq<char>, Seq<char>> {
    match q {
        Ok(s) => Ok(s@),
        Err(e) => Err(e@),
    }
}

/// What `get_app_paths` answers for a pair of query outcomes: the first
/// failure wins, and only two successes yield a pair.
pub open spec fn paths_outcome(
    data: Result<Seq<char>, Seq<char>>,
    config: Result<Seq<char>, Seq<char>>,
) -> Result<AppPathsView, Seq<char>> {
    match data {
        Err(e) => Err(e),
        Ok(d) => match config {
            Err(e) => Err(e),
            Ok(c) => Ok(AppPathsView { app_data: d, app_config: c }),
        },
    }
}

/// The response as its mathematical content, so that one equation can state
/// the whole command.
pub open spec fn response_view(r: Result<AppPaths, String>) -> Result<AppPathsView, Seq<char>> {
    match r {
        Ok(p) => Ok(p@),
        Err(e) => Err(e@),
    }
}

/// Where the command stands after the application-data query: either the
/// config directory is still wanted, or the command has already failed and
/// the host need not be asked again.
#[derive(Clone, Debug)]
pub enum PathsStep {
    NeedConfig { app_data: String },
    Fail { error: String },
}

/// First step of `get_app_paths`: read the outcome of the application-data
/// query. A failure ends the command with that error; a success keeps the
/// resolved path and asks for the config directory next.
pub fn get_app_paths_start(data_query: Result<String, String>) -> (r: PathsStep)
    ensures
        data_query matches Ok(d) ==> r matches PathsStep::NeedConfig { app_data } && app_data@
            == d@,
        data_query matches Err(e) ==> r matches PathsStep::Fail { error } && error@ == e@,
{
    match data_query {
        Ok(d) => PathsStep::NeedConfig { app_data: d },
        Err(e) => PathsStep::Fail { error: e },
    }
}

/// Second step of `get_app_paths`: combine the kept application-data path
/// with the outcome of the config query. A failure ends the command with
/// that error; a success yields the finished pair.
pub fn get_app_paths_finish(app_data: String, config_query: Result<String, String>) -> (r: Result<
    AppPaths,
    String,
>)
    ensures
        config_query matches Ok(c) ==> r matches Ok(p) && p@.app_data == app_data@ && p@.app_config
            == c@,
        config_query matches Err(e) ==> r matches Err(err) && err@ == e@,
{
    match config_query {
        Ok(c) => Ok(AppPaths { app_data, app_config: c }),
        Err(e) => Err(e),
    }
}

/// The whole command on a pair of query outcomes. When the first query has
/// already failed, the host may skip the second; the adapter then drives
/// [`get_app_paths_start`] and [`get_app_paths_finish`] directly and never
/// produces a second outcome.
pub fn get_app_paths(
    data_query: Result<String, String>,
    config_query: Result<String, String>,
) -> (r: Result<AppPaths, String>)
    ensures
        response_view(r) == paths_outcome(query_view(data_query), query_view(config_query)),
{
    match get_app_paths_start(data_query) {
        PathsStep::Fail { error } => Err(error),
        PathsStep::NeedConfig { app_data } => get_app_paths_finish(app_data, config_query),
    }
}

/// The command answers a pair or an error, never anything in between: it
/// fails exactly when one of the queries failed, and when the host resolves
/// both directories to non-empty paths the answer is a pair of two
/// non-empty path strings.
pub proof fn lemma_paths_total(
    data: Result<Seq<char>, Seq<char>>,
    config: Result<Seq<char>, Seq<char>>,
)
    requires
        data matches Ok(d) ==> d.len() > 0,
        config matches Ok(c) ==> c.len() > 0,
    ensures
        paths_outcome(data, config) is Err <==> data is Err || config is Err,
        paths_outcome(data, config) matches Ok(v) ==> v.app_data.len() > 0 && v.app_config.len()
            > 0,
{
}

} // verus!
