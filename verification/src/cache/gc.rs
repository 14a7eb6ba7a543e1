//! How entries that are of no use any more are removed from the database.
use vstd::prelude::*;
use crate::cache::statement::{plain, positional};
use crate::cache::{Statement, StatementView};

verus! {

/// What is to be removed from the database.
#[derive(Debug)]
#[non_exhaustive]
pub struct CacheGcOpts {
    /// Remove all output files but these, if it is given. A path that is not UTF-8 has no text.
    pub remove_all_outputs_except: Option<Vec<Option<String>>>,
}

/// What [`CacheGcOpts`] keep of the output files.
pub open spec fn outputs_to_keep(opts: CacheGcOpts) -> Option<Seq<Option<Seq<char>>>> {
    match opts.remove_all_outputs_except {
        Some(paths) => Some(paths@.map_values(|path: Option<String>| path_text(path))),
        None => None,
    }
}

/// The text of a path, if it has one.
pub open spec fn path_text(path: Option<String>) -> Option<Seq<char>> {
    match path {
        Some(path) => Some(path@),
        None => None,
    }
}

impl Default for CacheGcOpts {
    fn default() -> (r: Self)
        ensures
            outputs_to_keep(r) is None,
    {
        CacheGcOpts { remove_all_outputs_except: None }
    }
}

/// Failure to remove what is of no use any more.
#[derive(Debug)]
pub struct CacheGcError<D>(pub D);

impl<D> CacheGcError<D> {
    /// The message.
    pub fn to_text(&self) -> (r: String)
        ensures
            r@ == "Failed to GC cache database"@,
    {
        "Failed to GC cache database".to_owned()
    }
}

/// Creates the table of the output files that are kept.
pub const CREATE_KEPT: &'static str = "CREATE TEMPORARY TABLE output_files_to_keep(
    relative_path TEXT
);
";

/// Notes an output file that is kept.
pub const INSERT_KEPT: &'static str = "INSERT INTO output_files_to_keep VALUES (?);";

/// Removes all output files that are not kept.
pub const DELETE_OUTPUTS: &'static str = "DELETE FROM cached_output_files
WHERE NOT EXISTS (
    SELECT 1
    FROM output_files_to_keep k
    WHERE k.relative_path = cached_output_files.relative_path
);
DROP TABLE output_files_to_keep;
";

/// Removes the input files that no output file was made from, and all but a few of those that
/// have the same hash.
pub const DELETE_INPUTS: &'static str = "-- delete input files whose hash is not used
DELETE FROM cached_input_files AS input
WHERE NOT EXISTS (
    SELECT 1
    FROM cached_output_files AS output
    WHERE output.input_hash = input.hash
);
-- for any given input hash, restrict to the 5 most recently used entries
DELETE FROM cached_input_files
WHERE path IN (
    SELECT path FROM (
        SELECT path,
            ROW_NUMBER() OVER (
                PARTITION BY hash
                ORDER BY last_used_time DESC
            ) AS rn
        FROM cached_input_files
    )
    WHERE rn > 5
);
";

/// The statement that notes an output file that is kept.
pub open spec fn keep(path: Seq<char>) -> StatementView {
    StatementView { sql: INSERT_KEPT@, params: seq![positional(path)] }
}

/// The statements that note the output files that are kept, in order. Paths that are not UTF-8
/// are passed over, as they can never match.
pub open spec fn keep_all(paths: Seq<Option<Seq<char>>>) -> Seq<StatementView>
    decreases paths.len(),
{
    if paths.len() == 0 {
        Seq::empty()
    } else {
        let before = keep_all(paths.drop_last());
        match paths.last() {
            Some(path) => before.push(keep(path)),
            None => before,
        }
    }
}

/// The statements that remove what is of no use any more, in order.
pub open spec fn gc_plan(kept: Option<Seq<Option<Seq<char>>>>) -> Seq<StatementView> {
    match kept {
        Some(paths) => seq![plain(CREATE_KEPT@)] + keep_all(paths) + seq![
            plain(DELETE_OUTPUTS@),
            plain(DELETE_INPUTS@),
        ],
        None => seq![plain(DELETE_INPUTS@)],
    }
}

/// What some statements hold.
pub open spec fn views(statements: Seq<Statement>) -> Seq<StatementView> {
    statements.map_values(|statement: Statement| statement@)
}

/// Put together the statements that remove what is of no use any more.
pub(crate) fn gc_statements(opts: &CacheGcOpts) -> (r: Vec<Statement>)
    ensures
        views(r@) == gc_plan(outputs_to_keep(*opts)),
{
    let mut statements: Vec<Statement> = Vec::new();
    if let Some(paths) = &opts.remove_all_outputs_except {
        let ghost kept = outputs_to_keep(*opts)->0;
        statements.push(Statement::plain(CREATE_KEPT));
        let mut i: usize = 0;
        assert(kept.take(0) =~= Seq::empty());
        assert(views(statements@) =~= seq![plain(CREATE_KEPT@)] + keep_all(kept.take(0)));
        while i < paths.len()
            invariant
                i <= paths@.len(),
                kept == paths@.map_values(|path: Option<String>| path_text(path)),
                views(statements@) == seq![plain(CREATE_KEPT@)] + keep_all(kept.take(i as int)),
            decreases paths@.len() - i,
        {
            let ghost before = statements@;
            assert(kept.take(i + 1).drop_last() =~= kept.take(i as int));
            assert(kept.take(i + 1).last() == path_text(paths@[i as int]));
            if let Some(path) = &paths[i] {
                statements.push(Statement::with_text(INSERT_KEPT, path.as_str()));
                assert(views(statements@) =~= views(before).push(keep(path@)));
            }
            i += 1;
            assert(views(statements@) =~= seq![plain(CREATE_KEPT@)] + keep_all(
                kept.take(i as int),
            ));
        }
        assert(kept.take(i as int) =~= kept);
        statements.push(Statement::plain(DELETE_OUTPUTS));
    }
    let ghost before = statements@;
    statements.push(Statement::plain(DELETE_INPUTS));
    assert(views(statements@) =~= views(before).push(plain(DELETE_INPUTS@)));
    assert(views(statements@) =~= gc_plan(outputs_to_keep(*opts)));
    statements
}

/// Every output file that is to be kept is noted before the others are removed.
pub proof fn kept_outputs_are_noted(paths: Seq<Option<Seq<char>>>, index: int)
    requires
        0 <= index < paths.len(),
        paths[index] is Some,
    ensures
        keep_all(paths).contains(keep(paths[index]->0)),
    decreases paths.len(),
{
    let before = keep_all(paths.drop_last());
    if index == paths.len() - 1 {
        assert(keep_all(paths).last() == keep(paths[index]->0));
    } else {
        kept_outputs_are_noted(paths.drop_last(), index);
        let at = choose|at: int| 0 <= at < before.len() && before[at] == keep(paths[index]->0);
        assert(keep_all(paths)[at] == before[at]);
    }
}

/// Nothing else is noted as an output file that is kept.
pub proof fn only_kept_outputs_are_noted(paths: Seq<Option<Seq<char>>>, statement: StatementView)
    requires
        keep_all(paths).contains(statement),
    ensures
        exists|index: int|
            0 <= index < paths.len() && #[trigger] paths[index] is Some && statement == keep(
                paths[index]->0,
            ),
    decreases paths.len(),
{
    let before = keep_all(paths.drop_last());
    let at = choose|at: int| 0 <= at < keep_all(paths).len() && keep_all(paths)[at] == statement;
    if at < before.len() {
        assert(before[at] == statement);
        only_kept_outputs_are_noted(paths.drop_last(), statement);
        let index = choose|index: int|
            0 <= index < paths.drop_last().len() && #[trigger] paths.drop_last()[index] is Some
                && statement == keep(paths.drop_last()[index]->0);
        assert(paths[index] is Some);
    } else {
        assert(paths[paths.len() - 1] is Some);
    }
}

} // verus!
