//! The statements that the cache runs on its database.
use vstd::prelude::*;
use crate::cache::{Checksum, ColumnValue, ColumnView, FileModificationTime, OptionsJson};
use crate::cache::{digest_text, iso8601_text, text_column_round_trip, ColumnError};
use crate::cache::{HashRowView, HashView, OutputInfoView, OutputRowView, RowErrorView};
use crate::text::contains_text;

verus! {

/// A value that is bound to a parameter of a statement.
#[derive(Debug)]
pub struct Param {
    /// The name of the parameter, where it has one.
    pub name: Option<&'static str>,
    pub value: ColumnValue,
}

/// A statement, or several of them, with what is bound to the parameters in order.
#[derive(Debug)]
pub struct Statement {
    pub sql: String,
    pub params: Vec<Param>,
}

/// What a [`Param`] holds.
pub struct ParamView {
    pub name: Option<Seq<char>>,
    pub value: ColumnView,
}

/// What a [`Statement`] holds.
pub struct StatementView {
    pub sql: Seq<char>,
    pub params: Seq<ParamView>,
}

impl View for Param {
    type V = ParamView;

    open spec fn view(&self) -> ParamView {
        ParamView {
            name: match self.name {
                Some(name) => Some(name@),
                None => None,
            },
            value: self.value@,
        }
    }
}

impl View for Statement {
    type V = StatementView;

    open spec fn view(&self) -> StatementView {
        StatementView { sql: self.sql@, params: self.params@.map_values(|param: Param| param@) }
    }
}

/// A value for the parameter with this name.
pub open spec fn named(name: Seq<char>, value: ColumnView) -> ParamView {
    ParamView { name: Some(name), value }
}

/// A text for the next parameter.
pub open spec fn positional(text: Seq<char>) -> ParamView {
    ParamView { name: None, value: ColumnView::of_text(text) }
}

/// A statement without parameters.
pub open spec fn plain(sql: Seq<char>) -> StatementView {
    StatementView { sql, params: Seq::empty() }
}

fn named_param(name: &'static str, value: ColumnValue) -> (r: Param)
    ensures
        r@ == named(name@, value@),
{
    Param { name: Some(name), value }
}

impl Statement {
    /// A statement without parameters.
    pub fn plain(sql: &str) -> (r: Statement)
        ensures
            r@ == plain(sql@),
    {
        let r = Statement { sql: sql.to_owned(), params: Vec::new() };
        assert(r@.params =~= Seq::empty());
        r
    }

    /// A statement with one positional parameter, which is a text.
    pub fn with_text(sql: &str, text: &str) -> (r: Statement)
        ensures
            r@ == (StatementView { sql: sql@, params: seq![positional(text@)] }),
    {
        let mut params: Vec<Param> = Vec::new();
        params.push(Param { name: None, value: ColumnValue::from_text(text) });
        let r = Statement { sql: sql.to_owned(), params };
        assert(r@.params =~= seq![positional(text@)]);
        r
    }
}

/// The table of output files.
pub const OUTPUT_FILE_TABLE: &'static str = "cached_output_files";

/// The table of input files.
pub const INPUT_FILE_TABLE: &'static str = "cached_input_files";

/// The two sorts of files whose hashes are kept.
#[derive(Copy, Clone, Debug, PartialEq, Eq, Structural)]
pub enum HashFileKind {
    Input,
    Output,
}

impl HashFileKind {
    /// What the sort of file is called.
    pub open spec fn spec_name(self) -> Seq<char> {
        match self {
            HashFileKind::Input => "input"@,
            HashFileKind::Output => "output"@,
        }
    }

    /// The table that holds the hashes.
    pub open spec fn spec_table(self) -> Seq<char> {
        match self {
            HashFileKind::Input => INPUT_FILE_TABLE@,
            HashFileKind::Output => OUTPUT_FILE_TABLE@,
        }
    }

    /// The column by which the table is searched.
    pub open spec fn spec_path_field(self) -> Seq<char> {
        match self {
            HashFileKind::Input => "path"@,
            HashFileKind::Output => "relative_path"@,
        }
    }

    /// What the sort of file is called.
    pub fn name(&self) -> (r: &'static str)
        ensures
            r@ == self.spec_name(),
    {
        match self {
            HashFileKind::Input => "input",
            HashFileKind::Output => "output",
        }
    }

    /// The table that holds the hashes.
    pub fn table_name(&self) -> (r: &'static str)
        ensures
            r@ == self.spec_table(),
    {
        match self {
            HashFileKind::Input => INPUT_FILE_TABLE,
            HashFileKind::Output => OUTPUT_FILE_TABLE,
        }
    }

    /// The column by which the table is searched.
    pub fn path_field_name(&self) -> (r: &'static str)
        ensures
            r@ == self.spec_path_field(),
    {
        match self {
            HashFileKind::Input => "path",
            HashFileKind::Output => "relative_path",
        }
    }
}

/// The statement that looks up the hash of a file.
pub open spec fn hash_query(kind: HashFileKind, path: Seq<char>) -> StatementView {
    StatementView {
        sql: "SELECT * FROM "@ + kind.spec_table() + " WHERE "@ + kind.spec_path_field() + " = ?"@,
        params: seq![positional(path)],
    }
}

/// Look up the hash of a file.
pub fn query_hash(kind: HashFileKind, path: &str) -> (r: Statement)
    ensures
        r@ == hash_query(kind, path@),
{
    let mut sql = "SELECT * FROM ".to_owned();
    sql.append(kind.table_name());
    sql.append(" WHERE ");
    sql.append(kind.path_field_name());
    sql.append(" = ?");
    Statement::with_text(sql.as_str(), path)
}

/// Replaces what is known of an input file, and marks it as just used.
pub const UPSERT_INPUT: &'static str =
    "INSERT INTO cached_input_files(path, hash, modified_time, last_used_time)
VALUES (:path, :hash, :modified_time, datetime('now', 'subsec'))
ON CONFLICT(path) DO UPDATE SET
    hash = excluded.hash,
    modified_time = excluded.modified_time,
    last_used_time = excluded.last_used_time;
";

/// The statement that keeps the hash of an input file.
pub open spec fn input_update(
    path: Seq<char>,
    hash: Checksum,
    modified: FileModificationTime,
) -> StatementView {
    StatementView {
        sql: UPSERT_INPUT@,
        params: seq![
            named(":path"@, ColumnView::of_text(path)),
            named(":hash"@, ColumnView::of_text(digest_text(hash.digest()))),
            named(":modified_time"@, ColumnView::of_text(iso8601_text(modified.moment()))),
        ],
    }
}

/// The row that [`UPSERT_INPUT`] leaves behind.
pub open spec fn input_row(statement: StatementView) -> HashRowView {
    HashRowView { hash: statement.params[1].value, modified_time: statement.params[2].value }
}

/// Keep the hash of an input file. It can be read again.
pub fn update_input(path: &str, hash: &Checksum, modified: &FileModificationTime) -> (r: Statement)
    requires
        modified.writable(),
    ensures
        r@ == input_update(path@, *hash, *modified),
        input_row(r@).content() == Ok::<HashView, RowErrorView>(
            HashView { hash: hash.digest(), timestamp: modified.moment() },
        ),
{
    let mut params: Vec<Param> = Vec::new();
    params.push(named_param(":path", ColumnValue::from_text(path)));
    params.push(named_param(":hash", hash.to_sql()));
    params.push(named_param(":modified_time", modified.to_sql()));
    let r = Statement { sql: UPSERT_INPUT.to_owned(), params };
    assert(r@.params =~= input_update(path@, *hash, *modified).params);
    r
}

/// Finds what is known of an output file.
pub const SELECT_OUTPUT: &'static str =
    "SELECT * FROM cached_output_files WHERE relative_path = :path";

/// Look up what is known of an output file.
pub fn query_output(relative_path: &str) -> (r: Statement)
    ensures
        r@ == (StatementView {
            sql: SELECT_OUTPUT@,
            params: seq![named(":path"@, ColumnView::of_text(relative_path@))],
        }),
{
    let mut params: Vec<Param> = Vec::new();
    params.push(named_param(":path", ColumnValue::from_text(relative_path)));
    let r = Statement { sql: SELECT_OUTPUT.to_owned(), params };
    assert(r@.params =~= seq![named(":path"@, ColumnView::of_text(relative_path@))]);
    r
}

/// Replaces what is known of an output file.
pub const REPLACE_OUTPUT: &'static str = "INSERT OR REPLACE INTO cached_output_files
(relative_path, hash, modified_time, compression_options, input_hash)
VALUES (:rel_path, :output_hash, :modified_time, :compress_opts, :input_hash);
";

/// The statement that keeps what is known of an output file.
pub open spec fn output_update(
    relative_path: Seq<char>,
    output_hash: Checksum,
    modified: FileModificationTime,
    options: Seq<char>,
    input_hash: Checksum,
) -> StatementView {
    StatementView {
        sql: REPLACE_OUTPUT@,
        params: seq![
            named(":rel_path"@, ColumnView::of_text(relative_path)),
            named(":output_hash"@, ColumnView::of_text(digest_text(output_hash.digest()))),
            named(":modified_time"@, ColumnView::of_text(iso8601_text(modified.moment()))),
            named(":compress_opts"@, ColumnView::of_text(options)),
            named(":input_hash"@, ColumnView::of_text(digest_text(input_hash.digest()))),
        ],
    }
}

/// The row that [`REPLACE_OUTPUT`] leaves behind.
pub open spec fn output_row(statement: StatementView) -> OutputRowView {
    OutputRowView {
        hash: statement.params[1].value,
        modified_time: statement.params[2].value,
        compression_options: statement.params[3].value,
        input_hash: statement.params[4].value,
    }
}

/// Keep what is known of an output file. It can be read again.
pub fn update_output(
    relative_path: &str,
    output_hash: &Checksum,
    modified: &FileModificationTime,
    options: &OptionsJson,
    input_hash: &Checksum,
) -> (r: Statement)
    requires
        modified.writable(),
    ensures
        r@ == output_update(
            relative_path@,
            *output_hash,
            *modified,
            options.notation(),
            *input_hash,
        ),
        output_row(r@).content() == Ok::<OutputInfoView, RowErrorView>(
            OutputInfoView {
                input_hash: input_hash.digest(),
                compression_opts: options.notation(),
                output_hash: output_hash.digest(),
                output_modified: modified.moment(),
            },
        ),
{
    let mut params: Vec<Param> = Vec::new();
    params.push(named_param(":rel_path", ColumnValue::from_text(relative_path)));
    params.push(named_param(":output_hash", output_hash.to_sql()));
    params.push(named_param(":modified_time", modified.to_sql()));
    params.push(named_param(":compress_opts", options.to_sql()));
    params.push(named_param(":input_hash", input_hash.to_sql()));
    let r = Statement { sql: REPLACE_OUTPUT.to_owned(), params };
    assert(r@.params =~= output_update(
        relative_path@,
        *output_hash,
        *modified,
        options.notation(),
        *input_hash,
    ).params);
    r
}

/// The hash of a file is looked up in the table for its sort of file, and by its path: a lookup
/// of another path is another statement.
pub proof fn lookups_go_by_the_path(
    kind: HashFileKind,
    path: &str,
    r: Statement,
    other_path: &str,
    other: Statement,
)
    requires
        call_ensures(query_hash, (kind, path), r),
        call_ensures(query_hash, (kind, other_path), other),
    ensures
        kind is Input ==> r@.sql == "SELECT * FROM "@ + "cached_input_files"@ + " WHERE "@
            + "path"@ + " = ?"@,
        kind is Output ==> r@.sql == "SELECT * FROM "@ + "cached_output_files"@ + " WHERE "@
            + "relative_path"@ + " = ?"@,
        r@.params.len() == 1,
        r@.params[0].value.text() == Ok::<Seq<char>, ColumnError>(path@),
        path@ != other_path@ ==> r@ != other@,
{
    text_column_round_trip(path@);
    text_column_round_trip(other_path@);
    assert(r@.params == seq![positional(path@)]);
    assert(other@.params == seq![positional(other_path@)]);
    assert(r@.params[0].value == ColumnView::of_text(path@));
    assert(other@.params[0].value == ColumnView::of_text(other_path@));
}

/// What is known of an output file is kept and looked up under the same path.
pub proof fn outputs_are_kept_under_their_path(
    path: &str,
    output_hash: Checksum,
    modified: FileModificationTime,
    options: OptionsJson,
    input_hash: Checksum,
    kept: Statement,
    query: Statement,
)
    requires
        call_ensures(
            update_output,
            (path, &output_hash, &modified, &options, &input_hash),
            kept,
        ),
        call_ensures(query_output, (path,), query),
    ensures
        query@.params.len() == 1,
        query@.params[0].value == kept@.params[0].value,
        kept@.params[0].value.text() == Ok::<Seq<char>, ColumnError>(path@),
{
    text_column_round_trip(path@);
}

/// The hash of an input file is kept under the path by which it is looked up.
pub proof fn inputs_are_kept_under_their_path(
    path: &str,
    hash: Checksum,
    modified: FileModificationTime,
    kept: Statement,
    query: Statement,
)
    requires
        call_ensures(update_input, (path, &hash, &modified), kept),
        call_ensures(query_hash, (HashFileKind::Input, path), query),
    ensures
        query@.params.len() == 1,
        query@.params[0].value == kept@.params[0].value,
        kept@.params[0].value.text() == Ok::<Seq<char>, ColumnError>(path@),
        input_row(kept@).content() == Ok::<HashView, RowErrorView>(
            HashView { hash: hash.digest(), timestamp: modified.moment() },
        ),
{
    text_column_round_trip(path@);
    assert(query@.params == seq![positional(path@)]);
}

/// What is kept of a file takes the place of all that was kept of it before, and every value goes
/// to the column that it belongs to.
pub proof fn kept_rows_replace_older_ones()
    ensures
        contains_text(UPSERT_INPUT@, "cached_input_files(path, hash, modified_time, last_used_time)\nVALUES (:path, :hash, :modified_time, datetime("@),
        contains_text(UPSERT_INPUT@, "ON CONFLICT(path) DO UPDATE SET"@),
        contains_text(UPSERT_INPUT@, "    hash = excluded.hash,"@),
        contains_text(UPSERT_INPUT@, "    modified_time = excluded.modified_time,"@),
        contains_text(UPSERT_INPUT@, "    last_used_time = excluded.last_used_time;"@),
        contains_text(REPLACE_OUTPUT@, "INSERT OR REPLACE INTO cached_output_files\n"@),
        contains_text(REPLACE_OUTPUT@, "(relative_path, hash, modified_time, compression_options, input_hash)\nVALUES (:rel_path, :output_hash, :modified_time, :compress_opts, :input_hash);"@),
{
    reveal_strlit("INSERT INTO cached_input_files(path, hash, modified_time, last_used_time)\nVALUES (:path, :hash, :modified_time, datetime('now', 'subsec'))\nON CONFLICT(path) DO UPDATE SET\n    hash = excluded.hash,\n    modified_time = excluded.modified_time,\n    last_used_time = excluded.last_used_time;\n");
    reveal_strlit("cached_input_files(path, hash, modified_time, last_used_time)\nVALUES (:path, :hash, :modified_time, datetime(");
    reveal_strlit("ON CONFLICT(path) DO UPDATE SET");
    reveal_strlit("    hash = excluded.hash,");
    reveal_strlit("    modified_time = excluded.modified_time,");
    reveal_strlit("    last_used_time = excluded.last_used_time;");
    reveal_strlit("INSERT OR REPLACE INTO cached_output_files\n(relative_path, hash, modified_time, compression_options, input_hash)\nVALUES (:rel_path, :output_hash, :modified_time, :compress_opts, :input_hash);\n");
    reveal_strlit("INSERT OR REPLACE INTO cached_output_files\n");
    reveal_strlit("(relative_path, hash, modified_time, compression_options, input_hash)\nVALUES (:rel_path, :output_hash, :modified_time, :compress_opts, :input_hash);");
    assert(UPSERT_INPUT@.subrange(12int, 12int + "cached_input_files(path, hash, modified_time, last_used_time)\nVALUES (:path, :hash, :modified_time, datetime("@.len()) =~= "cached_input_files(path, hash, modified_time, last_used_time)\nVALUES (:path, :hash, :modified_time, datetime("@);
    assert(UPSERT_INPUT@.subrange(139int, 139int + "ON CONFLICT(path) DO UPDATE SET"@.len()) =~= "ON CONFLICT(path) DO UPDATE SET"@);
    assert(UPSERT_INPUT@.subrange(171int, 171int + "    hash = excluded.hash,"@.len()) =~= "    hash = excluded.hash,"@);
    assert(UPSERT_INPUT@.subrange(197int, 197int + "    modified_time = excluded.modified_time,"@.len()) =~= "    modified_time = excluded.modified_time,"@);
    assert(UPSERT_INPUT@.subrange(241int, 241int + "    last_used_time = excluded.last_used_time;"@.len()) =~= "    last_used_time = excluded.last_used_time;"@);
    assert(REPLACE_OUTPUT@.subrange(0int, 0int + "INSERT OR REPLACE INTO cached_output_files\n"@.len()) =~= "INSERT OR REPLACE INTO cached_output_files\n"@);
    assert(REPLACE_OUTPUT@.subrange(43int, 43int + "(relative_path, hash, modified_time, compression_options, input_hash)\nVALUES (:rel_path, :output_hash, :modified_time, :compress_opts, :input_hash);"@.len()) =~= "(relative_path, hash, modified_time, compression_options, input_hash)\nVALUES (:rel_path, :output_hash, :modified_time, :compress_opts, :input_hash);"@);
}

} // verus!
