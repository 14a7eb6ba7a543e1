//! What a collection of garbage does to the tables of the database.
//!
//! The tables are modelled as sets of rows. What the statements of a collection do to them is
//! written down here as SQLite documents it; the database itself is not looked at.
use vstd::prelude::*;
use vstd::set_lib::{lemma_int_range, lemma_len_subset, lemma_map_size, set_int_range};
use crate::cache::gc::{
    gc_plan, keep, keep_all, outputs_to_keep, views, CREATE_KEPT, DELETE_INPUTS, DELETE_OUTPUTS,
};
use crate::cache::options_json::precedes;
use crate::cache::statement::plain;
use crate::cache::{CacheGcOpts, IncrementalCache, Statement, StatementView};

verus! {

/// Of the input files with the same hash, this many are kept.
pub const INPUTS_PER_HASH: usize = 5;

/// A row of the table of input files.
pub struct InputEntry {
    pub path: Seq<char>,
    pub hash: Seq<char>,
    pub modified_time: Seq<u8>,
    pub last_used_time: Option<Seq<char>>,
}

/// A row of the table of output files.
pub struct OutputEntry {
    pub relative_path: Seq<char>,
    pub hash: Seq<char>,
    pub modified_time: Seq<u8>,
    pub compression_options: Option<Seq<u8>>,
    pub input_hash: Seq<char>,
}

/// The tables of the database.
pub struct Tables {
    pub inputs: Set<InputEntry>,
    pub outputs: Set<OutputEntry>,
    /// The paths in the temporary table of the output files that are kept, while there is one.
    pub noted: Option<Set<Seq<char>>>,
}

/// The output file with this path is to be kept.
pub open spec fn keeps(kept: Option<Seq<Option<Seq<char>>>>, path: Seq<char>) -> bool {
    kept matches Some(paths) ==> paths.contains(Some(path))
}

/// The paths that are to be noted.
pub open spec fn paths_to_note(paths: Seq<Option<Seq<char>>>) -> Set<Seq<char>> {
    Set::new(|path: Seq<char>| paths.contains(Some(path)))
}

/// An output file was made from an input file with this hash.
pub open spec fn is_used(outputs: Set<OutputEntry>, hash: Seq<char>) -> bool {
    exists|output: OutputEntry| #[trigger] outputs.contains(output) && output.input_hash == hash
}

/// The rows of input files that are left once those whose hash is not used are gone.
pub open spec fn used_inputs(
    inputs: Set<InputEntry>,
    outputs: Set<OutputEntry>,
) -> Set<InputEntry> {
    inputs.filter(|input: InputEntry| is_used(outputs, input.hash))
}

/// The rows of input files with this hash.
pub open spec fn with_hash(inputs: Set<InputEntry>, hash: Seq<char>) -> Set<InputEntry> {
    inputs.filter(|input: InputEntry| input.hash == hash)
}

/// The first of two rows was used later than the second. A row without a time was never used.
pub open spec fn used_later(a: InputEntry, b: InputEntry) -> bool {
    match (a.last_used_time, b.last_used_time) {
        (Some(later), Some(earlier)) => precedes(earlier, later),
        (Some(_), None) => true,
        (None, _) => false,
    }
}

/// The rows with the same hash are numbered from one on, those that were used later first.
/// Which comes first of two that were used at the same time is left open.
pub open spec fn numbered(inputs: Set<InputEntry>, number: spec_fn(InputEntry) -> int) -> bool {
    &&& forall|a: InputEntry| #[trigger]
        inputs.contains(a) ==> 1 <= number(a) <= with_hash(inputs, a.hash).len()
    &&& forall|a: InputEntry, b: InputEntry| #[trigger]
        inputs.contains(a) && #[trigger] inputs.contains(b) && a.hash == b.hash && a != b ==> {
            &&& number(a) != number(b)
            &&& used_later(a, b) ==> number(a) < number(b)
        }
}

/// The path is that of a row whose number is too high.
pub open spec fn is_surplus(
    inputs: Set<InputEntry>,
    number: spec_fn(InputEntry) -> int,
    path: Seq<char>,
) -> bool {
    exists|a: InputEntry| #[trigger]
        inputs.contains(a) && a.path == path && number(a) > INPUTS_PER_HASH
}

/// `after` holds the rows of input files that are left once only the few most recently used ones
/// of each hash are kept, by some numbering.
pub open spec fn trimmed(inputs: Set<InputEntry>, after: Set<InputEntry>) -> bool {
    exists|number: spec_fn(InputEntry) -> int| #[trigger]
        numbered(inputs, number) && after == inputs.filter(
            |a: InputEntry| !is_surplus(inputs, number, a.path),
        )
}

/// The statement, if it is one of a collection, makes `after` of the tables.
pub open spec fn executed(statement: StatementView, before: Tables, after: Tables) -> bool {
    &&& statement == plain(CREATE_KEPT@) ==> before.noted is None && after == (Tables {
        noted: Some(Set::empty()),
        ..before
    })
    &&& forall|path: Seq<char>|
        statement == #[trigger] keep(path) ==> before.noted is Some && after == (Tables {
            noted: Some(before.noted->0.insert(path)),
            ..before
        })
    &&& statement == plain(DELETE_OUTPUTS@) ==> before.noted is Some && after == (Tables {
        outputs: before.outputs.filter(
            |output: OutputEntry| before.noted->0.contains(output.relative_path),
        ),
        noted: None,
        ..before
    })
    &&& statement == plain(DELETE_INPUTS@) ==> trimmed(
        used_inputs(before.inputs, before.outputs),
        after.inputs,
    ) && after.outputs == before.outputs && after.noted == before.noted
}

/// The statements, executed in order, make `after` of the tables.
pub open spec fn all_executed(
    statements: Seq<StatementView>,
    before: Tables,
    after: Tables,
) -> bool
    decreases statements.len(),
{
    if statements.len() == 0 {
        after == before
    } else {
        exists|between: Tables|
            all_executed(statements.drop_last(), before, between) && #[trigger] executed(
                statements.last(),
                between,
                after,
            )
    }
}

/// A collection makes `after` of the tables.
pub open spec fn collected(
    before: Tables,
    kept: Option<Seq<Option<Seq<char>>>>,
    after: Tables,
) -> bool {
    all_executed(gc_plan(kept), before, after)
}

/// The last statement is executed on what the others made of the tables.
proof fn lemma_last_is_executed(
    statements: Seq<StatementView>,
    before: Tables,
    after: Tables,
) -> (between: Tables)
    requires
        statements.len() > 0,
        all_executed(statements, before, after),
    ensures
        all_executed(statements.drop_last(), before, between),
        executed(statements.last(), between, after),
        statements.len() == 1 ==> between == before,
{
    reveal_with_fuel(all_executed, 2);
    choose|between: Tables|
        all_executed(statements.drop_last(), before, between) && #[trigger] executed(
            statements.last(),
            between,
            after,
        )
}

/// The paths that are to be kept end up in the temporary table.
proof fn lemma_paths_are_noted(paths: Seq<Option<Seq<char>>>, before: Tables, after: Tables)
    requires
        all_executed(seq![plain(CREATE_KEPT@)] + keep_all(paths), before, after),
    ensures
        before.noted is None,
        after == (Tables { noted: Some(paths_to_note(paths)), ..before }),
    decreases paths.len(),
{
    let statements = seq![plain(CREATE_KEPT@)] + keep_all(paths);
    if paths.len() == 0 {
        let between = lemma_last_is_executed(statements, before, after);
        assert(statements.last() == plain(CREATE_KEPT@));
        assert(paths_to_note(paths) =~= Set::empty());
    } else {
        let rest = paths.drop_last();
        assert(paths =~= rest.push(paths.last()));
        assert forall|path: Seq<char>| #[trigger] paths.contains(Some(path)) == (rest.contains(
            Some(path),
        ) || paths.last() == Some(path)) by {
            if rest.contains(Some(path)) {
                let i = choose|i: int| 0 <= i < rest.len() && rest[i] == Some(path);
                assert(paths[i] == Some(path));
            }
            if paths.last() == Some(path) {
                assert(paths[paths.len() - 1] == Some(path));
            }
        }
        match paths.last() {
            Some(path) => {
                assert(statements.drop_last() =~= seq![plain(CREATE_KEPT@)] + keep_all(rest));
                let between = lemma_last_is_executed(statements, before, after);
                lemma_paths_are_noted(rest, before, between);
                assert(statements.last() == keep(path));
                assert(paths_to_note(paths) =~= paths_to_note(rest).insert(path));
            },
            None => {
                lemma_paths_are_noted(rest, before, after);
                assert(paths_to_note(paths) =~= paths_to_note(rest));
            },
        }
    }
}

/// A collection leaves the output files that are to be kept. Of the input files it leaves those
/// that are used, and of these the few most recently used ones of each hash.
pub proof fn collection_removes_what_is_of_no_use(
    before: Tables,
    kept: Option<Seq<Option<Seq<char>>>>,
    after: Tables,
)
    requires
        collected(before, kept, after),
    ensures
        after.outputs == before.outputs.filter(
            |output: OutputEntry| keeps(kept, output.relative_path),
        ),
        trimmed(used_inputs(before.inputs, after.outputs), after.inputs),
        after.noted == before.noted,
{
    let statements = gc_plan(kept);
    let between = lemma_last_is_executed(statements, before, after);
    assert(statements.last() == plain(DELETE_INPUTS@));
    match kept {
        Some(paths) => {
            let noting = statements.drop_last();
            assert(noting.drop_last() =~= seq![plain(CREATE_KEPT@)] + keep_all(paths));
            assert(noting.last() == plain(DELETE_OUTPUTS@));
            let noted = lemma_last_is_executed(noting, before, between);
            lemma_paths_are_noted(paths, before, noted);
        },
        None => {},
    }
    assert(after.outputs =~= before.outputs.filter(
        |output: OutputEntry| keeps(kept, output.relative_path),
    ));
}

/// After a collection there are only a few input files with the same hash, and every one of them
/// has a hash that is used.
pub proof fn collection_leaves_few_inputs(
    before: Tables,
    kept: Option<Seq<Option<Seq<char>>>>,
    after: Tables,
    hash: Seq<char>,
)
    requires
        before.inputs.finite(),
        collected(before, kept, after),
    ensures
        after.inputs.subset_of(before.inputs),
        with_hash(after.inputs, hash).len() <= INPUTS_PER_HASH,
        forall|input: InputEntry| #[trigger]
            after.inputs.contains(input) ==> is_used(after.outputs, input.hash),
{
    collection_removes_what_is_of_no_use(before, kept, after);
    let inputs = used_inputs(before.inputs, after.outputs);
    let number = choose|number: spec_fn(InputEntry) -> int| #[trigger]
        numbered(inputs, number) && after.inputs == inputs.filter(
            |a: InputEntry| !is_surplus(inputs, number, a.path),
        );
    let group = with_hash(after.inputs, hash);
    lemma_len_subset(group, before.inputs);
    assert forall|a: InputEntry| #[trigger] group.contains(a) implies 1 <= number(a)
        <= INPUTS_PER_HASH by {
        assert(inputs.contains(a));
        assert(!is_surplus(inputs, number, a.path));
    }
    let numbers = group.map(number);
    assert forall|a: InputEntry, b: InputEntry|
        group.contains(a) && group.contains(b) && #[trigger] number(a) == #[trigger] number(
            b,
        ) implies a == b by {
        assert(inputs.contains(a) && inputs.contains(b));
    }
    lemma_map_size(group, numbers, number);
    lemma_int_range(1, INPUTS_PER_HASH + 1);
    assert(numbers.subset_of(set_int_range(1, INPUTS_PER_HASH + 1)));
    lemma_len_subset(numbers, set_int_range(1, INPUTS_PER_HASH + 1));
}

/// A second collection under the same options changes nothing.
pub proof fn collecting_again_changes_nothing(
    before: Tables,
    kept: Option<Seq<Option<Seq<char>>>>,
    after: Tables,
    again: Tables,
)
    requires
        before.inputs.finite(),
        collected(before, kept, after),
        collected(after, kept, again),
    ensures
        again == after,
{
    collection_removes_what_is_of_no_use(before, kept, after);
    collection_removes_what_is_of_no_use(after, kept, again);
    assert(again.outputs =~= after.outputs);
    let inputs = used_inputs(after.inputs, again.outputs);
    assert(inputs =~= after.inputs) by {
        assert forall|input: InputEntry| after.inputs.contains(input) implies #[trigger]
        inputs.contains(input) by {
            collection_leaves_few_inputs(before, kept, after, input.hash);
        }
    }
    let number = choose|number: spec_fn(InputEntry) -> int| #[trigger]
        numbered(inputs, number) && again.inputs == inputs.filter(
            |a: InputEntry| !is_surplus(inputs, number, a.path),
        );
    assert forall|a: InputEntry| inputs.contains(a) implies #[trigger] again.inputs.contains(a) by {
        assert forall|b: InputEntry| #[trigger] inputs.contains(b) implies number(b)
            <= INPUTS_PER_HASH by {
            collection_leaves_few_inputs(before, kept, after, b.hash);
        }
    }
    assert(again.inputs =~= after.inputs);
}

/// Executing what a collection consists of leaves exactly those output files whose paths are given,
/// or all of them where no paths are given, and the input files that these were made from, down to
/// a few of each hash.
pub proof fn collection_goes_by_the_options(
    opts: CacheGcOpts,
    statements: Vec<Statement>,
    before: Tables,
    after: Tables,
    output: OutputEntry,
    input: InputEntry,
)
    requires
        call_ensures(IncrementalCache::garbage_collect, (&opts,), statements),
        all_executed(views(statements@), before, after),
        before.inputs.finite(),
    ensures
        after.outputs.contains(output) <==> before.outputs.contains(output) && (
        opts.remove_all_outputs_except matches Some(paths) ==> exists|i: int|
            0 <= i < paths@.len() && (#[trigger] paths@[i] matches Some(path) && path@
                == output.relative_path)),
        after.inputs.contains(input) ==> before.inputs.contains(input) && exists|output: OutputEntry|
            #[trigger] after.outputs.contains(output) && output.input_hash == input.hash,
        with_hash(after.inputs, input.hash).len() <= 5,
        before.inputs.contains(input) && is_used(after.outputs, input.hash) && (
        forall|other: InputEntry| #[trigger]
            before.inputs.contains(other) && other.hash == input.hash && other != input
                ==> used_later(input, other)) && (forall|other: InputEntry| #[trigger]
            before.inputs.contains(other) && other.path == input.path ==> other == input)
            ==> after.inputs.contains(input),
{
    let kept = outputs_to_keep(opts);
    collection_removes_what_is_of_no_use(before, kept, after);
    collection_leaves_few_inputs(before, kept, after, input.hash);
    if let Some(paths) = opts.remove_all_outputs_except {
        let texts = kept->0;
        assert forall|path: Seq<char>| texts.contains(Some(path)) == exists|i: int|
            0 <= i < paths@.len() && (#[trigger] paths@[i] matches Some(text) && text@ == path) by {
            if texts.contains(Some(path)) {
                let i = choose|i: int| 0 <= i < texts.len() && texts[i] == Some(path);
                assert(paths@[i] matches Some(text) && text@ == path);
            }
            if exists|i: int|
                0 <= i < paths@.len() && (#[trigger] paths@[i] matches Some(text) && text@ == path) {
                let i = choose|i: int|
                    0 <= i < paths@.len() && (#[trigger] paths@[i] matches Some(text) && text@
                        == path);
                assert(texts[i] == Some(path));
            }
        }
    }
    let inputs = used_inputs(before.inputs, after.outputs);
    if inputs.contains(input) && (forall|other: InputEntry| #[trigger]
        before.inputs.contains(other) && other.hash == input.hash && other != input ==> used_later(
            input,
            other,
        )) && (forall|other: InputEntry| #[trigger]
        before.inputs.contains(other) && other.path == input.path ==> other == input) {
        let number = choose|number: spec_fn(InputEntry) -> int| #[trigger]
            numbered(inputs, number) && after.inputs == inputs.filter(
                |a: InputEntry| !is_surplus(inputs, number, a.path),
            );
        lemma_latest_comes_first(inputs, number, input);
        assert(!is_surplus(inputs, number, input.path));
    }
}

/// The row of a hash that was used last has the first number.
proof fn lemma_latest_comes_first(
    inputs: Set<InputEntry>,
    number: spec_fn(InputEntry) -> int,
    input: InputEntry,
)
    requires
        inputs.finite(),
        numbered(inputs, number),
        inputs.contains(input),
        forall|other: InputEntry| #[trigger]
            inputs.contains(other) && other.hash == input.hash && other != input ==> used_later(
                input,
                other,
            ),
    ensures
        number(input) == 1,
{
    let group = with_hash(inputs, input.hash);
    lemma_len_subset(group, inputs);
    let n = group.len() as int;
    let numbers = group.map(number);
    assert forall|a: InputEntry, b: InputEntry|
        group.contains(a) && group.contains(b) && #[trigger] number(a) == #[trigger] number(
            b,
        ) implies a == b by {
        assert(inputs.contains(a) && inputs.contains(b));
    }
    lemma_map_size(group, numbers, number);
    if number(input) > 1 {
        // the others would all have to share the numbers above
        lemma_int_range(2, n + 1);
        assert forall|m: int| #[trigger] numbers.contains(m) implies set_int_range(2, n + 1).contains(
            m,
        ) by {
            let a = choose|a: InputEntry| #[trigger] group.contains(a) && number(a) == m;
            assert(inputs.contains(a) && inputs.contains(input));
        }
        lemma_len_subset(numbers, set_int_range(2, n + 1));
        assert(inputs.contains(input));
    } else {
        assert(inputs.contains(input));
    }
}

} // verus!
