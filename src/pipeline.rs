use vstd::prelude::*;

use crate::column::{Column, ColumnModel, Row};
use crate::statement::{
    column_names_of, get_column_names_from_insert_into_query,
    get_column_values_from_insert_into_query, insert_table_name, insert_target, is_keyword_at,
    value_positions_of, views_of, INSERT_POSITION, INTO_POSITION,
};
use crate::token::{Keyword, Token};
use crate::transformer::{
    keys_of, last_index_of, last_rule_applies, registry_key, table_and_column_key, Transformer,
    TransformerRegistry,
};
use crate::typing::{infer_column, typed_column};

verus! {

/// Why a stream of rows ended in failure.
#[derive(PartialEq, Eq, Structural, Clone, Copy, Debug)]
pub enum StreamError {
    /// The dump producer could not be started.
    Spawn,
    /// The dump producer's output could not be captured.
    OutputCapture,
    /// An insertion statement whose columns and values do not pair up, or
    /// whose numeric literal does not spell a number.
    MalformedStatement,
    /// The dump producer ended with a failure status.
    ProducerExit,
    /// Two rules are keyed for the same column.
    DuplicateRuleKey,
    /// More row pairs than can be counted.
    TooManyRows,
}

/// The decoded columns of an insertion statement, or `None` where its column
/// names and values differ in number or a value does not decode.
pub open spec fn statement_columns(t: Seq<Token>) -> Option<Seq<ColumnModel>> {
    let names = column_names_of(t);
    let pos = value_positions_of(t);
    if names.len() != pos.len() || exists|i: int|
        0 <= i < names.len() && (#[trigger] typed_column(names[i], t[pos[i]])) is None {
        None
    } else {
        Some(Seq::new(names.len(), |i: int| typed_column(names[i], t[pos[i]])->Some_0))
    }
}

/// `original` holds the decoded columns of an insertion into `table`, and
/// `transformed` the same columns after the rules: same table, same number of
/// columns, same name at each position; where no rule is keyed for a column
/// its value is unchanged, and otherwise it is what the last rule listed for
/// the column turned it into.
pub open spec fn is_row_pair<T: Transformer>(
    original: Row,
    transformed: Row,
    table: Seq<char>,
    cols: Seq<ColumnModel>,
    transformers: Seq<T>,
) -> bool {
    &&& original.table_name@ == table
    &&& transformed.table_name@ == table
    &&& original.column_models() == cols
    &&& transformed.columns@.len() == cols.len()
    &&& forall|i: int|
        0 <= i < cols.len() ==> (#[trigger] transformed.columns@[i])@.name() == cols[i].name()
    &&& forall|i: int|
        0 <= i < cols.len() ==> rule_outcome(
            transformers,
            registry_key(table, cols[i].name()),
            cols[i],
            (#[trigger] transformed.columns@[i])@,
        )
}

/// `after` is what the rules make of `before` in a column with the given key:
/// `before` itself where no rule is keyed for it, and otherwise a value that
/// the last rule listed for the key may turn `before` into.
pub open spec fn rule_outcome<T: Transformer>(
    transformers: Seq<T>,
    key: Seq<char>,
    before: ColumnModel,
    after: ColumnModel,
) -> bool {
    match last_index_of(keys_of(transformers), key) {
        None => after == before,
        Some(j) => transformers[j].transforms_to(before, after),
    }
}

/// The rows of an emitted pair have equally many columns, with the same name
/// at each position.
pub proof fn row_pair_columns_align<T: Transformer>(
    original: Row,
    transformed: Row,
    table: Seq<char>,
    cols: Seq<ColumnModel>,
    transformers: Seq<T>,
)
    requires
        is_row_pair(original, transformed, table, cols, transformers),
    ensures
        original.columns@.len() == transformed.columns@.len(),
        forall|i: int|
            0 <= i < original.columns@.len() ==> (#[trigger] original.columns@[i])@.name()
                == transformed.columns@[i]@.name(),
{
    assert forall|i: int| 0 <= i < original.columns@.len() implies (
    #[trigger] original.columns@[i])@.name() == transformed.columns@[i]@.name() by {
        assert(original.column_models()[i] == cols[i]);
        assert(transformed.columns@[i]@.name() == cols[i].name());
    }
}

/// A column that no rule is keyed for comes out of the pair exactly as it
/// went in.
pub proof fn row_pair_passes_through<T: Transformer>(
    original: Row,
    transformed: Row,
    table: Seq<char>,
    cols: Seq<ColumnModel>,
    transformers: Seq<T>,
    i: int,
)
    requires
        is_row_pair(original, transformed, table, cols, transformers),
        0 <= i < original.columns@.len(),
        forall|m: int|
            0 <= m < transformers.len() ==> #[trigger] transformers[m].key() != registry_key(
                table,
                original.columns@[i]@.name(),
            ),
    ensures
        transformed.columns@[i]@ == original.columns@[i]@,
{
    assert(original.column_models()[i] == cols[i]);
    last_rule_applies(transformers, registry_key(table, cols[i].name()));
}

/// A column that rules are keyed for comes out of the pair as the last of
/// them, listed at `j`, turned it into; the rule is keyed for that column.
pub proof fn row_pair_applies_last_rule<T: Transformer>(
    original: Row,
    transformed: Row,
    table: Seq<char>,
    cols: Seq<ColumnModel>,
    transformers: Seq<T>,
    i: int,
    j: int,
)
    requires
        is_row_pair(original, transformed, table, cols, transformers),
        0 <= i < original.columns@.len(),
        0 <= j < transformers.len(),
        transformers[j].key() == registry_key(table, original.columns@[i]@.name()),
        forall|m: int|
            j < m < transformers.len() ==> #[trigger] transformers[m].key() != registry_key(
                table,
                original.columns@[i]@.name(),
            ),
    ensures
        transformers[j].transforms_to(original.columns@[i]@, transformed.columns@[i]@),
        transformed.columns@[i]@.name() == original.columns@[i]@.name(),
{
    assert(original.column_models()[i] == cols[i]);
    last_rule_applies(transformers, registry_key(table, cols[i].name()));
    assert(rule_outcome(
        transformers,
        registry_key(table, cols[i].name()),
        cols[i],
        transformed.columns@[i]@,
    ));
}

/// What handling one statement gives: nothing for a statement that is not a
/// row insertion, an error for a malformed insertion, and otherwise the row
/// pair of the insertion under the rules keyed in `keys`.
pub open spec fn is_statement_result<T: Transformer>(
    t: Seq<Token>,
    transformers: Seq<T>,
    r: Result<Option<(Row, Row)>, StreamError>,
) -> bool {
    match insert_target(t) {
        None => r matches Ok(None),
        Some(table) => match statement_columns(t) {
            None => r matches Err(StreamError::MalformedStatement),
            Some(cols) => r matches Ok(Some(pair)) && is_row_pair(pair.0, pair.1, table, cols, transformers),
        },
    }
}

/// A statement without `INSERT` and `INTO` at their positions yields no row
/// pair and no error.
pub proof fn non_insertion_is_skipped<T: Transformer>(
    t: Seq<Token>,
    transformers: Seq<T>,
    r: Result<Option<(Row, Row)>, StreamError>,
)
    requires
        !is_keyword_at(t, Keyword::Insert, INSERT_POSITION as int) || !is_keyword_at(
            t,
            Keyword::Into,
            INTO_POSITION as int,
        ),
        is_statement_result(t, transformers, r),
    ensures
        r matches Ok(None),
{
}

/// The row pair of one dump statement: `None` for a statement that is not a
/// row insertion, the original and transformed rows for one that is.
pub fn rows_from_statement<T: Transformer>(
    tokens: &Vec<Token>,
    registry: &TransformerRegistry,
    transformers: &Vec<T>,
) -> (r: Result<Option<(Row, Row)>, StreamError>)
    requires
        registry.keys() == keys_of(transformers@),
    ensures
        is_statement_result(tokens@, transformers@, r),
{
    let table = match insert_table_name(tokens) {
        Some(t) => t,
        None => {
            return Ok(None);
        },
    };
    let names = get_column_names_from_insert_into_query(tokens);
    let positions = get_column_values_from_insert_into_query(tokens);
    let ghost t = tokens@;
    let ghost nv = column_names_of(t);
    let ghost pv = value_positions_of(t);
    let ghost keys = registry.keys();
    assert(names@.len() == nv.len());
    assert(positions@.len() == pv.len());
    if names.len() != positions.len() {
        return Err(StreamError::MalformedStatement);
    }
    let mut originals: Vec<Column> = Vec::new();
    let mut transformed: Vec<Column> = Vec::new();
    let mut i: usize = 0;
    while i < names.len()
        invariant
            t == tokens@,
            keys == registry.keys(),
            keys == keys_of(transformers@),
            insert_target(t) == Some(table@),
            nv == column_names_of(t),
            pv == value_positions_of(t),
            names@.len() == positions@.len() == nv.len() == pv.len(),
            views_of(names@) == nv,
            positions@.map_values(|p: usize| p as int) == pv,
            forall|k: int| 0 <= k < positions@.len() ==> positions@[k] < tokens@.len(),
            i <= names@.len(),
            originals@.len() == i,
            transformed@.len() == i,
            forall|k: int|
                0 <= k < i ==> typed_column(nv[k], t[pv[k]]) == Some((#[trigger] originals@[k])@),
            forall|k: int|
                0 <= k < i ==> (#[trigger] transformed@[k])@.name() == originals@[k]@.name(),
            forall|k: int|
                0 <= k < i ==> rule_outcome(
                    transformers@,
                    registry_key(table@, originals@[k]@.name()),
                    originals@[k]@,
                    (#[trigger] transformed@[k])@,
                ),
        decreases names@.len() - i,
    {
        assert(nv[i as int] == names@[i as int]@);
        assert(pv[i as int] == positions@[i as int] as int);
        let column = match infer_column(&names[i], &tokens[positions[i]]) {
            Some(c) => c,
            None => {
                assert(typed_column(nv[i as int], t[pv[i as int]]) is None);
                assert(statement_columns(t) is None);
                return Err(StreamError::MalformedStatement);
            },
        };
        let key = table_and_column_key(&table, &names[i]);
        let out = match registry.lookup(&key) {
            Some(j) => transformers[j].transform(column.duplicate()),
            None => column.duplicate(),
        };
        assert(rule_outcome(transformers@, key@, column@, out@));
        originals.push(column);
        transformed.push(out);
        i = i + 1;
    }
    let ghost cols = Seq::new(nv.len(), |k: int| typed_column(nv[k], t[pv[k]])->Some_0);
    assert forall|k: int| 0 <= k < nv.len() implies (#[trigger] typed_column(nv[k], t[pv[k]]))
        is Some by {
        assert(typed_column(nv[k], t[pv[k]]) == Some(originals@[k]@));
    }
    assert(statement_columns(t) == Some(cols));
    let original_row = Row { table_name: table.clone(), columns: originals };
    let transformed_row = Row { table_name: table, columns: transformed };
    assert(original_row.column_models() =~= cols);
    Ok(Some((original_row, transformed_row)))
}

/// The stages of one run over a dump, in the only order they can come.
#[derive(PartialEq, Eq, Structural, Clone, Copy, Debug)]
pub enum Phase {
    NotStarted,
    ProducerSpawned,
    Streaming,
    Draining,
    Finished,
}

/// The decisions of one run over a dump. The caller starts the producer,
/// reads and lexes its output, and reports each step; the pipeline answers
/// with the rows to hand on, or with the error that ends the run.
pub struct RowPipeline<T> {
    transformers: Vec<T>,
    registry: TransformerRegistry,
    phase: Phase,
    rows_emitted: usize,
    strict: bool,
}

impl<T: Transformer> RowPipeline<T> {
    pub closed spec fn wf(&self) -> bool {
        self.registry.keys() == keys_of(self.transformers@)
    }

    pub closed spec fn phase_spec(&self) -> Phase {
        self.phase
    }

    /// Whether a malformed statement ends the run (the default) or is
    /// reported and skipped.
    pub closed spec fn strict_spec(&self) -> bool {
        self.strict
    }

    /// How many row pairs the run has handed out so far.
    pub closed spec fn emitted(&self) -> nat {
        self.rows_emitted as nat
    }

    /// The rules, in the order they were listed.
    pub closed spec fn rules(&self) -> Seq<T> {
        self.transformers@
    }

    /// A run that has not started, over the given rules.
    pub fn new(transformers: Vec<T>) -> (r: Self)
        ensures
            r.wf(),
            r.phase_spec() == Phase::NotStarted,
            r.emitted() == 0,
            r.strict_spec(),
            r.rules() == transformers@,
    {
        let registry = TransformerRegistry::build(&transformers);
        RowPipeline { transformers, registry, phase: Phase::NotStarted, rows_emitted: 0, strict: true }
    }

    /// A run that has not started, over the given rules and their keys, the
    /// keys already read.
    pub fn with_registry(transformers: Vec<T>, registry: TransformerRegistry) -> (r: Self)
        requires
            registry.keys() == keys_of(transformers@),
        ensures
            r.wf(),
            r.phase_spec() == Phase::NotStarted,
            r.emitted() == 0,
            r.strict_spec(),
            r.rules() == transformers@,
    {
        RowPipeline { transformers, registry, phase: Phase::NotStarted, rows_emitted: 0, strict: true }
    }

    /// A run that has not started, over rules that must each be keyed for a
    /// different column; two rules with one key are refused.
    pub fn with_unique_keys(transformers: Vec<T>) -> (r: Result<Self, StreamError>)
        ensures
            match r {
                Ok(p) => {
                    &&& p.wf()
                    &&& p.phase_spec() == Phase::NotStarted
                    &&& p.emitted() == 0
                    &&& p.rules() == transformers@
                    &&& p.strict_spec()
                    &&& forall|i: int, j: int|
                        0 <= i < j < transformers@.len() ==> #[trigger] transformers@[i].key()
                            != #[trigger] transformers@[j].key()
                },
                Err(e) => {
                    &&& e == StreamError::DuplicateRuleKey
                    &&& exists|i: int, j: int|
                        0 <= i < j < transformers@.len() && #[trigger] transformers@[i].key()
                            == #[trigger] transformers@[j].key()
                },
            },
    {
        let registry = TransformerRegistry::build(&transformers);
        if registry.has_duplicate_keys() {
            proof {
                let i = choose|i: int, j: int|
                    0 <= i < j < registry.keys().len() && #[trigger] registry.keys()[i]
                        == #[trigger] registry.keys()[j];
                assert(registry.keys()[i.0] == transformers@[i.0].key());
                assert(registry.keys()[i.1] == transformers@[i.1].key());
            }
            return Err(StreamError::DuplicateRuleKey);
        }
        proof {
            assert forall|i: int, j: int|
                0 <= i < j < transformers@.len() implies #[trigger] transformers@[i].key()
                != #[trigger] transformers@[j].key() by {
                assert(registry.keys()[i] == transformers@[i].key());
                assert(registry.keys()[j] == transformers@[j].key());
            }
        }
        Ok(RowPipeline { transformers, registry, phase: Phase::NotStarted, rows_emitted: 0, strict: true })
    }

    /// Chooses, before the run starts, whether a malformed statement ends
    /// the run or is only reported, the run going on with the next one.
    pub fn set_strict(&mut self, strict: bool)
        requires
            old(self).wf(),
            old(self).phase_spec() == Phase::NotStarted,
        ensures
            final(self).wf(),
            final(self).rules() == old(self).rules(),
            final(self).emitted() == old(self).emitted(),
            final(self).phase_spec() == Phase::NotStarted,
            final(self).strict_spec() == strict,
    {
        self.strict = strict;
    }

    pub fn phase(&self) -> (r: Phase)
        ensures
            r == self.phase_spec(),
    {
        self.phase
    }

    pub fn rows_emitted(&self) -> (r: usize)
        ensures
            r == self.emitted(),
    {
        self.rows_emitted
    }

    /// Reports whether the producer process started.
    pub fn producer_spawned(&mut self, spawned: bool) -> (r: Result<(), StreamError>)
        requires
            old(self).wf(),
            old(self).phase_spec() == Phase::NotStarted,
        ensures
            final(self).wf(),
            final(self).rules() == old(self).rules(),
            final(self).strict_spec() == old(self).strict_spec(),
            final(self).emitted() == old(self).emitted(),
            spawned ==> r is Ok && final(self).phase_spec() == Phase::ProducerSpawned,
            !spawned ==> r == Err::<(), StreamError>(StreamError::Spawn) && final(self).phase_spec() == Phase::Finished,
    {
        if spawned {
            self.phase = Phase::ProducerSpawned;
            Ok(())
        } else {
            self.phase = Phase::Finished;
            Err(StreamError::Spawn)
        }
    }

    /// Reports whether the producer's output could be captured.
    pub fn output_captured(&mut self, captured: bool) -> (r: Result<(), StreamError>)
        requires
            old(self).wf(),
            old(self).phase_spec() == Phase::ProducerSpawned,
        ensures
            final(self).wf(),
            final(self).rules() == old(self).rules(),
            final(self).strict_spec() == old(self).strict_spec(),
            final(self).emitted() == old(self).emitted(),
            captured ==> r is Ok && final(self).phase_spec() == Phase::Streaming,
            !captured ==> r == Err::<(), StreamError>(StreamError::OutputCapture) && final(self).phase_spec() == Phase::Finished,
    {
        if captured {
            self.phase = Phase::Streaming;
            Ok(())
        } else {
            self.phase = Phase::Finished;
            Err(StreamError::OutputCapture)
        }
    }

    /// Hands over the tokens of the next statement of the dump. A row pair
    /// that comes back is to be passed on; an error ends the run.
    pub fn next_statement(&mut self, tokens: &Vec<Token>) -> (r: Result<
        Option<(Row, Row)>,
        StreamError,
    >)
        requires
            old(self).wf(),
            old(self).phase_spec() == Phase::Streaming,
        ensures
            final(self).wf(),
            final(self).rules() == old(self).rules(),
            final(self).strict_spec() == old(self).strict_spec(),
            old(self).emitted() < usize::MAX ==> is_statement_result(tokens@, old(self).rules(), r),
            old(self).emitted() == usize::MAX ==> r == Err::<Option<(Row, Row)>, StreamError>(
                StreamError::TooManyRows,
            ) && final(self).phase_spec() == Phase::Finished,
            r matches Ok(Some(_)) ==> final(self).emitted() == old(self).emitted() + 1,
            !(r matches Ok(Some(_))) ==> final(self).emitted() == old(self).emitted(),
            r is Ok ==> final(self).phase_spec() == Phase::Streaming,
            r matches Err(StreamError::MalformedStatement) ==> final(self).phase_spec() == if old(self).strict_spec() {
                Phase::Finished
            } else {
                Phase::Streaming
            },
    {
        if self.rows_emitted == usize::MAX {
            self.phase = Phase::Finished;
            return Err(StreamError::TooManyRows);
        }
        let r = rows_from_statement(tokens, &self.registry, &self.transformers);
        match &r {
            Ok(Some(_)) => {
                self.rows_emitted = self.rows_emitted + 1;
            },
            Ok(None) => {},
            Err(_) => {
                if self.strict {
                    self.phase = Phase::Finished;
                }
            },
        }
        r
    }

    /// Reports that the producer's output has been read to its end.
    pub fn output_ended(&mut self)
        requires
            old(self).wf(),
            old(self).phase_spec() == Phase::Streaming,
        ensures
            final(self).wf(),
            final(self).rules() == old(self).rules(),
            final(self).strict_spec() == old(self).strict_spec(),
            final(self).emitted() == old(self).emitted(),
            final(self).phase_spec() == Phase::Draining,
    {
        self.phase = Phase::Draining;
    }

    /// Reports how the producer process ended. A failure status fails the
    /// run, however many rows were handed out before; success gives the
    /// number of row pairs handed out.
    pub fn producer_exited(&mut self, success: bool) -> (r: Result<usize, StreamError>)
        requires
            old(self).wf(),
            old(self).phase_spec() == Phase::Draining,
        ensures
            final(self).wf(),
            final(self).rules() == old(self).rules(),
            final(self).strict_spec() == old(self).strict_spec(),
            final(self).emitted() == old(self).emitted(),
            final(self).phase_spec() == Phase::Finished,
            success ==> (r matches Ok(n) && n == old(self).emitted()),
            !success ==> r == Err::<usize, StreamError>(StreamError::ProducerExit),
    {
        self.phase = Phase::Finished;
        if success {
            Ok(self.rows_emitted)
        } else {
            Err(StreamError::ProducerExit)
        }
    }
}

} // verus!
