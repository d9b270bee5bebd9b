//! The tables, indexes and keys of a database, and the ones that it must have.

use vstd::prelude::*;
use crate::name_listing::list_names;
use crate::schema_support::{incompatible, SchemaError};
use crate::text::Text;

verus! {

/// A column of a table, as the database lists it.
#[derive(Debug)]
pub struct Column {
    pub name: Text,
    pub kind: Text,
    pub not_null: bool,
    pub primary_key: i64,
}

/// A column that a table must have.
#[derive(Debug)]
pub struct ExpectedColumn {
    pub name: &'static str,
    pub kind: &'static str,
    pub not_null: bool,
    pub primary_key: i64,
}

/// A column of a unique index, in the order of the index.
#[derive(Debug)]
pub struct IndexColumn {
    pub index: Text,
    pub column: Text,
}

/// A column of a foreign key.
#[derive(Debug)]
pub struct KeyColumn {
    pub id: i64,
    pub target: Text,
    pub from: Text,
    pub to: Text,
}

/// A column of a foreign key that a table must have.
#[derive(Debug)]
pub struct ExpectedKeyColumn {
    pub from: &'static str,
    pub to: &'static str,
}

/// Whether names hold a name.
pub open spec fn names_hold(names: Seq<Text>, name: Seq<char>) -> bool {
    exists|i: int| 0 <= i < names.len() && (#[trigger] names[i])@ == name
}

/// Whether literals hold a name.
pub open spec fn literals_hold(names: Seq<&'static str>, name: Seq<char>) -> bool {
    exists|i: int| 0 <= i < names.len() && (#[trigger] names[i])@ == name
}

/// Whether names are exactly some literals, in any order.
#[verifier::opaque]
pub open spec fn names_are(names: Seq<Text>, expected: Seq<&'static str>) -> bool {
    &&& forall|i: int| 0 <= i < names.len() ==> literals_hold(expected, (#[trigger] names[i])@)
    &&& forall|i: int| 0 <= i < expected.len() ==> names_hold(names, (#[trigger] expected[i])@)
}

fn finds_literal(names: &Vec<&'static str>, name: &Text) -> (r: bool)
    ensures
        r == literals_hold(names@, name@),
{
    let mut i: usize = 0;
    while i < names.len()
        invariant
            i <= names@.len(),
            forall|j: int| 0 <= j < i ==> (#[trigger] names@[j])@ != name@,
        decreases names.len() - i,
    {
        if name.is(names[i]) {
            return true;
        }
        i += 1;
    }
    false
}

fn finds_name(names: &Vec<Text>, name: &str) -> (r: bool)
    ensures
        r == names_hold(names@, name@),
{
    let mut i: usize = 0;
    while i < names.len()
        invariant
            i <= names@.len(),
            forall|j: int| 0 <= j < i ==> (#[trigger] names@[j])@ != name@,
        decreases names.len() - i,
    {
        if names[i].is(name) {
            return true;
        }
        i += 1;
    }
    false
}

/// Whether names are exactly some literals, in any order.
pub fn are_names(names: &Vec<Text>, expected: &Vec<&'static str>) -> (r: bool)
    ensures
        r == names_are(names@, expected@),
{
    proof {
        reveal(names_are);
    }
    let mut i: usize = 0;
    while i < names.len()
        invariant
            i <= names@.len(),
            forall|j: int| 0 <= j < i ==> literals_hold(expected@, (#[trigger] names@[j])@),
        decreases names.len() - i,
    {
        proof {
            reveal(names_are);
        }
        if !finds_literal(expected, &names[i]) {
            return false;
        }
        i += 1;
    }
    let mut k: usize = 0;
    while k < expected.len()
        invariant
            k <= expected@.len(),
            forall|j: int| 0 <= j < k ==> names_hold(names@, (#[trigger] expected@[j])@),
        decreases expected.len() - k,
    {
        proof {
            reveal(names_are);
        }
        if !finds_name(names, expected[k]) {
            return false;
        }
        k += 1;
    }
    true
}

/// The tables that every database of the store has.
pub open spec fn core_tables() -> Seq<&'static str> {
    seq!["events", "runs", "sessions"]
}

/// The tables that every database of the store has.
pub fn expected_table_names() -> (r: Vec<&'static str>)
    ensures
        r@ == core_tables(),
{
    let names = vec!["events", "runs", "sessions"];
    assert(names@ =~= core_tables());
    names
}

/// The names of columns.
pub open spec fn column_names(columns: Seq<Column>) -> Seq<Text> {
    columns.map_values(|column: Column| column.name)
}

/// What is said of a table whose columns are not named as expected.
pub open spec fn unexpected_columns(table: Seq<char>, columns: Seq<Column>) -> Seq<char> {
    "unexpected columns in "@ + table + ": "@ + crate::name_listing::listing(column_names(columns))
}

/// Refuses a table whose columns are not named as expected.
pub fn ensure_column_names(
    table: &str,
    columns: &Vec<Column>,
    expected: &Vec<&'static str>,
    version: i64,
) -> (r: Result<(), SchemaError>)
    ensures
        crate::schema_support::reports(
            r,
            crate::schema_support::expect(
                names_are(column_names(columns@), expected@),
                version,
                unexpected_columns(table@, columns@),
            ),
        ),
{
    let mut names: Vec<Text> = Vec::new();
    let mut i: usize = 0;
    while i < columns.len()
        invariant
            i <= columns@.len(),
            names@ == column_names(columns@.take(i as int)),
        decreases columns.len() - i,
    {
        let name = columns[i].name.clone();
        assert(column_names(columns@.take(i + 1)) =~= names@.push(name));
        names.push(name);
        i += 1;
    }
    assert(columns@.take(i as int) =~= columns@);
    if are_names(&names, expected) {
        Ok(())
    } else {
        let detail = Text::around("unexpected columns in ", &Text::of(table), ": ");
        Err(incompatible(version, detail.followed_by(&list_names(&names))))
    }
}

/// Whether a column is defined as expected; the case of its type makes no difference.
pub open spec fn is_column(column: Column, expected: ExpectedColumn) -> bool {
    &&& column.name@ == expected.name@
    &&& crate::schema_support::raised(column.kind@) == expected.kind@
    &&& column.not_null == expected.not_null
    &&& column.primary_key == expected.primary_key
}

/// Whether a column is among the expected ones.
pub open spec fn is_expected(expected: Seq<ExpectedColumn>, column: Column) -> bool {
    exists|j: int| 0 <= j < expected.len() && is_column(column, #[trigger] expected[j])
}

/// Whether an expected column is there.
pub open spec fn is_there(columns: Seq<Column>, expected: ExpectedColumn) -> bool {
    exists|i: int| 0 <= i < columns.len() && is_column(#[trigger] columns[i], expected)
}

/// Whether the columns of a table are exactly the expected ones.
#[verifier::opaque]
pub open spec fn columns_are(columns: Seq<Column>, expected: Seq<ExpectedColumn>) -> bool {
    &&& forall|i: int| 0 <= i < columns.len() ==> is_expected(expected, #[trigger] columns[i])
    &&& forall|j: int| 0 <= j < expected.len() ==> is_there(columns, #[trigger] expected[j])
}

fn matches_column(column: &Column, expected: &ExpectedColumn) -> (r: bool)
    ensures
        r == is_column(*column, *expected),
{
    column.name.is(expected.name) && crate::schema_support::raises_to(
        &column.kind,
        expected.kind,
    ) && column.not_null == expected.not_null && column.primary_key == expected.primary_key
}

fn expects_column(expected: &Vec<ExpectedColumn>, column: &Column) -> (r: bool)
    ensures
        r == is_expected(expected@, *column),
{
    let mut j: usize = 0;
    while j < expected.len()
        invariant
            j <= expected@.len(),
            forall|k: int| 0 <= k < j ==> !is_column(*column, #[trigger] expected@[k]),
        decreases expected.len() - j,
    {
        if matches_column(column, &expected[j]) {
            return true;
        }
        j += 1;
    }
    false
}

fn finds_column(columns: &Vec<Column>, expected: &ExpectedColumn) -> (r: bool)
    ensures
        r == is_there(columns@, *expected),
{
    let mut i: usize = 0;
    while i < columns.len()
        invariant
            i <= columns@.len(),
            forall|k: int| 0 <= k < i ==> !is_column(#[trigger] columns@[k], *expected),
        decreases columns.len() - i,
    {
        if matches_column(&columns[i], expected) {
            return true;
        }
        i += 1;
    }
    false
}

/// Whether the columns of a table are exactly the expected ones.
pub fn are_columns(columns: &Vec<Column>, expected: &Vec<ExpectedColumn>) -> (r: bool)
    ensures
        r == columns_are(columns@, expected@),
{
    proof {
        reveal(columns_are);
    }
    let mut i: usize = 0;
    while i < columns.len()
        invariant
            i <= columns@.len(),
            forall|k: int| 0 <= k < i ==> is_expected(expected@, #[trigger] columns@[k]),
        decreases columns.len() - i,
    {
        proof {
            reveal(columns_are);
        }
        if !expects_column(expected, &columns[i]) {
            return false;
        }
        i += 1;
    }
    let mut j: usize = 0;
    while j < expected.len()
        invariant
            j <= expected@.len(),
            forall|k: int| 0 <= k < j ==> is_there(columns@, #[trigger] expected@[k]),
        decreases expected.len() - j,
    {
        proof {
            reveal(columns_are);
        }
        if !finds_column(columns, &expected[j]) {
            return false;
        }
        j += 1;
    }
    true
}

/// Refuses a table whose columns are not defined as expected.
pub fn ensure_columns(
    table: &str,
    columns: &Vec<Column>,
    expected: &Vec<ExpectedColumn>,
    version: i64,
) -> (r: Result<(), SchemaError>)
    ensures
        crate::schema_support::reports(
            r,
            crate::schema_support::expect(
                columns_are(columns@, expected@),
                version,
                table@ + " does not match the canonical column definition"@,
            ),
        ),
{
    if are_columns(columns, expected) {
        return Ok(());
    }
    let detail = Text::around(
        "",
        &Text::of(table),
        " does not match the canonical column definition",
    );
    proof {
        reveal_strlit("");
        assert(""@ =~= Seq::<char>::empty());
        assert(""@ + table@ =~= table@);
    }
    Err(incompatible(version, detail))
}

/// The columns of one unique index, in their order.
pub open spec fn index_columns(rows: Seq<IndexColumn>, index: Seq<char>) -> Seq<Seq<char>>
    decreases rows.len(),
{
    if rows.len() == 0 {
        Seq::empty()
    } else if rows.last().index@ == index {
        index_columns(rows.drop_last(), index).push(rows.last().column@)
    } else {
        index_columns(rows.drop_last(), index)
    }
}

/// The characters of literals.
pub open spec fn spelled(literals: Seq<&'static str>) -> Seq<Seq<char>> {
    literals.map_values(|literal: &'static str| literal@)
}

/// Whether some unique index is on exactly these columns, in this order.
#[verifier::opaque]
pub open spec fn has_index(rows: Seq<IndexColumn>, columns: Seq<&'static str>) -> bool {
    exists|i: int|
        0 <= i < rows.len() && index_columns(rows, (#[trigger] rows[i]).index@) == spelled(columns)
}

fn collect_index<'a>(rows: &'a Vec<IndexColumn>, index: &Text) -> (r: Vec<&'a Text>)
    ensures
        r@.len() == index_columns(rows@, index@).len(),
        forall|i: int|
            0 <= i < r@.len() ==> (#[trigger] r@[i])@ == index_columns(rows@, index@)[i],
{
    let mut columns: Vec<&'a Text> = Vec::new();
    let mut i: usize = 0;
    while i < rows.len()
        invariant
            i <= rows@.len(),
            columns@.len() == index_columns(rows@.take(i as int), index@).len(),
            forall|j: int|
                0 <= j < columns@.len() ==> (#[trigger] columns@[j])@ == index_columns(
                    rows@.take(i as int),
                    index@,
                )[j],
        decreases rows.len() - i,
    {
        assert(rows@.take(i + 1).drop_last() =~= rows@.take(i as int));
        assert(rows@.take(i + 1).last() == rows@[i as int]);
        if rows[i].index == *index {
            columns.push(&rows[i].column);
        }
        i += 1;
    }
    assert(rows@.take(i as int) =~= rows@);
    columns
}

fn are_spelled(names: &Vec<&Text>, literals: &Vec<&'static str>) -> (r: bool)
    ensures
        r == (names@.map_values(|name: &Text| name@) == spelled(literals@)),
{
    let ghost actual = names@.map_values(|name: &Text| name@);
    let ghost wanted = spelled(literals@);
    if names.len() != literals.len() {
        assert(actual.len() != wanted.len());
        return false;
    }
    let mut i: usize = 0;
    while i < names.len()
        invariant
            i <= names@.len(),
            names@.len() == literals@.len(),
            actual == names@.map_values(|name: &Text| name@),
            wanted == spelled(literals@),
            forall|k: int| 0 <= k < i ==> #[trigger] actual[k] == wanted[k],
        decreases names.len() - i,
    {
        if !names[i].is(literals[i]) {
            assert(actual[i as int] != wanted[i as int]);
            return false;
        }
        i += 1;
    }
    assert(actual =~= wanted);
    true
}

/// Whether some unique index is on exactly these columns, in this order.
pub fn has_unique_index(rows: &Vec<IndexColumn>, columns: &Vec<&'static str>) -> (r: bool)
    ensures
        r == has_index(rows@, columns@),
{
    proof {
        reveal(has_index);
    }
    let mut i: usize = 0;
    while i < rows.len()
        invariant
            i <= rows@.len(),
            forall|j: int|
                0 <= j < i ==> index_columns(rows@, (#[trigger] rows@[j]).index@) != spelled(
                    columns@,
                ),
        decreases rows.len() - i,
    {
        proof {
            reveal(has_index);
        }
        let found = collect_index(rows, &rows[i].index);
        assert(found@.map_values(|name: &Text| name@) =~= index_columns(
            rows@,
            rows@[i as int].index@,
        ));
        if are_spelled(&found, columns) {
            return true;
        }
        i += 1;
    }
    false
}

/// Whether a row begins a foreign key.
pub open spec fn begins_key(rows: Seq<KeyColumn>, i: int) -> bool {
    0 <= i < rows.len() && forall|j: int| 0 <= j < i ==> (#[trigger] rows[j]).id != rows[i].id
}

/// Whether a key column is an expected one.
pub open spec fn is_key_column(row: KeyColumn, expected: ExpectedKeyColumn) -> bool {
    row.from@ == expected.from@ && row.to@ == expected.to@
}

/// Whether a key column is among the expected ones.
pub open spec fn expects_key_column(columns: Seq<ExpectedKeyColumn>, row: KeyColumn) -> bool {
    exists|j: int| 0 <= j < columns.len() && is_key_column(row, #[trigger] columns[j])
}

/// Whether a foreign key has an expected column.
pub open spec fn key_covers(rows: Seq<KeyColumn>, id: i64, column: ExpectedKeyColumn) -> bool {
    exists|i: int|
        0 <= i < rows.len() && rows[i].id == id && is_key_column(#[trigger] rows[i], column)
}

/// Whether a foreign key is on exactly these columns, in any order.
#[verifier::opaque]
pub open spec fn key_is_on(rows: Seq<KeyColumn>, id: i64, columns: Seq<ExpectedKeyColumn>) -> bool {
    &&& forall|i: int|
        0 <= i < rows.len() && (#[trigger] rows[i]).id == id ==> expects_key_column(columns, rows[i])
    &&& forall|j: int| 0 <= j < columns.len() ==> key_covers(rows, id, #[trigger] columns[j])
}

/// Whether some foreign key leads to a table, on exactly these columns. The target of a key is the
/// one in its first row.
#[verifier::opaque]
pub open spec fn has_key(
    rows: Seq<KeyColumn>,
    target: Seq<char>,
    columns: Seq<ExpectedKeyColumn>,
) -> bool {
    exists|i: int|
        #[trigger] begins_key(rows, i) && rows[i].target@ == target && key_is_on(
            rows,
            rows[i].id,
            columns,
        )
}

fn begins(rows: &Vec<KeyColumn>, i: usize) -> (r: bool)
    requires
        i < rows@.len(),
    ensures
        r == begins_key(rows@, i as int),
{
    let mut j: usize = 0;
    while j < i
        invariant
            j <= i < rows@.len(),
            forall|k: int| 0 <= k < j ==> (#[trigger] rows@[k]).id != rows@[i as int].id,
        decreases i - j,
    {
        if rows[j].id == rows[i].id {
            return false;
        }
        j += 1;
    }
    true
}

fn expects(columns: &Vec<ExpectedKeyColumn>, row: &KeyColumn) -> (r: bool)
    ensures
        r == expects_key_column(columns@, *row),
{
    let mut j: usize = 0;
    while j < columns.len()
        invariant
            j <= columns@.len(),
            forall|k: int| 0 <= k < j ==> !is_key_column(*row, #[trigger] columns@[k]),
        decreases columns.len() - j,
    {
        if row.from.is(columns[j].from) && row.to.is(columns[j].to) {
            return true;
        }
        j += 1;
    }
    false
}

fn covers(rows: &Vec<KeyColumn>, id: i64, column: &ExpectedKeyColumn) -> (r: bool)
    ensures
        r == key_covers(rows@, id, *column),
{
    let mut i: usize = 0;
    while i < rows.len()
        invariant
            i <= rows@.len(),
            forall|k: int|
                0 <= k < i ==> !(rows@[k].id == id && is_key_column(#[trigger] rows@[k], *column)),
        decreases rows.len() - i,
    {
        if rows[i].id == id && rows[i].from.is(column.from) && rows[i].to.is(column.to) {
            return true;
        }
        i += 1;
    }
    false
}

fn is_key_on(rows: &Vec<KeyColumn>, id: i64, columns: &Vec<ExpectedKeyColumn>) -> (r: bool)
    ensures
        r == key_is_on(rows@, id, columns@),
{
    proof {
        reveal(key_is_on);
    }
    let mut i: usize = 0;
    while i < rows.len()
        invariant
            i <= rows@.len(),
            forall|k: int|
                0 <= k < i && (#[trigger] rows@[k]).id == id ==> expects_key_column(
                    columns@,
                    rows@[k],
                ),
        decreases rows.len() - i,
    {
        proof {
            reveal(key_is_on);
        }
        if rows[i].id == id && !expects(columns, &rows[i]) {
            return false;
        }
        i += 1;
    }
    let mut j: usize = 0;
    while j < columns.len()
        invariant
            j <= columns@.len(),
            forall|k: int| 0 <= k < j ==> key_covers(rows@, id, #[trigger] columns@[k]),
        decreases columns.len() - j,
    {
        proof {
            reveal(key_is_on);
        }
        if !covers(rows, id, &columns[j]) {
            return false;
        }
        j += 1;
    }
    true
}

/// Whether some foreign key leads to a table, on exactly these columns.
pub fn has_foreign_key(
    rows: &Vec<KeyColumn>,
    target: &str,
    columns: &Vec<ExpectedKeyColumn>,
) -> (r: bool)
    ensures
        r == has_key(rows@, target@, columns@),
{
    proof {
        reveal(has_key);
    }
    let mut i: usize = 0;
    while i < rows.len()
        invariant
            i <= rows@.len(),
            forall|k: int|
                0 <= k < i ==> !(#[trigger] begins_key(rows@, k) && rows@[k].target@ == target@
                    && key_is_on(rows@, rows@[k].id, columns@)),
        decreases rows.len() - i,
    {
        proof {
            reveal(has_key);
        }
        if begins(rows, i) && rows[i].target.is(target) && is_key_on(rows, rows[i].id, columns) {
            return true;
        }
        i += 1;
    }
    false
}

/// Every column of a table is one that it should have: by its name, its type in any case, whether it
/// may be null and its part in the primary key.
pub proof fn law_every_column_is_expected(
    columns: Seq<Column>,
    expected: Seq<ExpectedColumn>,
    i: int,
) -> (j: int)
    requires
        columns_are(columns, expected),
        0 <= i < columns.len(),
    ensures
        0 <= j < expected.len(),
        columns[i].name@ == expected[j].name@,
        crate::schema_support::raised(columns[i].kind@) == expected[j].kind@,
        columns[i].not_null == expected[j].not_null,
        columns[i].primary_key == expected[j].primary_key,
{
    reveal(columns_are);
    assert(is_expected(expected, columns[i]));
    choose|j: int| 0 <= j < expected.len() && is_column(columns[i], #[trigger] expected[j])
}

/// Every column that a table should have is there: by its name, its type in any case, whether it may
/// be null and its part in the primary key.
pub proof fn law_every_expected_column_is_there(
    columns: Seq<Column>,
    expected: Seq<ExpectedColumn>,
    j: int,
) -> (i: int)
    requires
        columns_are(columns, expected),
        0 <= j < expected.len(),
    ensures
        0 <= i < columns.len(),
        columns[i].name@ == expected[j].name@,
        crate::schema_support::raised(columns[i].kind@) == expected[j].kind@,
        columns[i].not_null == expected[j].not_null,
        columns[i].primary_key == expected[j].primary_key,
{
    reveal(columns_are);
    assert(is_there(columns, expected[j]));
    choose|i: int| 0 <= i < columns.len() && is_column(#[trigger] columns[i], expected[j])
}

/// Where names are exactly some others, each of them is one of these.
pub proof fn law_every_name_is_expected(
    names: Seq<Text>,
    expected: Seq<&'static str>,
    i: int,
) -> (j: int)
    requires
        names_are(names, expected),
        0 <= i < names.len(),
    ensures
        0 <= j < expected.len(),
        names[i]@ == expected[j]@,
{
    reveal(names_are);
    assert(literals_hold(expected, names[i]@));
    choose|j: int| 0 <= j < expected.len() && (#[trigger] expected[j])@ == names[i]@
}

/// Where names are exactly some others, each of these is among them.
pub proof fn law_every_expected_name_is_there(
    names: Seq<Text>,
    expected: Seq<&'static str>,
    j: int,
) -> (i: int)
    requires
        names_are(names, expected),
        0 <= j < expected.len(),
    ensures
        0 <= i < names.len(),
        names[i]@ == expected[j]@,
{
    reveal(names_are);
    assert(names_hold(names, expected[j]@));
    choose|i: int| 0 <= i < names.len() && (#[trigger] names[i])@ == expected[j]@
}

proof fn lemma_index_rows(rows: Seq<IndexColumn>, index: Seq<char>, k: int)
    requires
        0 <= k < index_columns(rows, index).len(),
    ensures
        exists|i: int|
            #![trigger rows[i]]
            0 <= i < rows.len() && rows[i].index@ == index && rows[i].column@ == index_columns(
                rows,
                index,
            )[k],
    decreases rows.len(),
{
    let shorter = rows.drop_last();
    if rows.last().index@ == index && k == index_columns(shorter, index).len() {
        assert(rows[rows.len() - 1].index@ == index);
    } else {
        lemma_index_rows(shorter, index, k);
        let i = choose|i: int|
            #![trigger shorter[i]]
            0 <= i < shorter.len() && shorter[i].index@ == index && shorter[i].column@
                == index_columns(shorter, index)[k];
        assert(rows[i] == shorter[i]);
    }
}

/// A unique index is on exactly its columns: as many, each at its place in the order of the index, and
/// each a row of that one index.
pub proof fn law_index_is_on_its_columns(rows: Seq<IndexColumn>, columns: Seq<&'static str>) -> (i:
    int)
    requires
        has_index(rows, columns),
    ensures
        0 <= i < rows.len(),
        index_columns(rows, rows[i].index@).len() == columns.len(),
        forall|k: int|
            0 <= k < columns.len() ==> index_columns(rows, rows[i].index@)[k] == (
            #[trigger] columns[k])@,
        forall|k: int|
            0 <= k < columns.len() ==> exists|j: int|
                #![trigger rows[j]]
                0 <= j < rows.len() && rows[j].index@ == rows[i].index@ && rows[j].column@ == (
                #[trigger] columns[k])@,
{
    reveal(has_index);
    let i = choose|i: int|
        0 <= i < rows.len() && index_columns(rows, (#[trigger] rows[i]).index@) == spelled(columns);
    assert forall|k: int| 0 <= k < columns.len() implies index_columns(rows, rows[i].index@)[k] == (
    #[trigger] columns[k])@ by {
        assert(spelled(columns)[k] == columns[k]@);
    }
    assert forall|k: int| 0 <= k < columns.len() implies exists|j: int|
        #![trigger rows[j]]
        0 <= j < rows.len() && rows[j].index@ == rows[i].index@ && rows[j].column@ == (
        #[trigger] columns[k])@ by {
        lemma_index_rows(rows, rows[i].index@, k);
    }
    i
}

proof fn lemma_find_key(
    rows: Seq<KeyColumn>,
    target: Seq<char>,
    columns: Seq<ExpectedKeyColumn>,
) -> (i: int)
    requires
        has_key(rows, target, columns),
    ensures
        0 <= i < rows.len(),
        rows[i].target@ == target,
        key_is_on(rows, rows[i].id, columns),
{
    reveal(has_key);
    choose|i: int|
        #[trigger] begins_key(rows, i) && rows[i].target@ == target && key_is_on(
            rows,
            rows[i].id,
            columns,
        )
}

proof fn lemma_find_key_column(
    rows: Seq<KeyColumn>,
    id: i64,
    columns: Seq<ExpectedKeyColumn>,
    k: int,
) -> (j: int)
    requires
        key_is_on(rows, id, columns),
        0 <= k < columns.len(),
    ensures
        0 <= j < rows.len(),
        rows[j].id == id,
        rows[j].from@ == columns[k].from@,
        rows[j].to@ == columns[k].to@,
{
    assert(key_covers(rows, id, columns[k])) by {
        reveal(key_is_on);
    }
    choose|j: int|
        0 <= j < rows.len() && rows[j].id == id && is_key_column(#[trigger] rows[j], columns[k])
}

/// A foreign key leads to its table on all of its columns: each of these, from and to, is a row of one
/// key to that table.
pub proof fn law_key_leads_to_its_table(
    rows: Seq<KeyColumn>,
    target: Seq<char>,
    columns: Seq<ExpectedKeyColumn>,
    k: int,
) -> (places: (int, int))
    requires
        has_key(rows, target, columns),
        0 <= k < columns.len(),
    ensures
        0 <= places.0 < rows.len(),
        0 <= places.1 < rows.len(),
        rows[places.0].target@ == target,
        rows[places.1].id == rows[places.0].id,
        rows[places.1].from@ == columns[k].from@,
        rows[places.1].to@ == columns[k].to@,
{
    let i = lemma_find_key(rows, target, columns);
    (i, lemma_find_key_column(rows, rows[i].id, columns, k))
}

/// A key has no other columns: every row of it is one of those that are expected of it.
pub proof fn law_key_has_no_other_column(
    rows: Seq<KeyColumn>,
    id: i64,
    columns: Seq<ExpectedKeyColumn>,
    j: int,
) -> (k: int)
    requires
        key_is_on(rows, id, columns),
        0 <= j < rows.len(),
        rows[j].id == id,
    ensures
        0 <= k < columns.len(),
        rows[j].from@ == columns[k].from@,
        rows[j].to@ == columns[k].to@,
{
    assert(expects_key_column(columns, rows[j])) by {
        reveal(key_is_on);
    }
    choose|k: int| 0 <= k < columns.len() && is_key_column(rows[j], #[trigger] columns[k])
}

} // verus!
