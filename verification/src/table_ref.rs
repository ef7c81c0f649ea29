//! BigQuery table references: `project.dataset.table`, `project:dataset.table` (the legacy form)
//! and `dataset.table`.

use vstd::prelude::*;
use vstd::string::*;

use crate::json::{str_or_null, Json, JsonView, Members};
use crate::options::{either, either_str, is_truthy, opt_str, text_view, truthy};
use crate::request::{outcome, Draft, Error};
use crate::text::{
    contains, cut_first, join, lemma_cut_first_found, lemma_cut_first_parts, lemma_join_split,
    lemma_split_last, lemma_split_whole, split, split_all, split_once, texts,
};

verus! {

/// What a table reference says.
pub struct TableView {
    pub project: Option<Seq<char>>,
    pub dataset: Seq<char>,
    pub table: Seq<char>,
    pub legacy: bool,
}

/// A table reference as an object.
pub open spec fn table_object(table_ref: Seq<char>, t: TableView) -> JsonView {
    JsonView::Obj(
        map![
            "table_ref"@ => JsonView::Str(table_ref),
            "project"@ => str_or_null(t.project),
            "dataset"@ => JsonView::Str(t.dataset),
            "table"@ => JsonView::Str(t.table),
            "legacy"@ => JsonView::Bool(t.legacy),
        ],
    )
}

/// The table that a reference shaped like one speaks of.
pub open spec fn shape(r: Seq<char>) -> Option<TableView> {
    match cut_first(r, ':') {
        Some((p, rest)) => {
            let dots = split(rest, '.');
            if dots.len() == 2 {
                Some(TableView { project: Some(p), dataset: dots[0], table: dots[1], legacy: true })
            } else {
                None
            }
        },
        None => {
            let dots = split(r, '.');
            if dots.len() == 3 {
                Some(
                    TableView {
                        project: Some(dots[0]),
                        dataset: dots[1],
                        table: dots[2],
                        legacy: false,
                    },
                )
            } else if dots.len() == 2 {
                Some(TableView { project: None, dataset: dots[0], table: dots[1], legacy: false })
            } else {
                None
            }
        },
    }
}

/// A second colon stands behind the first.
pub open spec fn two_colons(r: Seq<char>) -> bool {
    cut_first(r, ':') matches Some((_, rest)) && rest.contains(':')
}

/// A segment of the reference is empty.
pub open spec fn lacks_segment(t: TableView) -> bool {
    t.dataset.len() == 0 || t.table.len() == 0 || t.project == Some(Seq::<char>::empty())
}

/// The result of `parse_table_ref`.
pub open spec fn parse_table_ref_result(opts: JsonView) -> Result<JsonView, Seq<char>> {
    match either(opts, "table_ref"@, "value"@) {
        None => Err("missing table_ref"@),
        Some(r) => if two_colons(r) {
            Err("invalid table ref `"@ + r + "` (more than one `:`)"@)
        } else {
            match shape(r) {
                None => Err(
                    "invalid table ref `"@ + r + "` (want [project.|project:]dataset.table)"@,
                ),
                Some(t) => if lacks_segment(t) {
                    Err("table ref `"@ + r + "` has an empty segment"@)
                } else {
                    Ok(table_object(r, t))
                },
            }
        },
    }
}

/// The text option of that name, where it is not empty.
pub open spec fn filled(opts: JsonView, key: Seq<char>) -> Option<Seq<char>> {
    match opts.str_at(key) {
        Some(s) => if s.len() > 0 {
            Some(s)
        } else {
            None
        },
        None => None,
    }
}

/// The text has one of the separators in it.
pub open spec fn separated(s: Seq<char>) -> bool {
    s.contains('.') || s.contains(':')
}

/// The answer to a segment that has a separator in it.
pub open spec fn separator_complaint(name: Seq<char>, s: Seq<char>) -> Seq<char> {
    name + " must not contain `.` or `:`: "@ + s
}

/// The reference to a table, where it can be written down.
pub open spec fn written(t: TableView) -> Option<Seq<char>> {
    match t.project {
        Some(p) => if t.legacy {
            Some(p + ":"@ + t.dataset + "."@ + t.table)
        } else {
            Some(p + "."@ + t.dataset + "."@ + t.table)
        },
        None => if t.legacy {
            None
        } else {
            Some(t.dataset + "."@ + t.table)
        },
    }
}

/// The result of `build_table_ref`.
pub open spec fn build_table_ref_result(opts: JsonView) -> Result<JsonView, Seq<char>> {
    match filled(opts, "dataset"@) {
        None => Err("missing dataset"@),
        Some(dataset) => match filled(opts, "table"@) {
            None => Err("missing table"@),
            Some(table) => {
                let project = filled(opts, "project"@);
                let t = TableView { project, dataset, table, legacy: is_truthy(opts.at("legacy"@)) };
                if separated(dataset) {
                    Err(separator_complaint("dataset"@, dataset))
                } else if separated(table) {
                    Err(separator_complaint("table"@, table))
                } else if project is Some && separated(project->0) {
                    Err(separator_complaint("project"@, project->0))
                } else {
                    match written(t) {
                        None => Err("legacy form requires a project"@),
                        Some(r) => Ok(table_object(r, t)),
                    }
                }
            },
        },
    }
}

fn table_json(
    table_ref: &str,
    project: Option<&str>,
    dataset: &str,
    table: &str,
    legacy: bool,
) -> (r: Json)
    ensures
        r@ == table_object(
            table_ref@,
            TableView { project: opt_str(project), dataset: dataset@, table: table@, legacy },
        ),
{
    Json::Object(
        Members::new().with("table_ref", Json::text(table_ref)).with(
            "project",
            Json::text_or_null(project),
        ).with("dataset", Json::text(dataset)).with("table", Json::text(table)).with(
            "legacy",
            Json::Bool(legacy),
        ),
    )
}

/// Parses the table reference of the option `table_ref` (or `value`).
pub fn op_parse_table_ref(opts: Json) -> (res: Result<Json, Error>)
    ensures
        outcome(res) == parse_table_ref_result(opts@),
{
    match either_str(&opts, "table_ref", "value") {
        None => Err(Error::new("missing table_ref")),
        Some(r) => {
            let (before, rest, legacy): (Option<&str>, &str, bool) = match split_once(r, ':') {
                Some((p, rest)) => {
                    if contains(rest, ':') {
                        return Err(
                            Draft::new("invalid table ref `").lit(r).lit(
                                "` (more than one `:`)",
                            ).error(),
                        );
                    }
                    (Some(p), rest, true)
                },
                None => (None, r, false),
            };
            let dots: Vec<&str> = split_all(rest, '.');
            let n: usize = dots.len();
            assert(texts(dots@) == split(rest@, '.'));
            assert(dots@.len() == split(rest@, '.').len());
            if n == 2 || (n == 3 && !legacy) {
                let project: Option<&str> = if n == 3 {
                    Some(dots[0])
                } else {
                    before
                };
                let dataset: &str = dots[n - 2];
                let table: &str = dots[n - 1];
                assert(dataset@ == split(rest@, '.')[n - 2]);
                assert(table@ == split(rest@, '.')[n - 1]);
                assert(n == 3 ==> dots@[0]@ == split(rest@, '.')[0]);
                let unnamed: bool = match project {
                    Some(p) => p.is_empty(),
                    None => false,
                };
                assert(unnamed == (opt_str(project) == Some(Seq::<char>::empty()))) by {
                    if let Some(p) = project {
                        assert(p@.len() == 0 ==> p@ =~= Seq::<char>::empty());
                    }
                }
                if dataset.is_empty() || table.is_empty() || unnamed {
                    return Err(
                        Draft::new("table ref `").lit(r).lit("` has an empty segment").error(),
                    );
                }
                Ok(table_json(r, project, dataset, table, legacy))
            } else {
                Err(
                    Draft::new("invalid table ref `").lit(r).lit(
                        "` (want [project.|project:]dataset.table)",
                    ).error(),
                )
            }
        },
    }
}

fn filled_str<'a>(opts: &'a Json, key: &str) -> (r: Option<&'a str>)
    ensures
        opt_str(r) == filled(opts@, key@),
{
    match opts.str_at(key) {
        Some(s) => if s.is_empty() {
            None
        } else {
            Some(s)
        },
        None => None,
    }
}

fn unseparated<'a>(name: &str, s: &'a str) -> (r: Result<&'a str, Error>)
    ensures
        text_view(r) == if separated(s@) {
            Err::<Seq<char>, Seq<char>>(separator_complaint(name@, s@))
        } else {
            Ok::<Seq<char>, Seq<char>>(s@)
        },
{
    if contains(s, '.') || contains(s, ':') {
        Err(Draft::new(name).lit(" must not contain `.` or `:`: ").lit(s).error())
    } else {
        Ok(s)
    }
}

/// Writes a table reference from the options `dataset`, `table`, `project` and `legacy`.
pub fn op_build_table_ref(opts: Json) -> (res: Result<Json, Error>)
    ensures
        outcome(res) == build_table_ref_result(opts@),
{
    let dataset: &str = match filled_str(&opts, "dataset") {
        Some(d) => d,
        None => {
            return Err(Error::new("missing dataset"));
        },
    };
    let table: &str = match filled_str(&opts, "table") {
        Some(t) => t,
        None => {
            return Err(Error::new("missing table"));
        },
    };
    let project: Option<&str> = filled_str(&opts, "project");
    let legacy: bool = match opts.get("legacy") {
        Some(v) => truthy(v),
        None => false,
    };
    unseparated("dataset", dataset)?;
    unseparated("table", table)?;
    if let Some(p) = project {
        unseparated("project", p)?;
    }
    let written: Draft = match project {
        Some(p) => if legacy {
            Draft::new(p).lit(":").lit(dataset).lit(".").lit(table)
        } else {
            Draft::new(p).lit(".").lit(dataset).lit(".").lit(table)
        },
        None => if legacy {
            return Err(Error::new("legacy form requires a project"));
        } else {
            Draft::new(dataset).lit(".").lit(table)
        },
    };
    Ok(table_json(written.text.as_str(), project, dataset, table, legacy))
}

/// The members of a table object are told apart by their names.
proof fn lemma_names()
    ensures
        "table_ref"@ != "project"@,
        "table_ref"@ != "dataset"@,
        "table_ref"@ != "table"@,
        "table_ref"@ != "legacy"@,
        "project"@ != "dataset"@,
        "project"@ != "table"@,
        "project"@ != "legacy"@,
        "dataset"@ != "table"@,
        "dataset"@ != "legacy"@,
        "table"@ != "legacy"@,
        "."@ == seq!['.'],
        ":"@ == seq![':'],
{
    reveal_strlit("table_ref");
    reveal_strlit("project");
    reveal_strlit("dataset");
    reveal_strlit("table");
    reveal_strlit("legacy");
    reveal_strlit(".");
    reveal_strlit(":");
    assert("table_ref"@.len() == 9 && "project"@.len() == 7 && "dataset"@.len() == 7);
    assert("table"@.len() == 5 && "legacy"@.len() == 6);
    assert("project"@[0] == 'p' && "dataset"@[0] == 'd');
    assert("."@ =~= seq!['.']);
    assert(":"@ =~= seq![':']);
}

/// The pieces of texts without dots that are written with dots between them.
proof fn lemma_dotted(d: Seq<char>, t: Seq<char>)
    requires
        !d.contains('.'),
        !t.contains('.'),
    ensures
        split(d + seq!['.'] + t, '.') == seq![d, t],
        forall|p: Seq<char>|
            !p.contains('.') ==> #[trigger] split(p + seq!['.'] + d + seq!['.'] + t, '.') == seq![
                p,
                d,
                t,
            ],
{
    lemma_split_last(d, '.', t);
    lemma_split_whole(d, '.');
    assert(seq![d] + seq![t] =~= seq![d, t]);
    assert forall|p: Seq<char>| !p.contains('.') implies #[trigger] split(
        p + seq!['.'] + d + seq!['.'] + t,
        '.',
    ) == seq![p, d, t] by {
        lemma_split_last(p + seq!['.'] + d, '.', t);
        lemma_split_last(p, '.', d);
        lemma_split_whole(p, '.');
        assert(seq![p] + seq![d] + seq![t] =~= seq![p, d, t]);
    }
}

/// A text put together from texts has what they have.
proof fn lemma_contains_joined(a: Seq<char>, sep: char, b: Seq<char>, c: char)
    ensures
        (a + seq![sep] + b).contains(c) <==> a.contains(c) || c == sep || b.contains(c),
{
    let s = a + seq![sep] + b;
    if a.contains(c) {
        let i = choose|i: int| 0 <= i < a.len() && a[i] == c;
        assert(s[i] == c);
    }
    if b.contains(c) {
        let i = choose|i: int| 0 <= i < b.len() && b[i] == c;
        assert(s[a.len() + 1 + i] == c);
    }
    if c == sep {
        assert(s[a.len() as int] == c);
    }
    if s.contains(c) {
        let i = choose|i: int| 0 <= i < s.len() && s[i] == c;
        if i < a.len() {
            assert(a[i] == c);
        } else if i > a.len() {
            assert(b[i - a.len() - 1] == c);
        }
    }
}

proof fn lemma_uncut(s: Seq<char>, sep: char)
    requires
        !s.contains(sep),
    ensures
        cut_first(s, sep) is None,
{
    lemma_cut_first_parts(s, sep);
    if let Some((a, b)) = cut_first(s, sep) {
        assert((a + seq![sep] + b)[a.len() as int] == sep);
    }
}

/// What is read back of the reference to a table whose segments have no separators.
proof fn lemma_shape_of_written(t: TableView)
    requires
        written(t) is Some,
        !separated(t.dataset),
        !separated(t.table),
        t.project is Some ==> !separated(t.project->0),
    ensures
        shape(written(t)->0) == Some(t),
        !two_colons(written(t)->0),
{
    lemma_names();
    let r = written(t)->0;
    let (d, tb) = (t.dataset, t.table);
    let rest = d + seq!['.'] + tb;
    lemma_dotted(d, tb);
    lemma_contains_joined(d, '.', tb, ':');
    match t.project {
        Some(p) => {
            if t.legacy {
                assert(r =~= p + seq![':'] + rest);
                lemma_cut_first_found(p, ':', rest);
            } else {
                assert(split(p + seq!['.'] + d + seq!['.'] + tb, '.') == seq![p, d, tb]);
                lemma_contains_joined(p, '.', d, ':');
                lemma_contains_joined(p + seq!['.'] + d, '.', tb, ':');
                lemma_uncut(r, ':');
            }
        },
        None => {
            lemma_uncut(r, ':');
        },
    }
}

/// What a reference says is what it is written from; only the project of the legacy form can have
/// a dot in it.
proof fn lemma_written_of_shape(r: Seq<char>)
    requires
        shape(r) is Some,
        !two_colons(r),
    ensures
        ({
            let t = shape(r)->0;
            &&& written(t) == Some(r)
            &&& !separated(t.dataset)
            &&& !separated(t.table)
            &&& t.project is Some ==> !t.project->0.contains(':')
            &&& t.project is Some && !t.legacy ==> !t.project->0.contains('.')
        }),
{
    lemma_names();
    let t = shape(r)->0;
    lemma_cut_first_parts(r, ':');
    let rest = match cut_first(r, ':') {
        Some((_, rest)) => rest,
        None => r,
    };
    let dots = split(rest, '.');
    lemma_join_split(rest, '.');
    if dots.len() == 2 {
        let (d, tb) = (dots[0], dots[1]);
        assert(dots.drop_last() =~= seq![d]);
        assert(join(seq![d], "."@) == d);
        assert(rest == d + seq!['.'] + tb);
        lemma_contains_joined(d, '.', tb, ':');
    } else {
        let (p, d, tb) = (dots[0], dots[1], dots[2]);
        assert(dots.drop_last() =~= seq![p, d]);
        assert(seq![p, d].drop_last() =~= seq![p]);
        assert(join(seq![p], "."@) == p);
        assert(join(seq![p, d], "."@) == p + seq!['.'] + d);
        assert(rest == p + seq!['.'] + d + seq!['.'] + tb);
        lemma_contains_joined(p, '.', d, ':');
        lemma_contains_joined(p + seq!['.'] + d, '.', tb, ':');
    }
    if t.legacy {
        let p = t.project->0;
        assert(written(t)->0 =~= p + seq![':'] + rest);
    }
}

/// Parsing a reference that was built gives what it was built from.
pub proof fn parsing_undoes_building(opts: JsonView)
    requires
        build_table_ref_result(opts) is Ok,
    ensures
        parse_table_ref_result(build_table_ref_result(opts)->Ok_0) == build_table_ref_result(opts),
{
    lemma_names();
    let t = TableView {
        project: filled(opts, "project"@),
        dataset: filled(opts, "dataset"@)->0,
        table: filled(opts, "table"@)->0,
        legacy: is_truthy(opts.at("legacy"@)),
    };
    lemma_shape_of_written(t);
    assert(either(table_object(written(t)->0, t), "table_ref"@, "value"@) == written(t));
}

/// Building from what a reference was parsed into gives the same again. The project of a legacy
/// reference can have a dot in it, as in `a.b:dataset.table`, and is then not built again.
pub proof fn building_undoes_parsing(opts: JsonView)
    requires
        parse_table_ref_result(opts) is Ok,
        ({
            let t = shape(either(opts, "table_ref"@, "value"@)->0)->0;
            t.legacy ==> !t.project->0.contains('.')
        }),
    ensures
        build_table_ref_result(parse_table_ref_result(opts)->Ok_0) == parse_table_ref_result(opts),
{
    lemma_names();
    let r = either(opts, "table_ref"@, "value"@)->0;
    lemma_written_of_shape(r);
    let t = shape(r)->0;
    let v = table_object(r, t);
    assert(filled(v, "dataset"@) == Some(t.dataset));
    assert(filled(v, "table"@) == Some(t.table));
    if let Some(p) = t.project {
        assert(p.len() == 0 ==> p =~= Seq::<char>::empty());
    }
    assert(filled(v, "project"@) == t.project);
}

} // verus!
