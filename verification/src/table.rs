//! Text tables of tasks and projects, drawn by tabled.

use crate::project::Project;
use crate::task::{task_headers, Task};
use tabled::builder::Builder;
use tabled::settings::Style;
use vstd::prelude::*;

verus! {

/// What tabled draws for rows of cells, the first row being the header,
/// with `Style::empty()`.
pub uninterp spec fn spec_render_table(records: Seq<Seq<Seq<char>>>) -> Seq<char>;

/// Draws rows of cells, the first row being the header, through tabled's
/// `Builder`, `Table::with(Style::empty())` and `to_string`.
#[verifier::external_body]
pub fn render_table(records: Vec<Vec<String>>) -> (s: String)
    ensures
        s@ == spec_render_table(records.deep_view()),
{
    let mut table = Builder::from(records).build();
    table.with(Style::empty());
    table.to_string()
}

/// Every task of `s` can be shown in the task table.
pub open spec fn all_displayable(s: Seq<Task>) -> bool {
    forall|i: int| 0 <= i < s.len() ==> #[trigger] s[i].displayable()
}

/// Every project of `s` is well formed.
pub open spec fn all_projects_wf(s: Seq<Project>) -> bool {
    forall|i: int| 0 <= i < s.len() ==> #[trigger] s[i].wf()
}

/// The rows of the task table for `s`, dates in display format `index`.
pub open spec fn task_rows(s: Seq<Task>, index: int) -> Seq<Seq<Seq<char>>> {
    s.map_values(|t: Task| t.spec_fields(index))
}

/// The rows of the project table for `s`.
pub open spec fn project_rows(s: Seq<Project>) -> Seq<Seq<Seq<char>>> {
    s.map_values(|p: Project| p.spec_fields())
}

/// The drawn task table for `s`, with its header.
pub open spec fn spec_task_table(s: Seq<Task>, index: int) -> Seq<char> {
    spec_render_table(seq![task_headers()] + task_rows(s, index))
}

/// The drawn project table for `s`, with its header.
pub open spec fn spec_project_table(s: Seq<Project>) -> Seq<char> {
    spec_render_table(seq![seq!["ID"@, "Project"@, "D"@]] + project_rows(s))
}

/// Pushing a row onto rows of cells pushes its cells onto their texts.
proof fn lemma_push_deep_view(before: Seq<Seq<Seq<char>>>, after: Vec<Vec<String>>, row: Seq<Seq<char>>)
    requires
        after@.len() == before.len() + 1,
        forall|k: int| 0 <= k < before.len() ==> (#[trigger] after@[k]).deep_view() == before[k],
        after@[before.len() as int].deep_view() == row,
    ensures
        after.deep_view() == before.push(row),
{
    assert(after.deep_view() =~= before.push(row));
}

/// Draws the task table of `tasks`, dates in display format `index`.
pub fn task_table(tasks: &Vec<&Task>, index: usize) -> (s: String)
    requires
        forall|i: int| 0 <= i < tasks@.len() ==> (#[trigger] tasks@[i]).displayable(),
    ensures
        s@ == spec_task_table(tasks@.map_values(|t: &Task| *t), index as int),
{
    let ghost plain = tasks@.map_values(|t: &Task| *t);
    let mut records: Vec<Vec<String>> = Vec::new();
    records.push(Task::headers());
    let mut i: usize = 0;
    while i < tasks.len()
        invariant
            i <= tasks@.len(),
            plain == tasks@.map_values(|t: &Task| *t),
            forall|k: int| 0 <= k < tasks@.len() ==> (#[trigger] tasks@[k]).displayable(),
            records.deep_view() == seq![task_headers()] + task_rows(plain.take(i as int), index as int),
        decreases tasks.len() - i,
    {
        let row = tasks[i].fields(index);
        let ghost before = records.deep_view();
        let ghost row_view = row.deep_view();
        records.push(row);
        proof {
            lemma_push_deep_view(before, records, row_view);
        }
        proof {
            assert(plain.take(i + 1) =~= plain.take(i as int).push(plain[i as int]));
            assert(task_rows(plain.take(i + 1), index as int) =~= task_rows(
                plain.take(i as int),
                index as int,
            ).push(plain[i as int].spec_fields(index as int)));
        }
        i = i + 1;
        assert(records.deep_view() =~= seq![task_headers()] + task_rows(plain.take(i as int), index as int));
    }
    assert(plain.take(i as int) =~= plain);
    render_table(records)
}

/// Draws the project table of `projects`.
pub fn project_table(projects: &Vec<Project>) -> (s: String)
    requires
        all_projects_wf(projects@),
    ensures
        s@ == spec_project_table(projects@),
{
    let mut records: Vec<Vec<String>> = Vec::new();
    records.push(Project::headers());
    let mut i: usize = 0;
    while i < projects.len()
        invariant
            i <= projects@.len(),
            all_projects_wf(projects@),
            records.deep_view() == seq![seq!["ID"@, "Project"@, "D"@]] + project_rows(
                projects@.take(i as int),
            ),
        decreases projects.len() - i,
    {
        let row = projects[i].fields();
        let ghost before = records.deep_view();
        let ghost row_view = row.deep_view();
        records.push(row);
        proof {
            lemma_push_deep_view(before, records, row_view);
        }
        proof {
            assert(projects@.take(i + 1) =~= projects@.take(i as int).push(projects@[i as int]));
            assert(project_rows(projects@.take(i + 1)) =~= project_rows(projects@.take(i as int)).push(
                projects@[i as int].spec_fields(),
            ));
        }
        i = i + 1;
        assert(records.deep_view() =~= seq![seq!["ID"@, "Project"@, "D"@]] + project_rows(
            projects@.take(i as int),
        ));
    }
    assert(projects@.take(i as int) =~= projects@);
    render_table(records)
}

} // verus!
