//! Idempotent schema initialisation as a state machine: for each table, ask
//! whether it exists, and create it only where it does not.
use vstd::prelude::*;

verus! {

/// A table that a backend needs, with the statement that creates it.
#[derive(Debug, Clone)]
pub struct TableSchema {
    pub name: String,
    pub create_sql: String,
}

/// What initialisation did with one table.
#[derive(Debug, Clone, Copy, PartialEq, Eq, Structural)]
pub enum TableStatus {
    Created,
    AlreadyExists,
}

/// Which answer the machine waits for.
#[derive(Debug, Clone, Copy, PartialEq, Eq, Structural)]
pub enum Phase {
    /// The answer to whether the current table exists.
    Check,
    /// The answer to the statement that creates the current table.
    Create,
}

/// One statement for the backend.
pub struct Statement {
    pub metrics: Vec<String>,
    pub ql: String,
}

/// The state of an initialisation: the tables (name and creating
/// statement), the current table, the awaited answer and the report so far.
pub struct SchemaInitView {
    pub tables: Seq<(Seq<char>, Seq<char>)>,
    pub pos: nat,
    pub phase: Phase,
    pub report: Seq<TableStatus>,
}

impl SchemaInitView {
    pub open spec fn wf(self) -> bool {
        &&& self.pos <= self.tables.len()
        &&& self.report.len() == self.pos
        &&& self.pos == self.tables.len() ==> self.phase == Phase::Check
    }

    pub open spec fn done(self) -> bool {
        self.pos >= self.tables.len()
    }

    /// The name of the current table.
    pub open spec fn current(self) -> Seq<char> {
        self.tables[self.pos as int].0
    }
}

/// The names and creating statements of a list of tables.
pub open spec fn tables_view(t: Seq<TableSchema>) -> Seq<(Seq<char>, Seq<char>)> {
    t.map_values(|s: TableSchema| (s.name@, s.create_sql@))
}

/// The state before the first statement.
pub open spec fn start(tables: Seq<(Seq<char>, Seq<char>)>) -> SchemaInitView {
    SchemaInitView { tables, pos: 0, phase: Phase::Check, report: Seq::empty() }
}

/// The statement that asks whether a table exists.
pub open spec fn check_ql(name: Seq<char>) -> Seq<char> {
    "show tables like "@ + name
}

/// The state after the backend answered the awaited statement with `rows`
/// rows: a table whose existence check returns rows already exists; one
/// whose check returns none is created next.
pub open spec fn step(s: SchemaInitView, rows: nat) -> SchemaInitView {
    match s.phase {
        Phase::Check => if rows > 0 {
            SchemaInitView {
                pos: s.pos + 1,
                report: s.report.push(TableStatus::AlreadyExists),
                ..s
            }
        } else {
            SchemaInitView { phase: Phase::Create, ..s }
        },
        Phase::Create => SchemaInitView {
            pos: s.pos + 1,
            phase: Phase::Check,
            report: s.report.push(TableStatus::Created),
            ..s
        },
    }
}

/// The state after the backend gave `answers`, in order, from state `s`.
pub open spec fn replay(s: SchemaInitView, answers: Seq<nat>) -> SchemaInitView
    decreases answers.len(),
{
    if answers.len() == 0 {
        s
    } else {
        step(replay(s, answers.drop_last()), answers.last())
    }
}

/// Decreases with every answer.
pub open spec fn init_measure(s: SchemaInitView) -> int {
    2 * (s.tables.len() - s.pos) + if s.phase == Phase::Check {
        1int
    } else {
        0int
    }
}

/// Drives schema initialisation one answer at a time.
pub struct SchemaInit {
    tables: Vec<TableSchema>,
    pos: usize,
    phase: Phase,
    report: Vec<TableStatus>,
}

impl View for SchemaInit {
    type V = SchemaInitView;

    closed spec fn view(&self) -> SchemaInitView {
        SchemaInitView {
            tables: tables_view(self.tables@),
            pos: self.pos as nat,
            phase: self.phase,
            report: self.report@,
        }
    }
}

impl SchemaInit {
    pub closed spec fn wf(&self) -> bool {
        self@.wf()
    }

    pub fn new(tables: Vec<TableSchema>) -> (r: Self)
        ensures
            r.wf(),
            r@ == start(tables_view(tables@)),
    {
        let r = SchemaInit { tables, pos: 0, phase: Phase::Check, report: Vec::new() };
        r
    }

    /// The statement to send next, or `None` once every table is handled.
    pub fn next_statement(&self) -> (r: Option<Statement>)
        requires
            self.wf(),
        ensures
            r is None <==> self@.done(),
            r matches Some(st) ==> {
                &&& st.metrics@.len() == 1
                &&& st.metrics@[0]@ == self@.current()
                &&& st.ql@ == match self@.phase {
                    Phase::Check => check_ql(self@.current()),
                    Phase::Create => self@.tables[self@.pos as int].1,
                }
            },
    {
        if self.pos >= self.tables.len() {
            return None;
        }
        let table = &self.tables[self.pos];
        let ql = match self.phase {
            Phase::Check => {
                let mut q = "show tables like ".to_owned();
                q.append(table.name.as_str());
                q
            },
            Phase::Create => table.create_sql.clone(),
        };
        let metrics = vec![table.name.clone()];
        Some(Statement { metrics, ql })
    }

    /// Takes the backend's answer to the last statement: the number of rows
    /// it returned.
    pub fn on_rows(&mut self, rows: usize)
        requires
            old(self).wf(),
            !old(self)@.done(),
        ensures
            final(self).wf(),
            final(self)@ == step(old(self)@, rows as nat),
    {
        let n = self.tables.len();
        assert(self.pos < n);
        match self.phase {
            Phase::Check => {
                if rows > 0 {
                    self.report.push(TableStatus::AlreadyExists);
                    self.pos = self.pos + 1;
                } else {
                    self.phase = Phase::Create;
                }
            },
            Phase::Create => {
                self.report.push(TableStatus::Created);
                self.pos = self.pos + 1;
                self.phase = Phase::Check;
            },
        }
    }

    /// The report: for each table handled so far, what was done with it.
    pub fn into_report(self) -> (r: Vec<TableStatus>)
        requires
            self.wf(),
        ensures
            r@ == self@.report,
            self@.done() ==> r@.len() == self@.tables.len(),
    {
        self.report
    }
}

/// Runs initialisation to its end against a backend that holds the tables
/// `existing`: an existence check returns one row exactly where the table is
/// there, and a creation adds the table. Gives the final state and the
/// tables the backend holds afterwards.
pub open spec fn run(s: SchemaInitView, existing: Set<Seq<char>>) -> (SchemaInitView, Set<Seq<char>>)
    decreases init_measure(s),
{
    if !s.wf() || s.done() {
        (s, existing)
    } else {
        match s.phase {
            Phase::Check => run(
                step(s, if existing.contains(s.current()) { 1 } else { 0 }),
                existing,
            ),
            Phase::Create => run(step(s, 0), existing.insert(s.current())),
        }
    }
}

/// The answers that a backend holding the tables `existing` gives from
/// state `s` on: an existence check returns one row exactly where the table
/// is there, and a creation returns none and adds the table.
pub open spec fn model_answers(s: SchemaInitView, existing: Set<Seq<char>>) -> Seq<nat>
    decreases init_measure(s),
{
    if !s.wf() || s.done() {
        Seq::empty()
    } else {
        match s.phase {
            Phase::Check => {
                let a: nat = if existing.contains(s.current()) { 1 } else { 0 };
                seq![a] + model_answers(step(s, a), existing)
            },
            Phase::Create => seq![0nat] + model_answers(step(s, 0), existing.insert(s.current())),
        }
    }
}

proof fn lemma_replay_front(s: SchemaInitView, a: nat, rest: Seq<nat>)
    ensures
        replay(s, seq![a] + rest) == replay(step(s, a), rest),
    decreases rest.len(),
{
    let all = seq![a] + rest;
    if rest.len() > 0 {
        assert(all.drop_last() =~= seq![a] + rest.drop_last());
        assert(all.last() == rest.last());
        lemma_replay_front(s, a, rest.drop_last());
        assert(replay(s, all) == step(replay(s, all.drop_last()), all.last()));
        assert(replay(step(s, a), rest) == step(
            replay(step(s, a), rest.drop_last()),
            rest.last(),
        ));
    } else {
        assert(all.drop_last() =~= Seq::<nat>::empty());
        assert(all.last() == a);
        assert(replay(s, all) == step(replay(s, all.drop_last()), all.last()));
        assert(replay(s, Seq::<nat>::empty()) == s);
        assert(rest =~= Seq::<nat>::empty());
    }
}

/// Replaying the answers of a backend that holds `existing` gives the final
/// state of `run`: what the machine reports against such a backend is what
/// `run` describes.
pub proof fn lemma_model_backend_replay(s: SchemaInitView, existing: Set<Seq<char>>)
    ensures
        replay(s, model_answers(s, existing)) == run(s, existing).0,
    decreases init_measure(s),
{
    if s.wf() && !s.done() {
        match s.phase {
            Phase::Check => {
                let a: nat = if existing.contains(s.current()) { 1 } else { 0 };
                lemma_replay_front(s, a, model_answers(step(s, a), existing));
                lemma_model_backend_replay(step(s, a), existing);
            },
            Phase::Create => {
                lemma_replay_front(s, 0, model_answers(step(s, 0), existing.insert(s.current())));
                lemma_model_backend_replay(step(s, 0), existing.insert(s.current()));
            },
        }
    }
}

/// Whether the table at `i` is the first of the tables from `lo` on to carry
/// its name.
pub open spec fn first_of_name(tables: Seq<(Seq<char>, Seq<char>)>, lo: int, i: int) -> bool {
    forall|j: int| lo <= j < i ==> #[trigger] tables[j].0 != tables[i].0
}

proof fn lemma_run_from(s: SchemaInitView, e: Set<Seq<char>>)
    requires
        s.wf(),
        s.phase == Phase::Check,
    ensures
        run(s, e).0.wf(),
        run(s, e).0.done(),
        run(s, e).0.tables == s.tables,
        forall|i: int| 0 <= i < s.pos ==> #[trigger] run(s, e).0.report[i] == s.report[i],
        forall|i: int|
            s.pos <= i < s.tables.len() ==> (#[trigger] run(s, e).0.report[i]
                == TableStatus::Created <==> !e.contains(s.tables[i].0) && first_of_name(
                s.tables,
                s.pos as int,
                i,
            )),
        forall|x: Seq<char>|
            #[trigger] run(s, e).1.contains(x) <==> (e.contains(x) || exists|j: int|
                s.pos <= j < s.tables.len() && #[trigger] s.tables[j].0 == x),
    decreases s.tables.len() - s.pos,
{
    if s.pos < s.tables.len() {
        let n = s.current();
        let p = s.pos as int;
        if e.contains(n) {
            let s1 = step(s, 1);
            lemma_run_from(s1, e);
            assert(run(s, e) == run(s1, e));
            assert forall|i: int| p < i < s.tables.len() implies (run(s, e).0.report[i]
                == TableStatus::Created <==> !e.contains(s.tables[i].0) && first_of_name(
                s.tables,
                p,
                i,
            )) by {
                if first_of_name(s.tables, p + 1, i) && !first_of_name(s.tables, p, i) {
                    assert(s.tables[p].0 == s.tables[i].0);
                }
            }
            assert forall|x: Seq<char>|
                run(s, e).1.contains(x) <==> (e.contains(x) || exists|j: int|
                    p <= j < s.tables.len() && #[trigger] s.tables[j].0 == x) by {
                if exists|j: int| p <= j < s.tables.len() && #[trigger] s.tables[j].0 == x {
                    let j = choose|j: int| p <= j < s.tables.len() && #[trigger] s.tables[j].0 == x;
                    if j > p {
                        assert(p + 1 <= j < s.tables.len() && s.tables[j].0 == x);
                    }
                }
            }
        } else {
            let s1 = step(s, 0);
            let s2 = step(s1, 0);
            let e2 = e.insert(n);
            lemma_run_from(s2, e2);
            assert(run(s, e) == run(s1, e));
            assert(run(s1, e) == run(s2, e2));
            assert forall|i: int| p < i < s.tables.len() implies (run(s, e).0.report[i]
                == TableStatus::Created <==> !e.contains(s.tables[i].0) && first_of_name(
                s.tables,
                p,
                i,
            )) by {
                if first_of_name(s.tables, p + 1, i) && !first_of_name(s.tables, p, i) {
                    assert(s.tables[p].0 == s.tables[i].0);
                }
                if first_of_name(s.tables, p, i) {
                    assert(s.tables[p].0 != s.tables[i].0);
                }
            }
            assert forall|x: Seq<char>|
                run(s, e).1.contains(x) <==> (e.contains(x) || exists|j: int|
                    p <= j < s.tables.len() && #[trigger] s.tables[j].0 == x) by {
                if x == n {
                    assert(s.tables[p].0 == x);
                }
                if exists|j: int| p <= j < s.tables.len() && #[trigger] s.tables[j].0 == x {
                    let j = choose|j: int| p <= j < s.tables.len() && #[trigger] s.tables[j].0 == x;
                    if j > p {
                        assert(p + 1 <= j < s.tables.len() && s.tables[j].0 == x);
                    }
                }
            }
        }
    }
}

/// Initialising twice against the same backend: the first run creates each
/// table that was missing (a name listed twice is created once) and leaves
/// the backend holding every table; the second run creates nothing, reports
/// every table as already there and leaves the backend as it was.
pub proof fn lemma_init_twice(tables: Seq<(Seq<char>, Seq<char>)>, existing: Set<Seq<char>>)
    ensures
        run(start(tables), existing).0.report.len() == tables.len(),
        forall|i: int|
            0 <= i < tables.len() ==> (#[trigger] run(start(tables), existing).0.report[i]
                == TableStatus::Created <==> !existing.contains(tables[i].0) && first_of_name(
                tables,
                0,
                i,
            )),
        forall|i: int| 0 <= i < tables.len() ==> run(start(tables), existing).1.contains(#[trigger] tables[i].0),
        run(start(tables), run(start(tables), existing).1).0.report.len() == tables.len(),
        forall|i: int|
            0 <= i < tables.len() ==> #[trigger] run(start(tables), run(start(tables), existing).1).0.report[i]
                == TableStatus::AlreadyExists,
        run(start(tables), run(start(tables), existing).1).1 == run(start(tables), existing).1,
{
    let after = run(start(tables), existing).1;
    lemma_run_from(start(tables), existing);
    lemma_run_from(start(tables), after);
    assert forall|i: int| 0 <= i < tables.len() implies after.contains(#[trigger] tables[i].0) by {
        assert(0 <= i < tables.len() && tables[i].0 == tables[i].0);
    }
    assert forall|i: int| 0 <= i < tables.len() implies #[trigger] run(start(tables), after).0.report[i]
        == TableStatus::AlreadyExists by {
        assert(after.contains(tables[i].0));
    }
    assert(run(start(tables), after).1 =~= after);
}

/// Against a backend that already holds every table, initialisation
/// creates nothing: every table is reported as already there and the
/// backend is left as it was.
pub proof fn lemma_all_exist(tables: Seq<(Seq<char>, Seq<char>)>, existing: Set<Seq<char>>)
    requires
        forall|i: int| 0 <= i < tables.len() ==> existing.contains(#[trigger] tables[i].0),
    ensures
        run(start(tables), existing).0.report.len() == tables.len(),
        forall|i: int|
            0 <= i < tables.len() ==> #[trigger] run(start(tables), existing).0.report[i]
                == TableStatus::AlreadyExists,
        run(start(tables), existing).1 == existing,
{
    lemma_run_from(start(tables), existing);
    assert(run(start(tables), existing).1 =~= existing);
}

} // verus!
