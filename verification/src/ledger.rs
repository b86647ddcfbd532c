//! The test ledger: an insertion-ordered registry of test results kept in
//! an `indexmap::IndexMap`, and an insertion-ordered list of leveled log
//! entries that interleaves test markers with ordinary log lines.

use vstd::prelude::*;
use crate::errors::FatalError;

verus! {

#[verifier::external_type_specification]
#[verifier::external_body]
#[verifier::reject_recursive_types(K)]
#[verifier::reject_recursive_types(V)]
#[verifier::reject_recursive_types(S)]
pub struct ExIndexMap<K, V, S>(indexmap::IndexMap<K, V, S>);

/// What a results map holds: name and pass/fail pairs, in insertion order.
pub uninterp spec fn results_entries(m: indexmap::IndexMap<String, bool>) -> Seq<(Seq<char>, bool)>;

/// Relies on IndexMap::new: the new map is empty.
#[verifier::external_body]
fn results_new() -> (r: indexmap::IndexMap<String, bool>)
    ensures
        results_entries(r) == Seq::<(Seq<char>, bool)>::empty(),
{
    indexmap::IndexMap::new()
}

/// Relies on IndexMap::insert: an existing key keeps its place in the
/// order and only its value is replaced; a new key is appended last.
#[verifier::external_body]
fn results_insert(m: &mut indexmap::IndexMap<String, bool>, k: String, v: bool)
    ensures
        results_has(results_entries(*old(m)), k@)
            ==> results_entries(*final(m)) == results_entries(*old(m)).update(
                results_index(results_entries(*old(m)), k@),
                (k@, v),
            ),
        !results_has(results_entries(*old(m)), k@)
            ==> results_entries(*final(m)) == results_entries(*old(m)).push((k@, v)),
{
    m.insert(k, v);
}

/// Relies on IndexMap::contains_key.
#[verifier::external_body]
fn results_contains(m: &indexmap::IndexMap<String, bool>, k: &String) -> (r: bool)
    ensures
        r == (exists|i: int|
            0 <= i < results_entries(*m).len() && results_entries(*m)[i].0 == k@),
{
    m.contains_key(k)
}

/// Relies on IndexMap::last: the entry at the end of the insertion order.
#[verifier::external_body]
fn results_last(m: &indexmap::IndexMap<String, bool>) -> (r: Option<(String, bool)>)
    ensures
        match r {
            Some(p) => results_entries(*m).len() > 0
                && results_entries(*m).last() == (p.0@, p.1),
            None => results_entries(*m).len() == 0,
        },
{
    m.last().map(|(k, v)| (k.clone(), *v))
}

/// Relies on IndexMap::get: the value stored under an equivalent key.
#[verifier::external_body]
fn results_get(m: &indexmap::IndexMap<String, bool>, k: &String) -> (r: Option<bool>)
    ensures
        match r {
            Some(v) => (exists|i: int|
                0 <= i < results_entries(*m).len() && results_entries(*m)[i] == (k@, v)),
            None => (forall|i: int|
                0 <= i < results_entries(*m).len() ==> results_entries(*m)[i].0 != k@),
        },
{
    m.get(k).copied()
}

/// Relies on IndexMap::iter: the entries in their insertion order.
#[verifier::external_body]
fn results_to_vec(m: &indexmap::IndexMap<String, bool>) -> (r: Vec<(String, bool)>)
    ensures
        r@.map_values(|p: (String, bool)| (p.0@, p.1)) == results_entries(*m),
{
    m.iter().map(|(k, v)| (k.clone(), *v)).collect()
}

/// Severity of one log line.
#[allow(non_camel_case_types)]
#[derive(Debug, Clone, Copy, PartialEq, Eq, Structural)]
pub enum Level {
    ERROR,
    WARNING,
    INFO,
    DEBUG,
    SUCCESS,
    UNKNOWN,
}

/// The level a numeric log code denotes.
pub open spec fn spec_level_from_u32(n: u32) -> Level {
    if n == 1 { Level::ERROR }
    else if n == 2 { Level::WARNING }
    else if n == 3 { Level::INFO }
    else if n == 4 { Level::DEBUG }
    else if n == 5 { Level::SUCCESS }
    else { Level::UNKNOWN }
}

/// Maps a numeric log code to its level; codes outside the known range
/// are unknown.
pub fn level_from_u32(n: u32) -> (r: Level)
    ensures
        r == spec_level_from_u32(n),
{
    match n {
        1 => Level::ERROR,
        2 => Level::WARNING,
        3 => Level::INFO,
        4 => Level::DEBUG,
        5 => Level::SUCCESS,
        _ => Level::UNKNOWN,
    }
}

/// One ledger line: a message at a level. A line whose message is a
/// registered test name acts as that test's marker during playback.
#[derive(Debug, Clone)]
pub struct LogEntry {
    pub message: String,
    pub level: Level,
}

/// One line of the rendered report.
#[derive(Debug, Clone, PartialEq, Eq)]
pub enum ReportLine {
    /// A marker for a passing test.
    Passed(String),
    /// A marker for a failing test.
    Failed(String),
    /// An ordinary leveled log line.
    Log(String, Level),
}

/// Mathematical model of a report line.
#[verifier::ext_equal]
pub enum ReportLineView {
    Passed(Seq<char>),
    Failed(Seq<char>),
    Log(Seq<char>, Level),
}

impl View for ReportLine {
    type V = ReportLineView;

    open spec fn view(&self) -> ReportLineView {
        match self {
            ReportLine::Passed(name) => ReportLineView::Passed(name@),
            ReportLine::Failed(name) => ReportLineView::Failed(name@),
            ReportLine::Log(msg, level) => ReportLineView::Log(msg@, *level),
        }
    }
}

/// The ordered record of test results and log lines.
pub struct TestLedger {
    pub results: indexmap::IndexMap<String, bool>,
    pub entries: Vec<LogEntry>,
}

/// The models of the log entries, element by element.
pub open spec fn log_views(s: Seq<LogEntry>) -> Seq<(Seq<char>, Level)> {
    s.map_values(|e: LogEntry| (e.message@, e.level))
}

/// Taking log models commutes with appending one entry.
pub proof fn lemma_log_views_push(s: Seq<LogEntry>, x: LogEntry)
    ensures
        log_views(s.push(x)) =~= log_views(s).push((x.message@, x.level)),
{
    assert forall|k: int| 0 <= k < s.len() + 1 implies
        log_views(s.push(x))[k] == log_views(s).push((x.message@, x.level))[k] by {
        if k < s.len() {
            assert(s.push(x)[k] == s[k]);
        } else {
            assert(s.push(x)[k] == x);
        }
    }
}

/// How many results carry the given pass/fail state.
pub open spec fn count_with(s: Seq<(Seq<char>, bool)>, val: bool) -> nat
    decreases s.len(),
{
    if s.len() == 0 {
        0
    } else {
        count_with(s.drop_last(), val) + if s.last().1 == val { 1nat } else { 0nat }
    }
}

/// Whether some result entry carries this name.
pub open spec fn results_has(s: Seq<(Seq<char>, bool)>, name: Seq<char>) -> bool {
    exists|i: int| 0 <= i < s.len() && s[i].0 == name
}

/// The position of the result entry with this name.
pub open spec fn results_index(s: Seq<(Seq<char>, bool)>, name: Seq<char>) -> int {
    choose|i: int| 0 <= i < s.len() && s[i].0 == name
}

/// How one ledger line renders, given the recorded results.
pub open spec fn render_line(
    entry: (Seq<char>, Level),
    results: Seq<(Seq<char>, bool)>,
) -> ReportLineView {
    if results_has(results, entry.0) {
        if results[results_index(results, entry.0)].1 {
            ReportLineView::Passed(entry.0)
        } else {
            ReportLineView::Failed(entry.0)
        }
    } else {
        ReportLineView::Log(entry.0, entry.1)
    }
}

impl TestLedger {
    /// The recorded results: name and pass/fail pairs in registration order.
    pub open spec fn results_model(self) -> Seq<(Seq<char>, bool)> {
        results_entries(self.results)
    }

    /// The recorded log lines in insertion order.
    pub open spec fn logs_model(self) -> Seq<(Seq<char>, Level)> {
        log_views(self.entries@)
    }

    /// Test names are unique.
    pub open spec fn wf(self) -> bool {
        forall|i: int, j: int|
            0 <= i < j < self.results_model().len()
                ==> self.results_model()[i].0 != self.results_model()[j].0
    }

    /// An empty ledger.
    pub fn new() -> (r: TestLedger)
        ensures
            r.results_model() == Seq::<(Seq<char>, bool)>::empty(),
            r.logs_model() =~= Seq::<(Seq<char>, Level)>::empty(),
            r.wf(),
    {
        TestLedger { results: results_new(), entries: Vec::new() }
    }

    /// Registers a new passing test and an informational marker line; a
    /// name registered before is a fatal error and changes nothing.
    pub fn register_test(&mut self, name: String) -> (r: Result<(), FatalError>)
        requires
            old(self).wf(),
        ensures
            final(self).wf(),
            match r {
                Ok(()) => !results_has(old(self).results_model(), name@)
                    && final(self).results_model()
                        == old(self).results_model().push((name@, true))
                    && final(self).logs_model()
                        == old(self).logs_model().push((name@, Level::INFO)),
                Err(e) => results_has(old(self).results_model(), name@)
                    && e@ == crate::errors::FatalErrorView::DuplicateTest { name: name@ }
                    && *final(self) == *old(self),
            },
    {
        if results_contains(&self.results, &name) {
            return Err(FatalError::DuplicateTest { name });
        }
        let marker = name.clone();
        let ghost es = self.results_model();
        results_insert(&mut self.results, name, true);
        proof {
            let fs = self.results_model();
            assert(fs == es.push((name@, true)));
            assert forall|i: int, j: int| 0 <= i < j < fs.len() implies
                fs[i].0 != fs[j].0 by {
                if j < es.len() {
                    assert(fs[i] == es[i]);
                    assert(fs[j] == es[j]);
                } else {
                    assert(fs[i] == es[i]);
                    assert(fs[j] == (name@, true));
                    if es[i].0 == name@ {
                        assert(results_has(es, name@));
                    }
                }
            }
        }
        let ghost prev = self.entries@;
        self.entries.push(LogEntry { message: marker, level: Level::INFO });
        proof {
            lemma_log_views_push(prev, self.entries@.last());
            assert(self.logs_model() =~= old(self).logs_model().push((name@, Level::INFO)));
        }
        Ok(())
    }

    /// Flips the most recently registered test to failed and appends an
    /// error log line carrying the failure message.
    pub fn mark_current_failed(&mut self, msg: String)
        requires
            old(self).wf(),
            old(self).results_model().len() > 0,
        ensures
            final(self).wf(),
            final(self).results_model() == old(self).results_model().update(
                old(self).results_model().len() - 1,
                (old(self).results_model().last().0, false),
            ),
            final(self).logs_model() == old(self).logs_model().push((msg@, Level::ERROR)),
    {
        let last = results_last(&self.results);
        match last {
            Some(p) => {
                let ghost es = self.results_model();
                let ghost n = es.len() as int;
                proof {
                    assert(es[n - 1].0 == p.0@);
                }
                results_insert(&mut self.results, p.0, false);
                proof {
                    let i = choose|i: int| 0 <= i < es.len() && es[i].0 == p.0@;
                    assert(i == n - 1);
                }
                let ghost prev = self.entries@;
                self.entries.push(LogEntry { message: msg, level: Level::ERROR });
                proof {
                    lemma_log_views_push(prev, self.entries@.last());
                    assert(self.logs_model()
                        =~= old(self).logs_model().push((msg@, Level::ERROR)));
                }
            }
            None => {
                proof {
                    assert(false);
                }
            }
        }
    }

    /// Appends an ordinary log line.
    pub fn log_line(&mut self, msg: String, level: Level)
        ensures
            final(self).results_model() == old(self).results_model(),
            final(self).logs_model() == old(self).logs_model().push((msg@, level)),
            final(self).wf() == old(self).wf(),
    {
        let ghost prev = self.entries@;
        self.entries.push(LogEntry { message: msg, level });
        proof {
            lemma_log_views_push(prev, self.entries@.last());
            assert(self.logs_model() =~= old(self).logs_model().push((msg@, level)));
        }
    }

    /// Whether any test has been registered yet.
    pub fn has_tests(&self) -> (r: bool)
        ensures
            r == (self.results_model().len() > 0),
    {
        let last = results_last(&self.results);
        match last {
            Some(_) => true,
            None => false,
        }
    }

    /// How many tests are currently recorded as passing.
    pub fn get_successful_tests(&self) -> (r: usize)
        ensures
            r == count_with(self.results_model(), true),
    {
        count_results(&self.results, true)
    }

    /// How many tests are currently recorded as failing.
    pub fn get_failed_tests(&self) -> (r: usize)
        ensures
            r == count_with(self.results_model(), false),
    {
        count_results(&self.results, false)
    }

    /// The number of passing and failing tests, in that order.
    pub fn summary(&self) -> (r: (usize, usize))
        ensures
            r.0 == count_with(self.results_model(), true),
            r.1 == count_with(self.results_model(), false),
    {
        (self.get_successful_tests(), self.get_failed_tests())
    }

    /// Renders the ordered report: a ledger line whose message is a
    /// registered test name becomes that test's pass/fail marker; every
    /// other line stays a leveled log line.
    pub fn flush_logs(&self) -> (r: Vec<ReportLine>)
        requires
            self.wf(),
        ensures
            r@.len() == self.logs_model().len(),
            forall|i: int| 0 <= i < r@.len()
                ==> r@[i]@ == render_line(#[trigger] self.logs_model()[i], self.results_model()),
    {
        let mut out: Vec<ReportLine> = Vec::new();
        let mut i: usize = 0;
        while i < self.entries.len()
            invariant
                self.wf(),
                i <= self.entries@.len(),
                out@.len() == i,
                forall|k: int| 0 <= k < i
                    ==> out@[k]@ == render_line(
                        #[trigger] self.logs_model()[k],
                        self.results_model(),
                    ),
            decreases self.entries@.len() - i,
        {
            let msg = &self.entries[i].message;
            let found = results_get(&self.results, msg);
            let line = match found {
                Some(true) => ReportLine::Passed(msg.clone()),
                Some(false) => ReportLine::Failed(msg.clone()),
                None => ReportLine::Log(msg.clone(), self.entries[i].level),
            };
            proof {
                let entry = self.logs_model()[i as int];
                assert(entry.0 == msg@);
                let es = self.results_model();
                match found {
                    Some(v) => {
                        let w = choose|x: int| 0 <= x < es.len() && es[x] == (msg@, v);
                        assert(0 <= w < es.len() && es[w] == (msg@, v));
                        assert(results_has(es, msg@));
                        let j = results_index(es, msg@);
                        assert(0 <= j < es.len() && es[j].0 == msg@);
                        if w != j {
                            if w < j {
                                assert(es[w].0 != es[j].0);
                            } else {
                                assert(es[j].0 != es[w].0);
                            }
                        }
                        assert(j == w);
                    }
                    None => {
                        assert(!results_has(es, msg@));
                    }
                }
            }
            out.push(line);
            i = i + 1;
        }
        out
    }
}

/// Counts the results recorded with the given state.
fn count_results(m: &indexmap::IndexMap<String, bool>, val: bool) -> (r: usize)
    ensures
        r == count_with(results_entries(*m), val),
{
    let entries = results_to_vec(m);
    let ghost es = results_entries(*m);
    let mut count: usize = 0;
    let mut i: usize = 0;
    proof {
        assert(es.len() == entries@.len());
        assert(es.subrange(0, 0) =~= Seq::<(Seq<char>, bool)>::empty());
    }
    while i < entries.len()
        invariant
            i <= entries@.len(),
            es == results_entries(*m),
            entries@.map_values(|p: (String, bool)| (p.0@, p.1)) == es,
            count <= i,
            count == count_with(es.subrange(0, i as int), val),
        decreases entries@.len() - i,
    {
        proof {
            let sub = es.subrange(0, i + 1 as int);
            assert(sub.drop_last() =~= es.subrange(0, i as int));
            assert(sub.last() == es[i as int]);
            assert(es[i as int]
                == entries@.map_values(|p: (String, bool)| (p.0@, p.1))[i as int]);
        }
        if entries[i].1 == val {
            count = count + 1;
        }
        i = i + 1;
    }
    proof {
        assert(es.subrange(0, es.len() as int) =~= es);
    }
    count
}

/// Flips the most recently registered test to failed and appends the
/// failure message as an error log line. A test must be registered.
pub fn fail_test(ledger: &mut TestLedger, msg: String)
    requires
        old(ledger).wf(),
        old(ledger).results_model().len() > 0,
    ensures
        final(ledger).wf(),
        final(ledger).results_model() == old(ledger).results_model().update(
            old(ledger).results_model().len() - 1,
            (old(ledger).results_model().last().0, false),
        ),
        final(ledger).logs_model()
            == old(ledger).logs_model().push((msg@, Level::ERROR)),
{
    ledger.mark_current_failed(msg);
}

/// Registering a test makes any second registration under the same name
/// a duplicate, which `register_test` reports as fatal.
pub proof fn lemma_duplicate_registration_fatal(s: Seq<(Seq<char>, bool)>, name: Seq<char>)
    ensures
        results_has(s.push((name, true)), name),
{
    let s2 = s.push((name, true));
    assert(s2[s.len() as int].0 == name);
}

/// Failing the current test flips only the most recently registered
/// record; every earlier record keeps its name and state.
pub proof fn lemma_mark_current_failed_flips_only_last(s: Seq<(Seq<char>, bool)>)
    requires
        s.len() > 0,
    ensures
        s.update(s.len() - 1, (s.last().0, false)).last() == (s.last().0, false),
        forall|i: int| 0 <= i < s.len() - 1
            ==> s.update(s.len() - 1, (s.last().0, false))[i] == s[i],
        s.update(s.len() - 1, (s.last().0, false)).len() == s.len(),
{
}

} // verus!
