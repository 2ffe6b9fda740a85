//! The harness runtime.
//!
//! One run resolves a configured document path, parses the loaded text into
//! a root record — one shared `global` record and an ordered `test` list —
//! and invokes the caller's check procedure once per test record, in
//! document order.  Reading the file is the caller's part; everything from
//! the loaded text onward happens here.  All failures are terminal: no test
//! record is handed out unless the whole document parsed.

use vstd::prelude::*;

use crate::adapt::AdaptError;
use crate::adapt::FromValue;
use crate::adapt::Outcome;
use crate::adapt::convert_elems;
use crate::adapt::elems_of_view;
use crate::document::parse_document;
use crate::document::toml_doc;
use crate::value::TomlValue;
use crate::value::ValueView;
use crate::value::table_get;
use crate::value::table_lookup;

verus! {

/// A failure that ends a run; each one occurs before any check procedure
/// is invoked.
#[derive(Clone, PartialEq, Eq, Debug)]
pub enum HarnessError {
    /// The resolved path does not name a regular file.
    NotFound(String),
    /// The file exists but could not be opened or read; the cause.
    ReadError(String),
    /// The text is not a document of the expected layout; the diagnostic.
    ParseError(String),
}

/// The parsed root record of a document: the one shared globals record and
/// the test records, in document order.
pub struct Root<G, T> {
    pub global: G,
    pub tests: Vec<T>,
}

/// A check procedure together with the state it accumulates over a run.
///
/// `next` fixes what one invocation does to that state; `check` is the
/// executable invocation, exact with respect to `next`.
pub trait Check<G: View, T: View>: View + Sized {
    /// The state after one invocation on the given globals and test case.
    spec fn next(pre: Self::V, g: <G as View>::V, t: <T as View>::V) -> Self::V;

    /// Run the check once, on the shared globals and the current test case.
    fn check(&mut self, g: &G, t: &T)
        ensures
            final(self)@ == Self::next(old(self)@, g@, t@),
    ;
}

/// The checker state after a whole run: one `next` step per test record,
/// in order, every step on the same globals.
pub open spec fn run_model<G: View, T: View, C: Check<G, T>>(
    c: <C as View>::V,
    g: <G as View>::V,
    ts: Seq<<T as View>::V>,
) -> <C as View>::V
    decreases ts.len(),
{
    if ts.len() == 0 {
        c
    } else {
        run_model::<G, T, C>(C::next(c, g, ts[0]), g, ts.drop_first())
    }
}

proof fn lemma_run_model_snoc<G: View, T: View, C: Check<G, T>>(
    c: <C as View>::V,
    g: <G as View>::V,
    ts: Seq<<T as View>::V>,
    t: <T as View>::V,
)
    ensures
        run_model::<G, T, C>(c, g, ts.push(t)) == C::next(run_model::<G, T, C>(c, g, ts), g, t),
    decreases ts.len(),
{
    if ts.len() == 0 {
        assert(ts.push(t).drop_first() =~= ts);
        assert(ts.push(t)[0] == t);
        assert(run_model::<G, T, C>(c, g, ts.push(t)) == run_model::<G, T, C>(
            C::next(c, g, t),
            g,
            ts,
        ));
        assert(run_model::<G, T, C>(C::next(c, g, t), g, ts) == C::next(c, g, t));
    } else {
        assert(ts.push(t).drop_first() =~= ts.drop_first().push(t));
        assert(ts.push(t)[0] == ts[0]);
        assert(run_model::<G, T, C>(c, g, ts.push(t)) == run_model::<G, T, C>(
            C::next(c, g, ts[0]),
            g,
            ts.drop_first().push(t),
        ));
        lemma_run_model_snoc::<G, T, C>(C::next(c, g, ts[0]), g, ts.drop_first(), t);
        assert(run_model::<G, T, C>(c, g, ts) == run_model::<G, T, C>(
            C::next(c, g, ts[0]),
            g,
            ts.drop_first(),
        ));
    }
}

/// The views of the test records, in order.
pub open spec fn views_of_tests<T: View>(ts: Seq<T>) -> Seq<<T as View>::V> {
    ts.map_values(|t: T| t@)
}

/// Law: a run invokes the check procedure exactly once per test record, in
/// document order, each time with the same shared globals record; the
/// checker state is the fold of `next` over the test views.
pub fn run<G: View, T: View, C: Check<G, T>>(root: &Root<G, T>, checker: &mut C)
    ensures
        final(checker)@ == run_model::<G, T, C>(
            old(checker)@,
            root.global@,
            views_of_tests(root.tests@),
        ),
{
    let ghost g = root.global@;
    let ghost tvs = views_of_tests(root.tests@);
    let n = root.tests.len();
    let mut i: usize = 0;
    proof {
        assert(tvs.take(0) =~= Seq::empty());
    }
    while i < n
        invariant
            n == root.tests.len(),
            i <= n,
            g == root.global@,
            tvs == views_of_tests(root.tests@),
            tvs.len() == n,
            forall|j: int| 0 <= j < n ==> tvs[j] == (#[trigger] root.tests@[j])@,
            checker@ == run_model::<G, T, C>(old(checker)@, g, tvs.take(i as int)),
        decreases n - i,
    {
        checker.check(&root.global, &root.tests[i]);
        proof {
            assert(tvs.take(i as int + 1) =~= tvs.take(i as int).push(tvs[i as int]));
            lemma_run_model_snoc::<G, T, C>(old(checker)@, g, tvs.take(i as int), tvs[i as int]);
        }
        i = i + 1;
    }
    proof {
        assert(tvs.take(n as int) =~= tvs);
    }
}

/// The path segments joined with `/`, in order.
pub open spec fn joined_path(segs: Seq<Seq<char>>) -> Seq<char>
    decreases segs.len(),
{
    if segs.len() == 0 {
        Seq::empty()
    } else if segs.len() == 1 {
        segs[0]
    } else {
        joined_path(segs.drop_last()) + seq!['/'] + segs.last()
    }
}

/// The joined segments with the document format's extension appended.
pub open spec fn resolved_path(segs: Seq<Seq<char>>) -> Seq<char> {
    joined_path(segs) + seq!['.', 't', 'o', 'm', 'l']
}

/// Join the configured path segments and append the document extension.
/// This is the whole of resolution: no file is touched.
pub fn resolve_path(segments: &Vec<String>) -> (r: String)
    requires
        segments@.len() > 0,
    ensures
        r@ == resolved_path(segments@.map_values(|s: String| s@)),
{
    let ghost segs = segments@.map_values(|s: String| s@);
    proof {
        reveal_strlit("/");
        reveal_strlit(".toml");
        assert("/"@ =~= seq!['/']);
        assert(".toml"@ =~= seq!['.', 't', 'o', 'm', 'l']);
    }
    let mut out = String::new();
    out.append(segments[0].as_str());
    proof {
        assert(segs.take(1) =~= seq![segs[0]]);
        assert(out@ =~= joined_path(segs.take(1)));
    }
    let n = segments.len();
    let mut i: usize = 1;
    while i < n
        invariant
            n == segments.len(),
            1 <= i <= n,
            segs == segments@.map_values(|s: String| s@),
            segs.len() == n,
            "/"@ == seq!['/'],
            out@ == joined_path(segs.take(i as int)),
        decreases n - i,
    {
        out.append("/");
        out.append(segments[i].as_str());
        proof {
            assert(segs.take(i as int + 1).drop_last() =~= segs.take(i as int));
            assert(segs.take(i as int + 1).last() == segs[i as int]);
            assert(out@ =~= joined_path(segs.take(i as int + 1)));
        }
        i = i + 1;
    }
    proof {
        assert(segs.take(n as int) =~= segs);
    }
    out.append(".toml");
    proof {
        assert(out@ =~= resolved_path(segs));
    }
    out
}

/// The root record the given document model describes: its `global` entry
/// adapted as `G`, its `test` entry — an array — element-wise adapted as
/// `T`.  Nothing, if any part of that fails.
pub open spec fn root_of_doc<G: FromValue, T: FromValue>(m: ValueView) -> Option<
    (<G as View>::V, Seq<<T as View>::V>),
> {
    match m {
        ValueView::Table(entries) => match table_lookup(entries, "global"@) {
            Some(gm) => match table_lookup(entries, "test"@) {
                Some(tm) => match G::of_view(gm) {
                    Outcome::Built(gv) => match tm {
                        ValueView::Array(elems) => match elems_of_view::<T>(elems) {
                            Outcome::Built(tvs) => Some((gv, tvs)),
                            _ => None,
                        },
                        _ => None,
                    },
                    _ => None,
                },
                None => None,
            },
            None => None,
        },
        _ => None,
    }
}

/// The root record the given document text describes, if it is well-formed
/// TOML and every record in it adapts.
pub open spec fn spec_root<G: FromValue, T: FromValue>(text: Seq<char>) -> Option<
    (<G as View>::V, Seq<<T as View>::V>),
> {
    match toml_doc(text) {
        Some(m) => root_of_doc::<G, T>(m),
        None => None,
    }
}

fn adapt_diagnostic(e: AdaptError) -> String {
    match e {
        AdaptError::TypeMismatch => "a value does not have the expected type".to_owned(),
        AdaptError::ConstructorFailure(m) => m,
    }
}

/// Parse document text into the root record, all-or-nothing: any missing
/// section, wrong category or failing constructor anywhere — inside a
/// single test record included — rejects the whole document.
pub fn parse_root<G: FromValue, T: FromValue>(text: &str) -> (r: Result<Root<G, T>, HarnessError>)
    ensures
        match spec_root::<G, T>(text@) {
            Some((gv, tvs)) => r matches Ok(root) && root.global@ == gv && views_of_tests(
                root.tests@,
            ) == tvs,
            None => r matches Err(e) && e is ParseError,
        },
{
    let doc = match parse_document(text) {
        Ok(v) => v,
        Err(m) => {
            return Err(HarnessError::ParseError(m));
        },
    };
    let entries = match doc.as_table() {
        Some(es) => es,
        None => {
            return Err(HarnessError::ParseError("the document root is not a table".to_owned()));
        },
    };
    let gkey: String = "global".to_owned();
    let graw = match table_get(entries, &gkey) {
        Some(v) => v,
        None => {
            return Err(HarnessError::ParseError("the global section is missing".to_owned()));
        },
    };
    let tkey: String = "test".to_owned();
    let traw = match table_get(entries, &tkey) {
        Some(v) => v,
        None => {
            return Err(HarnessError::ParseError("the test section is missing".to_owned()));
        },
    };
    let global = match G::of_value(graw) {
        Ok(g) => g,
        Err(e) => {
            return Err(HarnessError::ParseError(adapt_diagnostic(e)));
        },
    };
    let items = match traw.as_array() {
        Some(a) => a,
        None => {
            return Err(HarnessError::ParseError("the test section is not an array".to_owned()));
        },
    };
    let tests = match convert_elems::<T>(items) {
        Ok(ts) => ts,
        Err(e) => {
            return Err(HarnessError::ParseError(adapt_diagnostic(e)));
        },
    };
    let root = Root { global, tests };
    proof {
        let tvs = spec_root::<G, T>(text@).unwrap().1;
        assert(views_of_tests(root.tests@) =~= tvs);
    }
    Ok(root)
}

/// Drive one whole run from a load outcome: parse the text and invoke the
/// check procedure once per test record, in document order.  A load or
/// parse failure is returned as it stands, with the checker untouched — no
/// check procedure runs unless the whole document parsed.  On success the
/// number of test records is returned.
pub fn run_document<G: FromValue, T: FromValue, C: Check<G, T>>(
    loaded: Result<String, HarnessError>,
    checker: &mut C,
) -> (r: Result<usize, HarnessError>)
    ensures
        match loaded {
            Err(e) => r == Err::<usize, HarnessError>(e) && final(checker)@ == old(checker)@,
            Ok(text) => match spec_root::<G, T>(text@) {
                None => (r matches Err(e) && e is ParseError) && final(checker)@ == old(checker)@,
                Some((gv, tvs)) => (r matches Ok(n) && n == tvs.len()) && final(checker)@ == run_model::<
                    G,
                    T,
                    C,
                >(old(checker)@, gv, tvs),
            },
        },
{
    let text = match loaded {
        Ok(t) => t,
        Err(e) => {
            return Err(e);
        },
    };
    let root = match parse_root::<G, T>(text.as_str()) {
        Ok(rt) => rt,
        Err(e) => {
            return Err(e);
        },
    };
    let n = root.tests.len();
    run(&root, checker);
    Ok(n)
}

/// A checker that only counts its invocations, for any record types;
/// the count saturates at the type's maximum.
pub struct CountingChecker {
    pub calls: u64,
}

impl View for CountingChecker {
    type V = u64;

    open spec fn view(&self) -> u64 {
        self.calls
    }
}

impl<G: View, T: View> Check<G, T> for CountingChecker {
    open spec fn next(pre: u64, g: <G as View>::V, t: <T as View>::V) -> u64 {
        if pre < u64::MAX {
            (pre + 1) as u64
        } else {
            pre
        }
    }

    fn check(&mut self, g: &G, t: &T) {
        if self.calls < u64::MAX {
            self.calls = self.calls + 1;
        }
    }
}

/// Law: a run drives the counting checker up by exactly the number of test
/// records — the check procedure is invoked exactly once per record.
pub proof fn lemma_run_counts<G: View, T: View>(c: u64, g: <G as View>::V, ts: Seq<
    <T as View>::V,
>)
    requires
        c + ts.len() <= u64::MAX,
    ensures
        run_model::<G, T, CountingChecker>(c, g, ts) == c + ts.len(),
    decreases ts.len(),
{
    if ts.len() > 0 {
        lemma_run_counts::<G, T>((c + 1) as u64, g, ts.drop_first());
    }
}

/// A checker that records each invocation's globals and test case as raw
/// document values, in order.
pub struct RecordingChecker {
    pub seen: Vec<(TomlValue, TomlValue)>,
}

impl View for RecordingChecker {
    type V = Seq<(ValueView, ValueView)>;

    open spec fn view(&self) -> Seq<(ValueView, ValueView)> {
        self.seen@.map_values(|p: (TomlValue, TomlValue)| (p.0@, p.1@))
    }
}

impl Check<TomlValue, TomlValue> for RecordingChecker {
    open spec fn next(
        pre: Seq<(ValueView, ValueView)>,
        g: ValueView,
        t: ValueView,
    ) -> Seq<(ValueView, ValueView)> {
        pre.push((g, t))
    }

    fn check(&mut self, g: &TomlValue, t: &TomlValue) {
        let pair = (g.deep_clone(), t.deep_clone());
        self.seen.push(pair);
        proof {
            assert(self@ =~= old(self)@.push((g@, t@)));
        }
    }
}

/// Law: a run appends to the recording checker one pair per test record,
/// in document order, every pair carrying the same shared globals view.
pub proof fn lemma_run_records(
    pre: Seq<(ValueView, ValueView)>,
    g: ValueView,
    ts: Seq<ValueView>,
)
    ensures
        run_model::<TomlValue, TomlValue, RecordingChecker>(pre, g, ts) == pre + ts.map_values(
            |t: ValueView| (g, t),
        ),
    decreases ts.len(),
{
    let f = |t: ValueView| (g, t);
    if ts.len() == 0 {
        assert(pre + ts.map_values(f) =~= pre);
    } else {
        lemma_run_records(pre.push((g, ts[0])), g, ts.drop_first());
        assert(pre.push((g, ts[0])) + ts.drop_first().map_values(f) =~= pre + ts.map_values(f));
    }
}

} // verus!
