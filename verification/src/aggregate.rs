//! The source aggregator's decision logic. Sources are visited strictly in
//! their configured order; for each, the surrounding layer fetches the
//! manifest and hands the outcome here. The first source whose manifest
//! resolves the reference wins and no later source is consulted; fetch
//! failures and resolution failures merely move on to the next source.
//! When every source is exhausted, the diagnostics reporter speaks over
//! the last fetched manifest that contained the requested name.

use vstd::prelude::*;

use crate::diagnostics::{report, spec_diagnose, Diagnostic, SpecDiagnostic};
use crate::manifest::{Manifest, PackageReference, SpecManifest, SpecPackageReference};
use crate::resolve::{
    find_package_index, resolve, spec_find_package, spec_resolve, Resolved, SpecResolved,
};
use crate::search::{find_first, lemma_find_first_is, lemma_find_first_none, lemma_find_first_props};

verus! {

/// What fetching one source produced: a parsed manifest, a transport or
/// status failure, or a body that did not parse as a manifest.
#[derive(Debug, PartialEq)]
pub enum FetchOutcome {
    /// The source answered with a well-formed manifest.
    Document(Manifest),
    /// The source could not be fetched, or answered a non-success status.
    Unavailable,
    /// The fetched body did not parse into the manifest shape.
    Malformed,
}

/// Mathematical model of a [`FetchOutcome`].
pub enum SpecFetchOutcome {
    Document(SpecManifest),
    Unavailable,
    Malformed,
}

impl View for FetchOutcome {
    type V = SpecFetchOutcome;

    open spec fn view(&self) -> SpecFetchOutcome {
        match self {
            FetchOutcome::Document(m) => SpecFetchOutcome::Document(m@),
            FetchOutcome::Unavailable => SpecFetchOutcome::Unavailable,
            FetchOutcome::Malformed => SpecFetchOutcome::Malformed,
        }
    }
}

/// The terminal outcome of one installation attempt across all sources.
#[derive(Debug, PartialEq)]
pub enum InstallDecision {
    /// The first winning source, and what it resolved the reference to.
    Install { source_index: usize, resolved: Resolved },
    /// Every source was exhausted; this is the reporter's guidance.
    Failed(Diagnostic),
    /// No sources are configured: nothing was attempted, an informational
    /// outcome rather than an error.
    NoSources,
}

/// Mathematical model of an [`InstallDecision`].
pub enum SpecInstallDecision {
    Install { source_index: int, resolved: SpecResolved },
    Failed(SpecDiagnostic),
    NoSources,
}

impl View for InstallDecision {
    type V = SpecInstallDecision;

    open spec fn view(&self) -> SpecInstallDecision {
        match self {
            InstallDecision::Install { source_index, resolved } => SpecInstallDecision::Install {
                source_index: *source_index as int,
                resolved: resolved@,
            },
            InstallDecision::Failed(d) => SpecInstallDecision::Failed(d@),
            InstallDecision::NoSources => SpecInstallDecision::NoSources,
        }
    }
}

/// Holds of fetch outcomes whose manifest resolves `r`.
pub open spec fn resolves_pred(r: SpecPackageReference) -> spec_fn(SpecFetchOutcome) -> bool {
    |o: SpecFetchOutcome|
        match o {
            SpecFetchOutcome::Document(m) => spec_resolve(m, r) is Ok,
            _ => false,
        }
}

/// The last fetched manifest in `outs` that contains a package named
/// `name`, if any.
pub open spec fn spec_last_with_name(outs: Seq<SpecFetchOutcome>, name: Seq<char>) -> Option<
    SpecManifest,
>
    decreases outs.len(),
{
    if outs.len() == 0 {
        None
    } else {
        let prev = spec_last_with_name(outs.drop_last(), name);
        match outs.last() {
            SpecFetchOutcome::Document(m) => if spec_find_package(m, name) is Some {
                Some(m)
            } else {
                prev
            },
            _ => prev,
        }
    }
}

/// The aggregation over the mathematical model: the first outcome whose
/// manifest resolves the reference wins; when none does, the reporter
/// speaks over the last manifest that contained the referenced name; an
/// empty source list is its own informational outcome.
pub open spec fn spec_resolve_across(
    outs: Seq<SpecFetchOutcome>,
    r: SpecPackageReference,
) -> SpecInstallDecision {
    if outs.len() == 0 {
        SpecInstallDecision::NoSources
    } else {
        match find_first(outs, resolves_pred(r)) {
            Some(i) => SpecInstallDecision::Install {
                source_index: i,
                resolved: match outs[i] {
                    SpecFetchOutcome::Document(m) => spec_resolve(m, r)->Ok_0,
                    _ => arbitrary(),
                },
            },
            None => SpecInstallDecision::Failed(
                spec_diagnose(spec_last_with_name(outs, r.name), r),
            ),
        }
    }
}

/// The model of a sequence of fetch outcomes.
pub open spec fn outcomes_view(outs: Seq<FetchOutcome>) -> Seq<SpecFetchOutcome> {
    outs.map_values(|o: FetchOutcome| o@)
}

/// Decides one installation attempt from the fetch outcome of every
/// configured source, in source order, as [`spec_resolve_across`] states:
/// the first source whose manifest resolves `reference` wins, a reference
/// no source can resolve is reported over the last manifest that contained
/// its name, and an empty source list decides nothing.
pub fn resolve_across(outcomes: &Vec<FetchOutcome>, reference: &PackageReference) -> (r:
    InstallDecision)
    ensures
        r@ == spec_resolve_across(outcomes_view(outcomes@), reference@),
{
    let ghost ov = outcomes_view(outcomes@);
    let n = outcomes.len();
    if n == 0 {
        return InstallDecision::NoSources;
    }
    let mut last_doc: Option<&Manifest> = None;
    let mut i: usize = 0;
    while i < n
        invariant
            n == outcomes.len(),
            n > 0,
            0 <= i <= n,
            ov == outcomes_view(outcomes@),
            ov.len() == n,
            forall|j: int| 0 <= j < i ==> !(resolves_pred(reference@)(ov[j])),
            match last_doc {
                None => spec_last_with_name(ov.take(i as int), reference@.name) is None,
                Some(m) => spec_last_with_name(ov.take(i as int), reference@.name) == Some(m@),
            },
        decreases n - i,
    {
        let ghost prefix = ov.take(i as int);
        let ghost next_prefix = ov.take(i as int + 1);
        proof {
            assert(next_prefix.drop_last() =~= prefix);
            assert(next_prefix.last() == ov[i as int]);
        }
        match &outcomes[i] {
            FetchOutcome::Document(m) => {
                match resolve(m, reference) {
                    Ok(res) => {
                        proof {
                            lemma_find_first_is(ov, resolves_pred(reference@), i as int);
                        }
                        return InstallDecision::Install { source_index: i, resolved: res };
                    },
                    Err(_) => {
                        if find_package_index(m, &reference.name).is_some() {
                            last_doc = Some(m);
                        }
                    },
                }
            },
            FetchOutcome::Unavailable => {},
            FetchOutcome::Malformed => {},
        }
        i += 1;
    }
    proof {
        lemma_find_first_none(ov, resolves_pred(reference@));
        assert(ov.take(n as int) =~= ov);
    }
    InstallDecision::Failed(report(last_doc, reference))
}

/// The running state of one installation attempt, fed one source's fetch
/// outcome at a time so the surrounding layer can stop fetching as soon
/// as a source wins: the reference being resolved, and the last fetched
/// manifest so far that contained the referenced name.
pub struct Aggregation {
    pub reference: PackageReference,
    pub last_with_name: Option<Manifest>,
}

/// Mathematical model of an [`Aggregation`].
pub struct SpecAggregation {
    pub reference: SpecPackageReference,
    pub last_with_name: Option<SpecManifest>,
}

impl View for Aggregation {
    type V = SpecAggregation;

    open spec fn view(&self) -> SpecAggregation {
        SpecAggregation {
            reference: self.reference@,
            last_with_name: match self.last_with_name {
                Some(m) => Some(m@),
                None => None,
            },
        }
    }
}

/// One aggregation step over the model: a manifest that resolves the
/// reference wins at once and leaves the state alone; any other outcome
/// wins nothing, and the state remembers the manifest when it contains
/// the referenced name.
pub open spec fn spec_observe(st: SpecAggregation, o: SpecFetchOutcome) -> (
    SpecAggregation,
    Option<SpecResolved>,
) {
    match o {
        SpecFetchOutcome::Document(m) => match spec_resolve(m, st.reference) {
            Ok(res) => (st, Some(res)),
            Err(_) => (
                SpecAggregation {
                    reference: st.reference,
                    last_with_name: if spec_find_package(m, st.reference.name) is Some {
                        Some(m)
                    } else {
                        st.last_with_name
                    },
                },
                None,
            ),
        },
        _ => (st, None),
    }
}

impl Aggregation {
    /// Begins an installation attempt for `reference`, with no manifest
    /// seen yet.
    pub fn new(reference: PackageReference) -> (r: Self)
        ensures
            r@.reference == reference@,
            r@.last_with_name is None,
    {
        Aggregation { reference, last_with_name: None }
    }

    /// Feeds the next source's fetch outcome, in source order. A returned
    /// resolution means this source wins: the caller installs it and
    /// consults no further source, which is exactly what keeps earlier
    /// sources authoritative over later ones.
    pub fn observe(&mut self, outcome: FetchOutcome) -> (r: Option<Resolved>)
        ensures
            final(self)@ == spec_observe(old(self)@, outcome@).0,
            (match r {
                Some(res) => Some(res@),
                None => None::<SpecResolved>,
            }) == spec_observe(old(self)@, outcome@).1,
    {
        match outcome {
            FetchOutcome::Document(m) => {
                match resolve(&m, &self.reference) {
                    Ok(res) => Some(res),
                    Err(_) => {
                        if find_package_index(&m, &self.reference.name).is_some() {
                            self.last_with_name = Some(m);
                        }
                        None
                    },
                }
            },
            FetchOutcome::Unavailable => None,
            FetchOutcome::Malformed => None,
        }
    }

    /// After every source was fed and none won, produces the reporter's
    /// guidance over the last manifest that contained the referenced name.
    pub fn finish(&self) -> (r: Diagnostic)
        ensures
            r@ == spec_diagnose(self@.last_with_name, self@.reference),
    {
        match &self.last_with_name {
            Some(m) => report(Some(m), &self.reference),
            None => report(None, &self.reference),
        }
    }
}

/// After exhausting all sources, a reference whose name no fetched
/// manifest contains fails with the plain "package not found" diagnostic.
pub proof fn lemma_exhausted_package_absent(outs: Seq<SpecFetchOutcome>, r: SpecPackageReference)
    requires
        outs.len() > 0,
        forall|i: int|
            0 <= i < outs.len() ==> (match #[trigger] outs[i] {
                SpecFetchOutcome::Document(m) => spec_find_package(m, r.name) is None,
                _ => true,
            }),
    ensures
        spec_resolve_across(outs, r) == SpecInstallDecision::Failed(
            SpecDiagnostic::PackageNotFound,
        ),
{
    assert forall|i: int| 0 <= i < outs.len() implies !(resolves_pred(r)(outs[i])) by {
        match outs[i] {
            SpecFetchOutcome::Document(m) => {
                assert(spec_resolve(m, r) is Err);
            },
            _ => {},
        }
    }
    lemma_find_first_none(outs, resolves_pred(r));
    lemma_last_with_name_absent(outs, r.name);
}

/// When no fetched manifest contains `name`, there is no last manifest
/// containing it.
proof fn lemma_last_with_name_absent(outs: Seq<SpecFetchOutcome>, name: Seq<char>)
    requires
        forall|i: int|
            0 <= i < outs.len() ==> (match #[trigger] outs[i] {
                SpecFetchOutcome::Document(m) => spec_find_package(m, name) is None,
                _ => true,
            }),
    ensures
        spec_last_with_name(outs, name) is None,
    decreases outs.len(),
{
    if outs.len() > 0 {
        assert forall|i: int|
            0 <= i < outs.drop_last().len() implies (match #[trigger] outs.drop_last()[i] {
            SpecFetchOutcome::Document(m) => spec_find_package(m, name) is None,
            _ => true,
        }) by {
            assert(outs.drop_last()[i] == outs[i]);
        }
        lemma_last_with_name_absent(outs.drop_last(), name);
    }
}

/// Feeding a whole outcome sequence to the step function, one outcome at
/// a time, starting from `st`: the state after every step, and the first
/// winning resolution, if any step won.
pub open spec fn spec_run(st: SpecAggregation, outs: Seq<SpecFetchOutcome>) -> (
    SpecAggregation,
    Option<SpecResolved>,
)
    decreases outs.len(),
{
    if outs.len() == 0 {
        (st, None)
    } else {
        let stepped = spec_observe(st, outs[0]);
        match stepped.1 {
            Some(res) => (stepped.0, Some(res)),
            None => spec_run(stepped.0, outs.drop_first()),
        }
    }
}

/// The last manifest containing `name`, computed from the front: it is
/// the last one among the later outcomes when those hold any, else the
/// first outcome's manifest when that contains the name.
proof fn lemma_last_with_name_front(outs: Seq<SpecFetchOutcome>, name: Seq<char>)
    requires
        outs.len() > 0,
    ensures
        spec_last_with_name(outs, name) == (match spec_last_with_name(outs.drop_first(), name) {
            Some(m) => Some(m),
            None => match outs[0] {
                SpecFetchOutcome::Document(m) => if spec_find_package(m, name) is Some {
                    Some(m)
                } else {
                    None
                },
                _ => None,
            },
        }),
    decreases outs.len(),
{
    if outs.len() == 1 {
        assert(outs.drop_last() =~= Seq::<SpecFetchOutcome>::empty());
        assert(outs.drop_first() =~= Seq::<SpecFetchOutcome>::empty());
        assert(outs.last() == outs[0]);
    } else {
        lemma_last_with_name_front(outs.drop_last(), name);
        assert(outs.drop_last().drop_first() =~= outs.drop_first().drop_last());
        assert(outs.drop_first().last() == outs.last());
        assert(outs.drop_last()[0] == outs[0]);
    }
}

/// A run over outcomes none of which resolves the reference wins nothing,
/// keeps the reference, and ends holding the last manifest that contained
/// the referenced name — or what it held before, when none did.
proof fn lemma_run_no_win(st: SpecAggregation, outs: Seq<SpecFetchOutcome>)
    requires
        forall|i: int| 0 <= i < outs.len() ==> !((resolves_pred(st.reference))(#[trigger] outs[i])),
    ensures
        spec_run(st, outs).1 is None,
        spec_run(st, outs).0.reference == st.reference,
        spec_run(st, outs).0.last_with_name == (match spec_last_with_name(
            outs,
            st.reference.name,
        ) {
            Some(m) => Some(m),
            None => st.last_with_name,
        }),
    decreases outs.len(),
{
    if outs.len() > 0 {
        lemma_last_with_name_front(outs, st.reference.name);
        let stepped = spec_observe(st, outs[0]);
        assert(stepped.1 is None);
        assert forall|i: int|
            0 <= i < outs.drop_first().len() implies !((resolves_pred(
            stepped.0.reference,
        ))(#[trigger] outs.drop_first()[i])) by {
            assert(outs.drop_first()[i] == outs[i + 1]);
        }
        lemma_run_no_win(stepped.0, outs.drop_first());
    }
}

/// A run over outcomes whose first resolving one stands at `i` wins there,
/// with exactly that source's resolution.
proof fn lemma_run_win(st: SpecAggregation, outs: Seq<SpecFetchOutcome>, i: int)
    requires
        0 <= i < outs.len(),
        (resolves_pred(st.reference))(outs[i]),
        forall|j: int| 0 <= j < i ==> !((resolves_pred(st.reference))(#[trigger] outs[j])),
    ensures
        spec_run(st, outs).1 == (match outs[i] {
            SpecFetchOutcome::Document(m) => Some(spec_resolve(m, st.reference)->Ok_0),
            _ => None::<SpecResolved>,
        }),
    decreases outs.len(),
{
    let stepped = spec_observe(st, outs[0]);
    if i == 0 {
        assert(stepped.1 is Some);
    } else {
        assert(stepped.1 is None);
        assert forall|j: int|
            0 <= j < i - 1 implies !((resolves_pred(stepped.0.reference))(
            #[trigger] outs.drop_first()[j],
        )) by {
            assert(outs.drop_first()[j] == outs[j + 1]);
        }
        assert(outs.drop_first()[i - 1] == outs[i]);
        lemma_run_win(stepped.0, outs.drop_first(), i - 1);
    }
}

/// Driving the step function over every source's outcome in order, from a
/// fresh state, agrees exactly with the one-shot decision: a step wins
/// precisely when some source resolves the reference, with the resolution
/// the decision installs, and when none does, finishing from the final
/// state yields exactly the failure diagnostic.
pub proof fn lemma_run_agrees_with_decision(r: SpecPackageReference, outs: Seq<SpecFetchOutcome>)
    requires
        outs.len() > 0,
    ensures
        ({
            let fresh = SpecAggregation { reference: r, last_with_name: None };
            match spec_resolve_across(outs, r) {
                SpecInstallDecision::Install { source_index, resolved } => spec_run(fresh, outs).1
                    == Some(resolved),
                SpecInstallDecision::Failed(d) => spec_run(fresh, outs).1 is None && spec_diagnose(
                    spec_run(fresh, outs).0.last_with_name,
                    r,
                ) == d,
                SpecInstallDecision::NoSources => false,
            }
        }),
{
    let fresh = SpecAggregation { reference: r, last_with_name: None };
    lemma_find_first_props(outs, resolves_pred(r));
    match find_first(outs, resolves_pred(r)) {
        Some(i) => {
            lemma_run_win(fresh, outs, i);
        },
        None => {
            lemma_run_no_win(fresh, outs);
        },
    }
}

/// Source priority: when an earlier-listed source's manifest resolves the
/// reference, the decision installs from the first source that resolves
/// it, which lies no later than that source — whatever any later source's
/// manifest would have resolved it to.
pub proof fn lemma_source_priority(outs: Seq<SpecFetchOutcome>, r: SpecPackageReference, a: int)
    requires
        0 <= a < outs.len(),
        resolves_pred(r)(outs[a]),
    ensures
        spec_resolve_across(outs, r) matches SpecInstallDecision::Install {
            source_index,
            resolved,
        } && {
            &&& 0 <= source_index <= a
            &&& resolves_pred(r)(outs[source_index])
            &&& forall|j: int| 0 <= j < source_index ==> !(resolves_pred(r)(outs[j]))
            &&& resolved == (match outs[source_index] {
                SpecFetchOutcome::Document(m) => spec_resolve(m, r)->Ok_0,
                _ => arbitrary(),
            })
        },
{
    lemma_find_first_props(outs, resolves_pred(r));
}

} // verus!
